//! Races and their subraces: immutable bundles of ability bonuses,
//! languages and proficiencies.

use vstd::prelude::*;
use crate::character::Size;
use crate::character::Speed;
use crate::datastore::AbilityArray;
use crate::datastore::CombatProficiency;
use crate::datastore::Skill;
use crate::lookup::Named;
use crate::lookup::find_by_key;
use crate::lookup::find_by_name;
use crate::lookup::insert_by_name;

verus! {

pub struct Race {
    pub name: String,
    pub long_text: String,
    pub ability_bonuses: AbilityArray,
    pub size: Size,
    pub speed: Speed,
    pub languages: Vec<String>,
    pub skill_proficiencies: Vec<Skill>,
    pub combat_proficiencies: Vec<CombatProficiency>,
    pub subraces: Vec<Subrace>,
}

pub struct Subrace {
    pub name: String,
    pub long_text: String,
    pub ability_bonuses: AbilityArray,
    pub languages: Vec<String>,
    pub skill_proficiencies: Vec<Skill>,
    pub combat_proficiencies: Vec<CombatProficiency>,
}

impl Named for Race {
    open spec fn key(&self) -> Seq<char> {
        self.name@
    }

    fn name_str(&self) -> (r: &str) {
        self.name.as_str()
    }
}

impl Named for Subrace {
    open spec fn key(&self) -> Seq<char> {
        self.name@
    }

    fn name_str(&self) -> (r: &str) {
        self.name.as_str()
    }
}

impl Race {
    /// The subrace of this race carrying the given name.
    pub open spec fn spec_get_subrace(self, name: Seq<char>) -> Option<Subrace> {
        find_by_key(self.subraces@, name)
    }

    /// Adds a subrace, replacing any subrace of the same name.
    pub fn add_subrace(&mut self, subrace: Subrace)
        ensures
            forall|n: Seq<char>|
                #[trigger] final(self).spec_get_subrace(n) == if n == subrace.name@ {
                    Some(subrace)
                } else {
                    old(self).spec_get_subrace(n)
                },
            final(self).name == old(self).name,
            final(self).long_text == old(self).long_text,
            final(self).ability_bonuses == old(self).ability_bonuses,
            final(self).size == old(self).size,
            final(self).speed == old(self).speed,
            final(self).languages == old(self).languages,
            final(self).skill_proficiencies == old(self).skill_proficiencies,
            final(self).combat_proficiencies == old(self).combat_proficiencies,
    {
        insert_by_name(&mut self.subraces, subrace);
    }

    pub fn get_subrace(&self, subrace: &str) -> (r: Option<&Subrace>)
        ensures
            match r {
                Some(x) => self.spec_get_subrace(subrace@) == Some(*x),
                None => self.spec_get_subrace(subrace@) is None,
            },
    {
        find_by_name(&self.subraces, subrace)
    }
}

} // verus!
