//! The reference datastore: read-only, name-keyed tables of provider
//! definitions (races, classes, feats, weapons, armor, spells). The engine
//! looks providers up by name and never mutates them.

use vstd::prelude::*;
use crate::character::Ability;
use crate::character::Die;
use crate::character::Size;
use crate::character::Speed;
use crate::lookup::Named;
use crate::lookup::find_by_key;
use crate::lookup::find_by_name;
use crate::lookup::insert_by_name;

mod races;
pub use races::Race;
pub use races::Subrace;

mod spells;
pub use spells::Spell;
pub use spells::spec_slots;
pub use spells::spec_slots_for_level;
pub use spells::SpellCaster;
pub use spells::SpellComponent;
pub use spells::SpellLevel;
pub use spells::SpellSchool;
pub use spells::SpellSlots;

mod skills;
pub use skills::CombatProficiency;
pub use skills::Skill;
pub use skills::SkillLevel;
pub use skills::contains_prof;
pub use skills::contains_skill;
pub use skills::prof_eq;
pub use skills::prof_list_contains;
pub use skills::skill_eq;
pub use skills::skill_list_contains;
pub use skills::find_skill_entry;
pub use skills::lemma_contains_skill_take_extend;
pub use skills::lemma_find_skill_respects_eq;
pub use skills::lemma_skill_eq_trans;
pub use skills::skill_map_get;
pub use skills::skill_map_set;

mod feats;
pub use feats::Effect as FeatEffect;
pub use feats::Feat;
pub use feats::Prerequisite as FeatPrerequisite;
pub use feats::contains_skill_effect;
pub use feats::effect_grants_skill;
pub use feats::feat_grants_skill;

verus! {

#[derive(Clone, Copy, PartialEq, Eq, Structural, Debug)]
pub enum WeaponCategory {
    Simple,
    Martial,
}

#[derive(Clone, Copy, PartialEq, Eq, Structural, Debug)]
pub enum WeaponRange {
    Melee,
    Ranged,
}

#[derive(Clone, Copy, PartialEq, Eq, Structural, Debug)]
pub enum ArmorCategory {
    Light,
    Medium,
    Heavy,
    Shield,
}

pub type Reach = u16;

/// A table of additive ability bonuses, one entry per ability; a zero
/// entry leaves the ability unchanged.
#[derive(Clone, Copy, PartialEq, Eq, Structural, Debug)]
pub struct AbilityArray {
    pub strength: i8,
    pub dexterity: i8,
    pub constitution: i8,
    pub wisdom: i8,
    pub intelligence: i8,
    pub charisma: i8,
}

/// The empty bonus table as a specification value.
pub open spec fn spec_zero_array() -> AbilityArray {
    AbilityArray {
        strength: 0,
        dexterity: 0,
        constitution: 0,
        wisdom: 0,
        intelligence: 0,
        charisma: 0,
    }
}

impl AbilityArray {
    pub open spec fn spec_get(self, ability: Ability) -> i8 {
        match ability {
            Ability::Str => self.strength,
            Ability::Dex => self.dexterity,
            Ability::Con => self.constitution,
            Ability::Wis => self.wisdom,
            Ability::Int => self.intelligence,
            Ability::Cha => self.charisma,
        }
    }

    /// The empty bonus table.
    pub fn zero() -> (r: AbilityArray)
        ensures
            r == spec_zero_array(),
            forall|a: Ability| r.spec_get(a) == 0,
    {
        AbilityArray {
            strength: 0,
            dexterity: 0,
            constitution: 0,
            wisdom: 0,
            intelligence: 0,
            charisma: 0,
        }
    }

    pub fn get(&self, ability: Ability) -> (v: i8)
        ensures
            v == self.spec_get(ability),
    {
        match ability {
            Ability::Str => self.strength,
            Ability::Dex => self.dexterity,
            Ability::Con => self.constitution,
            Ability::Wis => self.wisdom,
            Ability::Int => self.intelligence,
            Ability::Cha => self.charisma,
        }
    }

    pub fn set(&mut self, ability: Ability, value: i8)
        ensures
            final(self).spec_get(ability) == value,
            forall|a: Ability| a != ability ==> final(self).spec_get(a) == old(self).spec_get(a),
    {
        match ability {
            Ability::Str => self.strength = value,
            Ability::Dex => self.dexterity = value,
            Ability::Con => self.constitution = value,
            Ability::Wis => self.wisdom = value,
            Ability::Int => self.intelligence = value,
            Ability::Cha => self.charisma = value,
        }
    }
}

pub struct Weapon {
    pub name: String,
    pub category: WeaponCategory,
    pub range_category: WeaponRange,
    pub reach: Reach,
}

impl Named for Weapon {
    open spec fn key(&self) -> Seq<char> {
        self.name@
    }

    fn name_str(&self) -> (r: &str) {
        self.name.as_str()
    }
}

pub struct Armor {
    pub name: String,
    pub category: ArmorCategory,
}

impl Named for Armor {
    open spec fn key(&self) -> Seq<char> {
        self.name@
    }

    fn name_str(&self) -> (r: &str) {
        self.name.as_str()
    }
}

pub struct Class {
    pub name: String,
    pub long_text: String,
    pub hit_die: Die,
    pub saving_throws: Vec<Ability>,
    pub combat_proficiencies: Vec<CombatProficiency>,
    pub skill_proficiencies: Vec<Skill>,
    pub spell_caster: SpellCaster,
}

impl Named for Class {
    open spec fn key(&self) -> Seq<char> {
        self.name@
    }

    fn name_str(&self) -> (r: &str) {
        self.name.as_str()
    }
}

/// The datastore itself: one name-keyed table per provider kind.
pub struct Datastore {
    pub races: Vec<Race>,
    pub weapons: Vec<Weapon>,
    pub armors: Vec<Armor>,
    pub classes: Vec<Class>,
    pub feats: Vec<Feat>,
    pub spells: Vec<Spell>,
}

impl Datastore {
    pub open spec fn spec_get_race(self, name: Seq<char>) -> Option<Race> {
        find_by_key(self.races@, name)
    }

    pub open spec fn spec_get_weapon(self, name: Seq<char>) -> Option<Weapon> {
        find_by_key(self.weapons@, name)
    }

    pub open spec fn spec_get_armor(self, name: Seq<char>) -> Option<Armor> {
        find_by_key(self.armors@, name)
    }

    pub open spec fn spec_get_class(self, name: Seq<char>) -> Option<Class> {
        find_by_key(self.classes@, name)
    }

    pub open spec fn spec_get_feat(self, name: Seq<char>) -> Option<Feat> {
        find_by_key(self.feats@, name)
    }

    pub open spec fn spec_get_spell(self, name: Seq<char>) -> Option<Spell> {
        find_by_key(self.spells@, name)
    }

    /// Creates a new data store without any data in it.
    pub fn new() -> (r: Self)
        ensures
            r.races@.len() == 0,
            r.weapons@.len() == 0,
            r.armors@.len() == 0,
            r.classes@.len() == 0,
            r.feats@.len() == 0,
            r.spells@.len() == 0,
    {
        Datastore {
            races: Vec::new(),
            weapons: Vec::new(),
            armors: Vec::new(),
            classes: Vec::new(),
            feats: Vec::new(),
            spells: Vec::new(),
        }
    }

    pub fn add_race(&mut self, race: Race)
        ensures
            forall|n: Seq<char>|
                #[trigger] final(self).spec_get_race(n) == if n == race.name@ {
                    Some(race)
                } else {
                    old(self).spec_get_race(n)
                },
            final(self).weapons == old(self).weapons,
            final(self).armors == old(self).armors,
            final(self).classes == old(self).classes,
            final(self).feats == old(self).feats,
            final(self).spells == old(self).spells,
    {
        insert_by_name(&mut self.races, race);
    }

    pub fn add_weapon(&mut self, weapon: Weapon)
        ensures
            forall|n: Seq<char>|
                #[trigger] final(self).spec_get_weapon(n) == if n == weapon.name@ {
                    Some(weapon)
                } else {
                    old(self).spec_get_weapon(n)
                },
            final(self).races == old(self).races,
            final(self).armors == old(self).armors,
            final(self).classes == old(self).classes,
            final(self).feats == old(self).feats,
            final(self).spells == old(self).spells,
    {
        insert_by_name(&mut self.weapons, weapon);
    }

    pub fn add_armor(&mut self, armor: Armor)
        ensures
            forall|n: Seq<char>|
                #[trigger] final(self).spec_get_armor(n) == if n == armor.name@ {
                    Some(armor)
                } else {
                    old(self).spec_get_armor(n)
                },
            final(self).races == old(self).races,
            final(self).weapons == old(self).weapons,
            final(self).classes == old(self).classes,
            final(self).feats == old(self).feats,
            final(self).spells == old(self).spells,
    {
        insert_by_name(&mut self.armors, armor);
    }

    pub fn add_class(&mut self, class: Class)
        ensures
            forall|n: Seq<char>|
                #[trigger] final(self).spec_get_class(n) == if n == class.name@ {
                    Some(class)
                } else {
                    old(self).spec_get_class(n)
                },
            final(self).races == old(self).races,
            final(self).weapons == old(self).weapons,
            final(self).armors == old(self).armors,
            final(self).feats == old(self).feats,
            final(self).spells == old(self).spells,
    {
        insert_by_name(&mut self.classes, class);
    }

    pub fn add_feat(&mut self, feat: Feat)
        ensures
            forall|n: Seq<char>|
                #[trigger] final(self).spec_get_feat(n) == if n == feat.name@ {
                    Some(feat)
                } else {
                    old(self).spec_get_feat(n)
                },
            final(self).races == old(self).races,
            final(self).weapons == old(self).weapons,
            final(self).armors == old(self).armors,
            final(self).classes == old(self).classes,
            final(self).spells == old(self).spells,
    {
        insert_by_name(&mut self.feats, feat);
    }

    pub fn add_spell(&mut self, spell: Spell)
        ensures
            forall|n: Seq<char>|
                #[trigger] final(self).spec_get_spell(n) == if n == spell.name@ {
                    Some(spell)
                } else {
                    old(self).spec_get_spell(n)
                },
            final(self).races == old(self).races,
            final(self).weapons == old(self).weapons,
            final(self).armors == old(self).armors,
            final(self).classes == old(self).classes,
            final(self).feats == old(self).feats,
    {
        insert_by_name(&mut self.spells, spell);
    }

    pub fn get_race(&self, race: &str) -> (r: Option<&Race>)
        ensures
            match r {
                Some(x) => self.spec_get_race(race@) == Some(*x),
                None => self.spec_get_race(race@) is None,
            },
    {
        find_by_name(&self.races, race)
    }

    pub fn get_weapon(&self, weapon: &str) -> (r: Option<&Weapon>)
        ensures
            match r {
                Some(x) => self.spec_get_weapon(weapon@) == Some(*x),
                None => self.spec_get_weapon(weapon@) is None,
            },
    {
        find_by_name(&self.weapons, weapon)
    }

    pub fn get_armor(&self, armor: &str) -> (r: Option<&Armor>)
        ensures
            match r {
                Some(x) => self.spec_get_armor(armor@) == Some(*x),
                None => self.spec_get_armor(armor@) is None,
            },
    {
        find_by_name(&self.armors, armor)
    }

    pub fn get_class(&self, class: &str) -> (r: Option<&Class>)
        ensures
            match r {
                Some(x) => self.spec_get_class(class@) == Some(*x),
                None => self.spec_get_class(class@) is None,
            },
    {
        find_by_name(&self.classes, class)
    }

    pub fn get_feat(&self, feat: &str) -> (r: Option<&Feat>)
        ensures
            match r {
                Some(x) => self.spec_get_feat(feat@) == Some(*x),
                None => self.spec_get_feat(feat@) is None,
            },
    {
        find_by_name(&self.feats, feat)
    }

    pub fn get_spell(&self, spell: &str) -> (r: Option<&Spell>)
        ensures
            match r {
                Some(x) => self.spec_get_spell(spell@) == Some(*x),
                None => self.spec_get_spell(spell@) is None,
            },
    {
        find_by_name(&self.spells, spell)
    }
}

} // verus!
