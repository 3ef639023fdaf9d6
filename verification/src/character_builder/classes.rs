//! Classes as the builder records them.

use vstd::prelude::*;
use crate::character_builder::Die;
use crate::character_builder::character::WeaponOrArmor;
use crate::character_builder::character::attributes::Attribute;
use crate::character_builder::skill::Skill;
use crate::lookup::Named;

verus! {

pub struct Class {
    pub name: String,
    pub hit_die: Die,
    pub weapon_and_armor_proficiencies: Vec<WeaponOrArmor>,
    pub skill_proficiencies: Vec<Skill>,
    pub saving_throws: Vec<Attribute>,
}

impl Named for Class {
    open spec fn key(&self) -> Seq<char> {
        self.name@
    }

    fn name_str(&self) -> (r: &str) {
        self.name.as_str()
    }
}

impl Class {
    pub fn name(&self) -> (r: &str)
        ensures
            r@ == self.name@,
    {
        self.name.as_str()
    }
}

} // verus!
