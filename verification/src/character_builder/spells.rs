//! Spells as the builder records them.

use vstd::prelude::*;
use crate::lookup::Named;

verus! {

pub struct Spell {
    pub name: String,
    pub level: SpellLevel,
    pub school: SpellSchool,
    pub casting_time: String,
    pub components: Vec<SpellComponent>,
    pub duration: String,
    pub long_text: String,
}

#[derive(Clone, Copy, PartialEq, Eq, Structural, Debug)]
pub enum SpellLevel {
    Cantrip,
    First,
    Second,
    Third,
    Fourth,
    Fifth,
    Sixth,
    Seventh,
    Eighth,
    Ninth,
}

#[derive(Clone, Copy, PartialEq, Eq, Structural, Debug)]
pub enum SpellSchool {
    Abjuration,
    Conjuration,
    Divination,
    Enchantment,
    Evocation,
    Illusion,
    Necromancy,
    Transmutation,
}

#[derive(Debug)]
pub enum SpellComponent {
    Verbal,
    Somatic,
    MaterialPresent(String),
    MaterialConsumed(String),
}

impl Named for Spell {
    open spec fn key(&self) -> Seq<char> {
        self.name@
    }

    fn name_str(&self) -> (r: &str) {
        self.name.as_str()
    }
}

impl Spell {
    pub fn name(&self) -> (r: &str)
        ensures
            r@ == self.name@,
    {
        self.name.as_str()
    }
}

} // verus!
