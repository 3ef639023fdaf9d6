//! Races as the builder records them: attribute bonuses, a size, a speed,
//! granted feats, and subraces.

use vstd::prelude::*;
use crate::character_builder::character::attributes::Array;
use crate::character_builder::size::Size;
use crate::lookup::Named;
use crate::lookup::find_by_key;
use crate::lookup::insert_by_name;

verus! {

pub type Speed = u16;

pub struct Race {
    pub name: String,
    pub attributes: Array,
    pub size: Size,
    pub speed: Speed,
    pub feats: Vec<String>,
    pub subraces: Vec<Subrace>,
}

pub struct Subrace {
    pub name: String,
    pub attributes: Array,
    pub feats: Vec<String>,
}

impl Named for Race {
    open spec fn key(&self) -> Seq<char> {
        self.name@
    }

    fn name_str(&self) -> (r: &str) {
        self.name.as_str()
    }
}

impl Named for Subrace {
    open spec fn key(&self) -> Seq<char> {
        self.name@
    }

    fn name_str(&self) -> (r: &str) {
        self.name.as_str()
    }
}

impl Race {
    pub open spec fn spec_get_subrace(self, name: Seq<char>) -> Option<Subrace> {
        find_by_key(self.subraces@, name)
    }

    pub fn new(name: String, attributes: Array, size: Size, speed: Speed, feats: Vec<String>) -> (r:
        Self)
        ensures
            r.name@ == name@,
            r.attributes == attributes,
            r.size == size,
            r.speed == speed,
            r.feats == feats,
            r.subraces@.len() == 0,
    {
        Race { name, attributes, size, speed, feats, subraces: Vec::new() }
    }

    pub fn name(&self) -> (r: &str)
        ensures
            r@ == self.name@,
    {
        self.name.as_str()
    }

    /// Adds a subrace under its name, replacing any subrace of the same
    /// name.
    pub fn add_subrace(&mut self, name: String, attributes: Array, feats: Vec<String>)
        ensures
            forall|n: Seq<char>|
                #[trigger] final(self).spec_get_subrace(n) == if n == name@ {
                    Some(Subrace { name, attributes, feats })
                } else {
                    old(self).spec_get_subrace(n)
                },
            final(self).name == old(self).name,
            final(self).attributes == old(self).attributes,
            final(self).size == old(self).size,
            final(self).speed == old(self).speed,
            final(self).feats == old(self).feats,
    {
        insert_by_name(&mut self.subraces, Subrace { name, attributes, feats });
    }
}

} // verus!
