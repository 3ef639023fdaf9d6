//! Weapons as the builder records them.

use vstd::prelude::*;
use crate::lookup::Named;

verus! {

#[derive(Clone, Copy, PartialEq, Eq, Structural, Debug)]
pub enum WeaponCategory {
    Simple,
    Martial,
}

pub struct Weapon {
    pub name: String,
}

impl Named for Weapon {
    open spec fn key(&self) -> Seq<char> {
        self.name@
    }

    fn name_str(&self) -> (r: &str) {
        self.name.as_str()
    }
}

impl Weapon {
    pub fn new(name: String) -> (r: Self)
        ensures
            r.name@ == name@,
    {
        Weapon { name }
    }

    pub fn name(&self) -> (r: &str)
        ensures
            r@ == self.name@,
    {
        self.name.as_str()
    }
}

} // verus!
