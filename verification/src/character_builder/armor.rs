//! Armor categories.

use vstd::prelude::*;

verus! {

#[derive(Clone, Copy, PartialEq, Eq, Structural, Debug)]
pub enum ArmorCategory {
    Light,
    Medium,
    Heavy,
    Shield,
}

} // verus!
