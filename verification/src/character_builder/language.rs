//! Languages a character can learn to speak.

use vstd::prelude::*;
use crate::lookup::Named;

verus! {

pub struct Language {
    pub name: String,
    pub long_text: String,
}

impl Named for Language {
    open spec fn key(&self) -> Seq<char> {
        self.name@
    }

    fn name_str(&self) -> (r: &str) {
        self.name.as_str()
    }
}

} // verus!
