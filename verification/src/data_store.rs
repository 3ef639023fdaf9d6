//! A minimal datastore of plain race records, as an external loader
//! delivers them: the loader parses serialized text elsewhere and hands
//! this store structurally valid records.

use vstd::prelude::*;
use crate::attributes::AttributeArray;
use crate::lookup::Named;
use crate::lookup::find_by_key;
use crate::lookup::find_by_name;
use crate::lookup::insert_by_name;

verus! {

/// A plain race record: a name, a speed, and a table of attribute
/// bonuses.
pub struct RaceRecord {
    pub name: String,
    pub speed: u16,
    pub attribute_bonuses: AttributeArray,
}

impl Named for RaceRecord {
    open spec fn key(&self) -> Seq<char> {
        self.name@
    }

    fn name_str(&self) -> (r: &str) {
        self.name.as_str()
    }
}

pub struct DataStore {
    pub races: Vec<RaceRecord>,
}

impl DataStore {
    pub open spec fn spec_get_race(self, name: Seq<char>) -> Option<RaceRecord> {
        find_by_key(self.races@, name)
    }

    pub fn new() -> (r: Self)
        ensures
            r.races@.len() == 0,
    {
        DataStore { races: Vec::new() }
    }

    pub fn races(&self) -> (r: &Vec<RaceRecord>)
        ensures
            *r == self.races,
    {
        &self.races
    }

    /// Adds a race record under its name, replacing any record of the same
    /// name.
    pub fn add_race(&mut self, race: RaceRecord)
        ensures
            forall|n: Seq<char>|
                #[trigger] final(self).spec_get_race(n) == if n == race.name@ {
                    Some(race)
                } else {
                    old(self).spec_get_race(n)
                },
    {
        insert_by_name(&mut self.races, race);
    }

    pub fn get_race(&self, race: &str) -> (r: Option<&RaceRecord>)
        ensures
            match r {
                Some(x) => self.spec_get_race(race@) == Some(*x),
                None => self.spec_get_race(race@) is None,
            },
    {
        find_by_name(&self.races, race)
    }
}

} // verus!
