//! Skills as the builder sees them: the same skill list and proficiency
//! levels as the datastore, plus the fixed list of plain skills.

use vstd::prelude::*;

pub use crate::datastore::Skill;
pub use crate::datastore::SkillLevel;

verus! {

impl Skill {
    /// The eighteen skills that take no parameter, in their fixed order.
    pub fn into_iter() -> (r: Vec<Skill>)
        ensures
            r@ == seq![
                Skill::Athletics,
                Skill::Acrobatics,
                Skill::SleightOfHand,
                Skill::Stealth,
                Skill::Arcana,
                Skill::History,
                Skill::Investigation,
                Skill::Nature,
                Skill::Religion,
                Skill::AnimalHandling,
                Skill::Insight,
                Skill::Medicine,
                Skill::Perception,
                Skill::Survival,
                Skill::Deception,
                Skill::Intimidation,
                Skill::Performance,
                Skill::Persuasion,
            ],
    {
        let mut v: Vec<Skill> = Vec::new();
        v.push(Skill::Athletics);
        v.push(Skill::Acrobatics);
        v.push(Skill::SleightOfHand);
        v.push(Skill::Stealth);
        v.push(Skill::Arcana);
        v.push(Skill::History);
        v.push(Skill::Investigation);
        v.push(Skill::Nature);
        v.push(Skill::Religion);
        v.push(Skill::AnimalHandling);
        v.push(Skill::Insight);
        v.push(Skill::Medicine);
        v.push(Skill::Perception);
        v.push(Skill::Survival);
        v.push(Skill::Deception);
        v.push(Skill::Intimidation);
        v.push(Skill::Performance);
        v.push(Skill::Persuasion);
        proof {
            assert(v@ =~= seq![
                Skill::Athletics,
                Skill::Acrobatics,
                Skill::SleightOfHand,
                Skill::Stealth,
                Skill::Arcana,
                Skill::History,
                Skill::Investigation,
                Skill::Nature,
                Skill::Religion,
                Skill::AnimalHandling,
                Skill::Insight,
                Skill::Medicine,
                Skill::Perception,
                Skill::Survival,
                Skill::Deception,
                Skill::Intimidation,
                Skill::Performance,
                Skill::Persuasion,
            ]);
        }
        v
    }
}

} // verus!
