//! Feats: named bundles of tagged effects guarded by prerequisites.

use vstd::prelude::*;
use crate::character::Ability;
use crate::character::AbilityScore;
use crate::datastore::Skill;
use crate::datastore::skill_eq;
use crate::lookup::Named;

verus! {

pub struct Feat {
    pub name: String,
    pub long_text: String,
    pub effects: Vec<Effect>,
    pub prerequisites: Vec<Prerequisite>,
}

impl Named for Feat {
    open spec fn key(&self) -> Seq<char> {
        self.name@
    }

    fn name_str(&self) -> (r: &str) {
        self.name.as_str()
    }
}

/// One effect of a feat, as a tagged variant the engine can interpret and
/// reverse.
#[derive(Debug)]
pub enum Effect {
    AbilityIncrease(Ability, AbilityScore),
    SkillProficiency(Skill),
}

/// A prerequisite a character must meet before learning a feat.
#[derive(Debug)]
pub enum Prerequisite {
    MinimumAbility(Ability, AbilityScore),
}

/// Whether one effect grants proficiency in `skill`.
pub open spec fn effect_grants_skill(e: Effect, skill: Skill) -> bool {
    match e {
        Effect::SkillProficiency(s) => skill_eq(s, skill),
        _ => false,
    }
}

/// Whether the effect list grants proficiency in `skill`.
pub open spec fn contains_skill_effect(effects: Seq<Effect>, skill: Skill) -> bool {
    exists|i: int| 0 <= i < effects.len() && effect_grants_skill(#[trigger] effects[i], skill)
}

/// Whether the feat's effects grant proficiency in `skill`.
pub fn feat_grants_skill(feat: &Feat, skill: &Skill) -> (r: bool)
    ensures
        r == contains_skill_effect(feat.effects@, *skill),
{
    let n = feat.effects.len();
    let mut i: usize = 0;
    while i < n
        invariant
            n == feat.effects@.len(),
            0 <= i <= n,
            forall|j: int| 0 <= j < i ==> !effect_grants_skill(#[trigger] feat.effects@[j], *skill),
        decreases n - i,
    {
        match &feat.effects[i] {
            Effect::SkillProficiency(s) => {
                if s == skill {
                    return true;
                }
            },
            _ => {},
        }
        i += 1;
    }
    false
}

} // verus!
