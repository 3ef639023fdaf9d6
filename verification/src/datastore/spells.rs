//! Spells, spellcasting tiers, and the spell slot progression table.

use vstd::prelude::*;
use crate::character::RulesError;
use crate::lookup::Named;

verus! {

/// The spellcasting tier of a class.
#[derive(Clone, Copy, PartialEq, Eq, Structural, Debug)]
pub enum SpellCaster {
    NonCaster,
    Third,
    Half,
    Full,
}

#[derive(Clone, Copy, PartialEq, Eq, Structural, Debug)]
pub enum SpellLevel {
    Cantrip,
    First,
    Second,
    Third,
    Fourth,
    Fifth,
    Sixth,
    Seventh,
    Eighth,
    Ninth,
}

#[derive(Debug)]
pub enum SpellComponent {
    Verbal,
    Somatic,
    Material(String),
}

#[derive(Clone, Copy, PartialEq, Eq, Structural, Debug)]
pub enum SpellSchool {
    Abjuration,
    Conjuration,
    Divination,
    Enchantment,
    Evocation,
    Illusion,
    Necromancy,
    Transmutation,
}

/// How many slots of each spell level a caster has.
#[derive(Clone, Copy, PartialEq, Eq, Structural, Debug)]
pub struct SpellSlots {
    pub first: u8,
    pub second: u8,
    pub third: u8,
    pub fourth: u8,
    pub fifth: u8,
    pub sixth: u8,
    pub seventh: u8,
    pub eighth: u8,
    pub ninth: u8,
}

pub struct Spell {
    pub name: String,
    pub long_text: String,
    pub level: SpellLevel,
    pub school: SpellSchool,
    pub casting_time: String,
    pub components: Vec<SpellComponent>,
    pub duration: String,
}

impl Named for Spell {
    open spec fn key(&self) -> Seq<char> {
        self.name@
    }

    fn name_str(&self) -> (r: &str) {
        self.name.as_str()
    }
}

/// A slot table from nine per-level counts.
pub open spec fn spec_slots(
    first: u8,
    second: u8,
    third: u8,
    fourth: u8,
    fifth: u8,
    sixth: u8,
    seventh: u8,
    eighth: u8,
    ninth: u8,
) -> SpellSlots {
    SpellSlots { first, second, third, fourth, fifth, sixth, seventh, eighth, ninth }
}

/// The published progression for a full caster at a character level
/// in 1..=20.
pub open spec fn spec_full_caster_slots(level: int) -> SpellSlots {
    if level == 1 {
        spec_slots(2, 0, 0, 0, 0, 0, 0, 0, 0)
    } else if level == 2 {
        spec_slots(3, 0, 0, 0, 0, 0, 0, 0, 0)
    } else if level == 3 {
        spec_slots(4, 2, 0, 0, 0, 0, 0, 0, 0)
    } else if level == 4 {
        spec_slots(4, 3, 0, 0, 0, 0, 0, 0, 0)
    } else if level == 5 {
        spec_slots(4, 3, 2, 0, 0, 0, 0, 0, 0)
    } else if level == 6 {
        spec_slots(4, 3, 3, 0, 0, 0, 0, 0, 0)
    } else if level == 7 {
        spec_slots(4, 3, 3, 1, 0, 0, 0, 0, 0)
    } else if level == 8 {
        spec_slots(4, 3, 3, 2, 0, 0, 0, 0, 0)
    } else if level == 9 {
        spec_slots(4, 3, 3, 3, 1, 0, 0, 0, 0)
    } else if level == 10 {
        spec_slots(4, 3, 3, 3, 2, 0, 0, 0, 0)
    } else if level == 11 || level == 12 {
        spec_slots(4, 3, 3, 3, 2, 1, 0, 0, 0)
    } else if level == 13 || level == 14 {
        spec_slots(4, 3, 3, 3, 2, 1, 1, 0, 0)
    } else if level == 15 || level == 16 {
        spec_slots(4, 3, 3, 3, 2, 1, 1, 1, 0)
    } else if level == 17 {
        spec_slots(4, 3, 3, 3, 2, 1, 1, 1, 1)
    } else if level == 18 {
        spec_slots(4, 3, 3, 3, 3, 1, 1, 1, 1)
    } else if level == 19 {
        spec_slots(4, 3, 3, 3, 3, 2, 1, 1, 1)
    } else {
        spec_slots(4, 3, 3, 3, 3, 2, 2, 1, 1)
    }
}

/// The published progression for a half caster.
pub open spec fn spec_half_caster_slots(level: int) -> SpellSlots {
    if level == 1 {
        spec_slots(0, 0, 0, 0, 0, 0, 0, 0, 0)
    } else if level == 2 {
        spec_slots(2, 0, 0, 0, 0, 0, 0, 0, 0)
    } else if level == 3 || level == 4 {
        spec_slots(3, 0, 0, 0, 0, 0, 0, 0, 0)
    } else if level == 5 || level == 6 {
        spec_slots(4, 2, 0, 0, 0, 0, 0, 0, 0)
    } else if level == 7 || level == 8 {
        spec_slots(4, 3, 0, 0, 0, 0, 0, 0, 0)
    } else if level == 9 || level == 10 {
        spec_slots(4, 3, 2, 0, 0, 0, 0, 0, 0)
    } else if level == 11 || level == 12 {
        spec_slots(4, 3, 3, 0, 0, 0, 0, 0, 0)
    } else if level == 13 || level == 14 {
        spec_slots(4, 3, 3, 1, 0, 0, 0, 0, 0)
    } else if level == 15 || level == 16 {
        spec_slots(4, 3, 3, 2, 0, 0, 0, 0, 0)
    } else if level == 17 || level == 18 {
        spec_slots(4, 3, 3, 3, 1, 0, 0, 0, 0)
    } else {
        spec_slots(4, 3, 3, 3, 2, 0, 0, 0, 0)
    }
}

/// The published progression for a third caster.
pub open spec fn spec_third_caster_slots(level: int) -> SpellSlots {
    if level == 1 || level == 2 {
        spec_slots(0, 0, 0, 0, 0, 0, 0, 0, 0)
    } else if level == 3 {
        spec_slots(2, 0, 0, 0, 0, 0, 0, 0, 0)
    } else if level == 4 || level == 5 || level == 6 {
        spec_slots(3, 0, 0, 0, 0, 0, 0, 0, 0)
    } else if level == 7 || level == 8 || level == 9 {
        spec_slots(4, 2, 0, 0, 0, 0, 0, 0, 0)
    } else if level == 10 || level == 11 || level == 12 {
        spec_slots(4, 3, 0, 0, 0, 0, 0, 0, 0)
    } else if level == 13 || level == 14 || level == 15 {
        spec_slots(4, 3, 2, 0, 0, 0, 0, 0, 0)
    } else if level == 16 || level == 17 || level == 18 {
        spec_slots(4, 3, 3, 0, 0, 0, 0, 0, 0)
    } else {
        spec_slots(4, 3, 3, 1, 0, 0, 0, 0, 0)
    }
}

/// The slot table for a class of the given tier at the given character
/// level: a non-caster has no slots at any level, and any other tier is
/// defined for levels 1..=20 only.
pub open spec fn spec_slots_for_level(level: i8, caster: SpellCaster) -> Result<
    SpellSlots,
    RulesError,
> {
    match caster {
        SpellCaster::NonCaster => Ok(spec_slots(0, 0, 0, 0, 0, 0, 0, 0, 0)),
        _ => if 1 <= level <= 20 {
            match caster {
                SpellCaster::Full => Ok(spec_full_caster_slots(level as int)),
                SpellCaster::Half => Ok(spec_half_caster_slots(level as int)),
                _ => Ok(spec_third_caster_slots(level as int)),
            }
        } else {
            Err(RulesError::InvalidLevel)
        },
    }
}

impl SpellLevel {
    /// A slot table from nine per-level counts.
    pub fn slots(
        first: u8,
        second: u8,
        third: u8,
        fourth: u8,
        fifth: u8,
        sixth: u8,
        seventh: u8,
        eighth: u8,
        ninth: u8,
    ) -> (r: SpellSlots)
        ensures
            r == spec_slots(first, second, third, fourth, fifth, sixth, seventh, eighth, ninth),
    {
        SpellSlots { first, second, third, fourth, fifth, sixth, seventh, eighth, ninth }
    }

    /// The slot table for the given character level and spellcasting tier;
    /// levels outside 1..=20 are an error for any casting class.
    pub fn slots_for_level(level: &i8, caster: &SpellCaster) -> (r: Result<
        SpellSlots,
        RulesError,
    >)
        ensures
            r == spec_slots_for_level(*level, *caster),
    {
        match caster {
            SpellCaster::NonCaster => Ok(Self::slots(0, 0, 0, 0, 0, 0, 0, 0, 0)),
            _ => {
                if *level < 1 || *level > 20 {
                    return Err(RulesError::InvalidLevel);
                }
                let l = *level;
                match caster {
                    SpellCaster::Full => Ok(
                        if l == 1 {
                            Self::slots(2, 0, 0, 0, 0, 0, 0, 0, 0)
                        } else if l == 2 {
                            Self::slots(3, 0, 0, 0, 0, 0, 0, 0, 0)
                        } else if l == 3 {
                            Self::slots(4, 2, 0, 0, 0, 0, 0, 0, 0)
                        } else if l == 4 {
                            Self::slots(4, 3, 0, 0, 0, 0, 0, 0, 0)
                        } else if l == 5 {
                            Self::slots(4, 3, 2, 0, 0, 0, 0, 0, 0)
                        } else if l == 6 {
                            Self::slots(4, 3, 3, 0, 0, 0, 0, 0, 0)
                        } else if l == 7 {
                            Self::slots(4, 3, 3, 1, 0, 0, 0, 0, 0)
                        } else if l == 8 {
                            Self::slots(4, 3, 3, 2, 0, 0, 0, 0, 0)
                        } else if l == 9 {
                            Self::slots(4, 3, 3, 3, 1, 0, 0, 0, 0)
                        } else if l == 10 {
                            Self::slots(4, 3, 3, 3, 2, 0, 0, 0, 0)
                        } else if l == 11 || l == 12 {
                            Self::slots(4, 3, 3, 3, 2, 1, 0, 0, 0)
                        } else if l == 13 || l == 14 {
                            Self::slots(4, 3, 3, 3, 2, 1, 1, 0, 0)
                        } else if l == 15 || l == 16 {
                            Self::slots(4, 3, 3, 3, 2, 1, 1, 1, 0)
                        } else if l == 17 {
                            Self::slots(4, 3, 3, 3, 2, 1, 1, 1, 1)
                        } else if l == 18 {
                            Self::slots(4, 3, 3, 3, 3, 1, 1, 1, 1)
                        } else if l == 19 {
                            Self::slots(4, 3, 3, 3, 3, 2, 1, 1, 1)
                        } else {
                            Self::slots(4, 3, 3, 3, 3, 2, 2, 1, 1)
                        },
                    ),
                    SpellCaster::Half => Ok(
                        if l == 1 {
                            Self::slots(0, 0, 0, 0, 0, 0, 0, 0, 0)
                        } else if l == 2 {
                            Self::slots(2, 0, 0, 0, 0, 0, 0, 0, 0)
                        } else if l == 3 || l == 4 {
                            Self::slots(3, 0, 0, 0, 0, 0, 0, 0, 0)
                        } else if l == 5 || l == 6 {
                            Self::slots(4, 2, 0, 0, 0, 0, 0, 0, 0)
                        } else if l == 7 || l == 8 {
                            Self::slots(4, 3, 0, 0, 0, 0, 0, 0, 0)
                        } else if l == 9 || l == 10 {
                            Self::slots(4, 3, 2, 0, 0, 0, 0, 0, 0)
                        } else if l == 11 || l == 12 {
                            Self::slots(4, 3, 3, 0, 0, 0, 0, 0, 0)
                        } else if l == 13 || l == 14 {
                            Self::slots(4, 3, 3, 1, 0, 0, 0, 0, 0)
                        } else if l == 15 || l == 16 {
                            Self::slots(4, 3, 3, 2, 0, 0, 0, 0, 0)
                        } else if l == 17 || l == 18 {
                            Self::slots(4, 3, 3, 3, 1, 0, 0, 0, 0)
                        } else {
                            Self::slots(4, 3, 3, 3, 2, 0, 0, 0, 0)
                        },
                    ),
                    _ => Ok(
                        if l == 1 || l == 2 {
                            Self::slots(0, 0, 0, 0, 0, 0, 0, 0, 0)
                        } else if l == 3 {
                            Self::slots(2, 0, 0, 0, 0, 0, 0, 0, 0)
                        } else if l == 4 || l == 5 || l == 6 {
                            Self::slots(3, 0, 0, 0, 0, 0, 0, 0, 0)
                        } else if l == 7 || l == 8 || l == 9 {
                            Self::slots(4, 2, 0, 0, 0, 0, 0, 0, 0)
                        } else if l == 10 || l == 11 || l == 12 {
                            Self::slots(4, 3, 0, 0, 0, 0, 0, 0, 0)
                        } else if l == 13 || l == 14 || l == 15 {
                            Self::slots(4, 3, 2, 0, 0, 0, 0, 0, 0)
                        } else if l == 16 || l == 17 || l == 18 {
                            Self::slots(4, 3, 3, 0, 0, 0, 0, 0, 0)
                        } else {
                            Self::slots(4, 3, 3, 1, 0, 0, 0, 0, 0)
                        },
                    ),
                }
            },
        }
    }
}

} // verus!
