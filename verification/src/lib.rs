//! Rules engine for a tabletop role-playing character sheet.
//!
//! A character owns six base ability scores, a level and a set of chosen
//! options (race, subrace, class, feats, skills, spells, proficiencies).
//! Named providers such as races and classes are immutable bundles of
//! bonuses held in a datastore; the character applies and reverses their
//! effects through a strict set/unset protocol, and every derived value
//! (modifiers, saving throws, attack bonuses, spell slots) is computed
//! from the resulting state.

pub mod attributes;
pub mod character;
pub mod character_builder;
pub mod data_store;
pub mod datastore;
pub mod lookup;
pub mod weapons;
