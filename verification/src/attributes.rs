//! The attribute model: six named ability scores and their derived modifiers.

use vstd::prelude::*;

verus! {

/// One of the six fixed ability names.
#[derive(Clone, Copy, PartialEq, Eq, Structural, Debug)]
pub enum AttributeName {
    Str,
    Dex,
    Con,
    Wis,
    Int,
    Cha,
}

pub type AttributeValue = i8;

/// The modifier belonging to an ability score: `(value - 10) / 2`, rounded
/// toward negative infinity (spec division is Euclidean, so `/ 2` floors).
pub open spec fn spec_modifier(value: i8) -> int {
    (value - 10) / 2
}

/// A table of additive attribute bonuses, one entry per ability.
/// A zero entry means the ability is left unchanged.
#[derive(Clone, Copy, PartialEq, Eq, Structural, Debug)]
pub struct AttributeArray {
    pub strength: i8,
    pub dexterity: i8,
    pub constitution: i8,
    pub wisdom: i8,
    pub intelligence: i8,
    pub charisma: i8,
}

impl AttributeArray {
    pub open spec fn spec_get(self, attr: AttributeName) -> i8 {
        match attr {
            AttributeName::Str => self.strength,
            AttributeName::Dex => self.dexterity,
            AttributeName::Con => self.constitution,
            AttributeName::Wis => self.wisdom,
            AttributeName::Int => self.intelligence,
            AttributeName::Cha => self.charisma,
        }
    }

    pub open spec fn spec_set(self, attr: AttributeName, value: i8) -> AttributeArray {
        match attr {
            AttributeName::Str => AttributeArray { strength: value, ..self },
            AttributeName::Dex => AttributeArray { dexterity: value, ..self },
            AttributeName::Con => AttributeArray { constitution: value, ..self },
            AttributeName::Wis => AttributeArray { wisdom: value, ..self },
            AttributeName::Int => AttributeArray { intelligence: value, ..self },
            AttributeName::Cha => AttributeArray { charisma: value, ..self },
        }
    }

    /// The empty bonus table: no ability is changed.
    pub fn zero() -> (r: AttributeArray)
        ensures
            forall|a: AttributeName| r.spec_get(a) == 0,
    {
        AttributeArray {
            strength: 0,
            dexterity: 0,
            constitution: 0,
            wisdom: 0,
            intelligence: 0,
            charisma: 0,
        }
    }

    pub fn get(&self, attr: AttributeName) -> (v: i8)
        ensures
            v == self.spec_get(attr),
    {
        match attr {
            AttributeName::Str => self.strength,
            AttributeName::Dex => self.dexterity,
            AttributeName::Con => self.constitution,
            AttributeName::Wis => self.wisdom,
            AttributeName::Int => self.intelligence,
            AttributeName::Cha => self.charisma,
        }
    }

    pub fn set(&mut self, attr: AttributeName, value: i8)
        ensures
            *final(self) == old(self).spec_set(attr, value),
    {
        match attr {
            AttributeName::Str => self.strength = value,
            AttributeName::Dex => self.dexterity = value,
            AttributeName::Con => self.constitution = value,
            AttributeName::Wis => self.wisdom = value,
            AttributeName::Int => self.intelligence = value,
            AttributeName::Cha => self.charisma = value,
        }
    }
}

/// An assignment of a score to every one of the six abilities.
/// Every character always has an entry for all six: no partial maps.
#[derive(Clone, Copy, PartialEq, Eq, Structural, Debug)]
pub struct Attributes {
    pub attributes: AttributeArray,
}

impl Attributes {
    pub open spec fn spec_get(self, attr: AttributeName) -> i8 {
        self.attributes.spec_get(attr)
    }

    /// Returns the average stats array with all zero modifiers.
    pub fn default() -> (r: Self)
        ensures
            forall|a: AttributeName| r.spec_get(a) == 10,
    {
        Attributes::new(10, 10, 10, 10, 10, 10)
    }

    /// Creates a new attribute array with the specified values.
    pub fn new(
        strength: AttributeValue,
        dexterity: AttributeValue,
        constitution: AttributeValue,
        wisdom: AttributeValue,
        intelligence: AttributeValue,
        charisma: AttributeValue,
    ) -> (r: Self)
        ensures
            r.spec_get(AttributeName::Str) == strength,
            r.spec_get(AttributeName::Dex) == dexterity,
            r.spec_get(AttributeName::Con) == constitution,
            r.spec_get(AttributeName::Wis) == wisdom,
            r.spec_get(AttributeName::Int) == intelligence,
            r.spec_get(AttributeName::Cha) == charisma,
    {
        Attributes {
            attributes: AttributeArray {
                strength,
                dexterity,
                constitution,
                wisdom,
                intelligence,
                charisma,
            },
        }
    }

    /// Returns the modifiers for these attributes.
    pub fn get_modifiers(&self) -> (r: Self)
        ensures
            forall|a: AttributeName| r.spec_get(a) as int == spec_modifier(self.spec_get(a)),
    {
        Attributes::new(
            Self::compute_mod(self.attributes.strength),
            Self::compute_mod(self.attributes.dexterity),
            Self::compute_mod(self.attributes.constitution),
            Self::compute_mod(self.attributes.wisdom),
            Self::compute_mod(self.attributes.intelligence),
            Self::compute_mod(self.attributes.charisma),
        )
    }

    /// Returns the value for the specified attribute.
    pub fn get(&self, attr: AttributeName) -> (v: AttributeValue)
        ensures
            v == self.spec_get(attr),
    {
        self.attributes.get(attr)
    }

    pub fn set(&mut self, attr: AttributeName, value: AttributeValue)
        ensures
            final(self).spec_get(attr) == value,
            forall|a: AttributeName| a != attr ==> final(self).spec_get(a) == old(self).spec_get(a),
    {
        self.attributes.set(attr, value);
    }

    /// Applies the specified bonuses to itself and returns the modified
    /// attribute array; entries are additive.
    pub fn apply_bonuses(&self, bonuses: &AttributeArray) -> (r: Attributes)
        requires
            forall|a: AttributeName|
                i8::MIN <= #[trigger] self.spec_get(a) + #[trigger] bonuses.spec_get(a) <= i8::MAX,
        ensures
            forall|a: AttributeName|
                #[trigger] r.spec_get(a) == self.spec_get(a) + bonuses.spec_get(a),
    {
        proof {
            assert(forall|a: AttributeName| #[trigger] self.spec_get(a) == self.attributes.spec_get(a));
            assert(self.spec_get(AttributeName::Str) + bonuses.spec_get(AttributeName::Str) <= i8::MAX);
            assert(self.spec_get(AttributeName::Dex) + bonuses.spec_get(AttributeName::Dex) <= i8::MAX);
            assert(self.spec_get(AttributeName::Con) + bonuses.spec_get(AttributeName::Con) <= i8::MAX);
            assert(self.spec_get(AttributeName::Wis) + bonuses.spec_get(AttributeName::Wis) <= i8::MAX);
            assert(self.spec_get(AttributeName::Int) + bonuses.spec_get(AttributeName::Int) <= i8::MAX);
            assert(self.spec_get(AttributeName::Cha) + bonuses.spec_get(AttributeName::Cha) <= i8::MAX);
        }
        Attributes::new(
            self.attributes.strength + bonuses.strength,
            self.attributes.dexterity + bonuses.dexterity,
            self.attributes.constitution + bonuses.constitution,
            self.attributes.wisdom + bonuses.wisdom,
            self.attributes.intelligence + bonuses.intelligence,
            self.attributes.charisma + bonuses.charisma,
        )
    }

    /// Computes the modifier for a given attribute value, rounding toward
    /// negative infinity also for values below 10 (plain integer division
    /// in executable code truncates toward zero instead).
    fn compute_mod(value: AttributeValue) -> (m: AttributeValue)
        ensures
            m as int == spec_modifier(value),
    {
        let double_mod: i16 = value as i16 - 10;
        let m: i16 = if double_mod > 0 {
            double_mod / 2
        } else {
            (double_mod - 1) / 2
        };
        m as i8
    }
}

} // verus!
