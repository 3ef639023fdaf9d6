//! The builder's attribute model: six named values and the derived
//! modifier.

use vstd::prelude::*;
use crate::attributes::spec_modifier;

verus! {

#[derive(Clone, Copy, PartialEq, Eq, Structural, Debug)]
pub enum Attribute {
    Str,
    Dex,
    Con,
    Wis,
    Int,
    Cha,
}

// Modifiers aren't ever large, but they are definitely signed.
pub type Value = i8;

/// A total assignment of a value to every attribute; doubles as a table
/// of additive bonuses where zero means "unchanged".
#[derive(Clone, Copy, PartialEq, Eq, Structural, Debug)]
pub struct Array {
    pub strength: i8,
    pub dexterity: i8,
    pub constitution: i8,
    pub wisdom: i8,
    pub intelligence: i8,
    pub charisma: i8,
}

impl Array {
    pub open spec fn spec_get(self, attr: Attribute) -> i8 {
        match attr {
            Attribute::Str => self.strength,
            Attribute::Dex => self.dexterity,
            Attribute::Con => self.constitution,
            Attribute::Wis => self.wisdom,
            Attribute::Int => self.intelligence,
            Attribute::Cha => self.charisma,
        }
    }

    pub open spec fn spec_set(self, attr: Attribute, value: i8) -> Array {
        match attr {
            Attribute::Str => Array { strength: value, ..self },
            Attribute::Dex => Array { dexterity: value, ..self },
            Attribute::Con => Array { constitution: value, ..self },
            Attribute::Wis => Array { wisdom: value, ..self },
            Attribute::Int => Array { intelligence: value, ..self },
            Attribute::Cha => Array { charisma: value, ..self },
        }
    }

    /// The empty bonus table.
    pub fn zero() -> (r: Array)
        ensures
            r == spec_zero_values(),
    {
        Array {
            strength: 0,
            dexterity: 0,
            constitution: 0,
            wisdom: 0,
            intelligence: 0,
            charisma: 0,
        }
    }

    pub fn get(&self, attr: Attribute) -> (v: Value)
        ensures
            v == self.spec_get(attr),
    {
        match attr {
            Attribute::Str => self.strength,
            Attribute::Dex => self.dexterity,
            Attribute::Con => self.constitution,
            Attribute::Wis => self.wisdom,
            Attribute::Int => self.intelligence,
            Attribute::Cha => self.charisma,
        }
    }

    pub fn set(&mut self, attr: Attribute, value: Value)
        ensures
            *final(self) == old(self).spec_set(attr, value),
    {
        match attr {
            Attribute::Str => self.strength = value,
            Attribute::Dex => self.dexterity = value,
            Attribute::Con => self.constitution = value,
            Attribute::Wis => self.wisdom = value,
            Attribute::Int => self.intelligence = value,
            Attribute::Cha => self.charisma = value,
        }
    }
}

/// The empty bonus table as a specification value.
pub open spec fn spec_zero_values() -> Array {
    Array { strength: 0, dexterity: 0, constitution: 0, wisdom: 0, intelligence: 0, charisma: 0 }
}

impl Attribute {
    /// The six attributes in their fixed order.
    pub fn into_iter() -> (r: Vec<Attribute>)
        ensures
            r@ == seq![
                Attribute::Str,
                Attribute::Dex,
                Attribute::Con,
                Attribute::Wis,
                Attribute::Int,
                Attribute::Cha,
            ],
    {
        let mut v: Vec<Attribute> = Vec::new();
        v.push(Attribute::Str);
        v.push(Attribute::Dex);
        v.push(Attribute::Con);
        v.push(Attribute::Wis);
        v.push(Attribute::Int);
        v.push(Attribute::Cha);
        proof {
            assert(v@ =~= seq![
                Attribute::Str,
                Attribute::Dex,
                Attribute::Con,
                Attribute::Wis,
                Attribute::Int,
                Attribute::Cha,
            ]);
        }
        v
    }

    /// Every attribute at the default value of ten.
    pub fn array_of_ten() -> (r: Array)
        ensures
            forall|a: Attribute| r.spec_get(a) == 10,
    {
        Array {
            strength: 10,
            dexterity: 10,
            constitution: 10,
            wisdom: 10,
            intelligence: 10,
            charisma: 10,
        }
    }

    /// Computes the modifier for a given attribute value: `(value - 10)/2`
    /// rounded toward negative infinity, also for values below ten.
    pub fn modifier(value: Value) -> (m: i8)
        ensures
            m as int == spec_modifier(value),
    {
        let double_mod: i16 = value as i16 - 10;
        let m: i16 = if double_mod > 0 {
            double_mod / 2
        } else {
            (double_mod - 1) / 2
        };
        m as i8
    }
}

/// Whether a mathematical integer is representable as an attribute value.
pub open spec fn attr_fits(x: int) -> bool {
    i8::MIN <= x <= i8::MAX
}

/// The values with a bonus table added field by field.
pub open spec fn spec_add_array(a: Array, b: Array) -> Array {
    Array {
        strength: (a.strength + b.strength) as i8,
        dexterity: (a.dexterity + b.dexterity) as i8,
        constitution: (a.constitution + b.constitution) as i8,
        wisdom: (a.wisdom + b.wisdom) as i8,
        intelligence: (a.intelligence + b.intelligence) as i8,
        charisma: (a.charisma + b.charisma) as i8,
    }
}

/// The values with a bonus table subtracted field by field.
pub open spec fn spec_sub_array(a: Array, b: Array) -> Array {
    Array {
        strength: (a.strength - b.strength) as i8,
        dexterity: (a.dexterity - b.dexterity) as i8,
        constitution: (a.constitution - b.constitution) as i8,
        wisdom: (a.wisdom - b.wisdom) as i8,
        intelligence: (a.intelligence - b.intelligence) as i8,
        charisma: (a.charisma - b.charisma) as i8,
    }
}

/// Every value stays representable when the bonuses are added.
pub open spec fn array_add_fits(a: Array, b: Array) -> bool {
    forall|x: Attribute| attr_fits(#[trigger] a.spec_get(x) + #[trigger] b.spec_get(x))
}

/// Every value stays representable when the bonuses are subtracted.
pub open spec fn array_sub_fits(a: Array, b: Array) -> bool {
    forall|x: Attribute| attr_fits(#[trigger] a.spec_get(x) - #[trigger] b.spec_get(x))
}

/// When the sums fit, adding a bonus table is exact arithmetic.
pub proof fn lemma_add_array(a: Array, b: Array)
    requires
        array_add_fits(a, b),
    ensures
        forall|x: Attribute|
            #[trigger] spec_add_array(a, b).spec_get(x) == a.spec_get(x) + b.spec_get(x),
{
    assert forall|x: Attribute|
        #[trigger] spec_add_array(a, b).spec_get(x) == a.spec_get(x) + b.spec_get(x) by {
        assert(attr_fits(a.spec_get(x) + b.spec_get(x)));
    }
}

/// When the differences fit, subtracting a bonus table is exact
/// arithmetic.
pub proof fn lemma_sub_array(a: Array, b: Array)
    requires
        array_sub_fits(a, b),
    ensures
        forall|x: Attribute|
            #[trigger] spec_sub_array(a, b).spec_get(x) == a.spec_get(x) - b.spec_get(x),
{
    assert forall|x: Attribute|
        #[trigger] spec_sub_array(a, b).spec_get(x) == a.spec_get(x) - b.spec_get(x) by {
        assert(attr_fits(a.spec_get(x) - b.spec_get(x)));
    }
}

/// Adds a bonus table to the values.
pub fn add_array(a: &mut Array, b: &Array)
    requires
        array_add_fits(*old(a), *b),
    ensures
        *final(a) == spec_add_array(*old(a), *b),
{
    proof {
        assert(attr_fits(a.spec_get(Attribute::Str) + b.spec_get(Attribute::Str)));
        assert(attr_fits(a.spec_get(Attribute::Dex) + b.spec_get(Attribute::Dex)));
        assert(attr_fits(a.spec_get(Attribute::Con) + b.spec_get(Attribute::Con)));
        assert(attr_fits(a.spec_get(Attribute::Wis) + b.spec_get(Attribute::Wis)));
        assert(attr_fits(a.spec_get(Attribute::Int) + b.spec_get(Attribute::Int)));
        assert(attr_fits(a.spec_get(Attribute::Cha) + b.spec_get(Attribute::Cha)));
    }
    a.strength = a.strength + b.strength;
    a.dexterity = a.dexterity + b.dexterity;
    a.constitution = a.constitution + b.constitution;
    a.wisdom = a.wisdom + b.wisdom;
    a.intelligence = a.intelligence + b.intelligence;
    a.charisma = a.charisma + b.charisma;
}

/// Subtracts a bonus table from the values.
pub fn sub_array(a: &mut Array, b: &Array)
    requires
        array_sub_fits(*old(a), *b),
    ensures
        *final(a) == spec_sub_array(*old(a), *b),
{
    proof {
        assert(attr_fits(a.spec_get(Attribute::Str) - b.spec_get(Attribute::Str)));
        assert(attr_fits(a.spec_get(Attribute::Dex) - b.spec_get(Attribute::Dex)));
        assert(attr_fits(a.spec_get(Attribute::Con) - b.spec_get(Attribute::Con)));
        assert(attr_fits(a.spec_get(Attribute::Wis) - b.spec_get(Attribute::Wis)));
        assert(attr_fits(a.spec_get(Attribute::Int) - b.spec_get(Attribute::Int)));
        assert(attr_fits(a.spec_get(Attribute::Cha) - b.spec_get(Attribute::Cha)));
    }
    a.strength = a.strength - b.strength;
    a.dexterity = a.dexterity - b.dexterity;
    a.constitution = a.constitution - b.constitution;
    a.wisdom = a.wisdom - b.wisdom;
    a.intelligence = a.intelligence - b.intelligence;
    a.charisma = a.charisma - b.charisma;
}

} // verus!
