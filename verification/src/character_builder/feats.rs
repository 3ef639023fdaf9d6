//! Feats as the builder records them: tagged ability-increase effects the
//! engine can apply and reverse, instead of opaque effect closures that
//! would each need a hand-written inverse.

use vstd::prelude::*;
use crate::character_builder::character::attributes::Array;
use crate::character_builder::character::attributes::Attribute;
use crate::character_builder::character::attributes::Value;
use crate::lookup::Named;

verus! {

/// A feat with no mechanical effect: pure flavor.
pub struct NonMechanicalFeat {
    pub name: String,
    pub long_text: String,
}

/// A feat whose effect is a list of attribute increases, applied when the
/// feat is gained and subtracted again when it is removed.
pub struct MechanicalFeat {
    pub name: String,
    pub long_text: String,
    pub effects: Vec<(Attribute, Value)>,
}

pub enum Feat {
    NonMechanical(NonMechanicalFeat),
    Mechanical(MechanicalFeat),
}

impl Feat {
    /// The attribute increases the feat grants.
    pub open spec fn spec_effects(self) -> Seq<(Attribute, Value)> {
        match self {
            Feat::NonMechanical(_) => Seq::empty(),
            Feat::Mechanical(m) => m.effects@,
        }
    }

    pub fn name(&self) -> (r: &str)
        ensures
            r@ == self.key(),
    {
        match self {
            Feat::NonMechanical(f) => f.name.as_str(),
            Feat::Mechanical(f) => f.name.as_str(),
        }
    }
}

impl Named for Feat {
    open spec fn key(&self) -> Seq<char> {
        match *self {
            Feat::NonMechanical(f) => f.name@,
            Feat::Mechanical(f) => f.name@,
        }
    }

    fn name_str(&self) -> (r: &str) {
        match self {
            Feat::NonMechanical(f) => f.name.as_str(),
            Feat::Mechanical(f) => f.name.as_str(),
        }
    }
}

/// Whether a mathematical integer is representable as an attribute value.
pub open spec fn value_fits(x: int) -> bool {
    i8::MIN <= x <= i8::MAX
}

/// A list of attribute increases applied in order, each truncated to the
/// value range (the executable code only ever applies them when they fit).
pub open spec fn spec_apply_increases(a: Array, e: Seq<(Attribute, Value)>) -> Array
    decreases e.len(),
{
    if e.len() <= 0 {
        a
    } else {
        spec_apply_increases(
            a.spec_set(e[0].0, (a.spec_get(e[0].0) + e[0].1) as i8),
            e.drop_first(),
        )
    }
}

/// A list of attribute increases reversed, subtracting in the same order.
pub open spec fn spec_unapply_increases(a: Array, e: Seq<(Attribute, Value)>) -> Array
    decreases e.len(),
{
    if e.len() <= 0 {
        a
    } else {
        spec_unapply_increases(
            a.spec_set(e[0].0, (a.spec_get(e[0].0) - e[0].1) as i8),
            e.drop_first(),
        )
    }
}

/// Every intermediate value stays representable while the increases are
/// applied.
pub open spec fn increases_fit(a: Array, e: Seq<(Attribute, Value)>) -> bool
    decreases e.len(),
{
    if e.len() <= 0 {
        true
    } else {
        value_fits(a.spec_get(e[0].0) + e[0].1) && increases_fit(
            a.spec_set(e[0].0, (a.spec_get(e[0].0) + e[0].1) as i8),
            e.drop_first(),
        )
    }
}

/// Every intermediate value stays representable while the increases are
/// reversed.
pub open spec fn increases_reverse_fit(a: Array, e: Seq<(Attribute, Value)>) -> bool
    decreases e.len(),
{
    if e.len() <= 0 {
        true
    } else {
        value_fits(a.spec_get(e[0].0) - e[0].1) && increases_reverse_fit(
            a.spec_set(e[0].0, (a.spec_get(e[0].0) - e[0].1) as i8),
            e.drop_first(),
        )
    }
}

/// Applies a feat's attribute increases.
pub fn apply_increases(a: &mut Array, e: &Vec<(Attribute, Value)>)
    requires
        increases_fit(*old(a), e@),
    ensures
        *final(a) == spec_apply_increases(*old(a), e@),
{
    let ghost e0 = e@;
    let ghost a0 = *a;
    proof {
        assert(e0.skip(0) =~= e0);
    }
    let n = e.len();
    let mut i: usize = 0;
    while i < n
        invariant
            n == e@.len(),
            e@ == e0,
            0 <= i <= n,
            spec_apply_increases(a0, e0) == spec_apply_increases(*a, e0.skip(i as int)),
            increases_fit(*a, e0.skip(i as int)),
        decreases n - i,
    {
        proof {
            assert(e0.skip(i as int)[0] == e0[i as int]);
            assert(e0.skip(i as int).drop_first() =~= e0.skip(i as int + 1));
        }
        let v = a.get(e[i].0);
        a.set(e[i].0, v + e[i].1);
        i += 1;
    }
    proof {
        assert(e0.skip(n as int) =~= Seq::<(Attribute, Value)>::empty());
    }
}

/// Reverses a feat's attribute increases.
pub fn reverse_increases(a: &mut Array, e: &Vec<(Attribute, Value)>)
    requires
        increases_reverse_fit(*old(a), e@),
    ensures
        *final(a) == spec_unapply_increases(*old(a), e@),
{
    let ghost e0 = e@;
    let ghost a0 = *a;
    proof {
        assert(e0.skip(0) =~= e0);
    }
    let n = e.len();
    let mut i: usize = 0;
    while i < n
        invariant
            n == e@.len(),
            e@ == e0,
            0 <= i <= n,
            spec_unapply_increases(a0, e0) == spec_unapply_increases(*a, e0.skip(i as int)),
            increases_reverse_fit(*a, e0.skip(i as int)),
        decreases n - i,
    {
        proof {
            assert(e0.skip(i as int)[0] == e0[i as int]);
            assert(e0.skip(i as int).drop_first() =~= e0.skip(i as int + 1));
        }
        let v = a.get(e[i].0);
        a.set(e[i].0, v - e[i].1);
        i += 1;
    }
    proof {
        assert(e0.skip(n as int) =~= Seq::<(Attribute, Value)>::empty());
    }
}

} // verus!
