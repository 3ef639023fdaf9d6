//! Skills, proficiency levels and combat proficiencies.

use vstd::prelude::*;
use crate::datastore::ArmorCategory;
use crate::datastore::WeaponCategory;

verus! {

/// How proficient a character is in a skill.
#[derive(Clone, Copy, PartialEq, Eq, Structural, Debug)]
pub enum SkillLevel {
    Untrained,
    Proficient,
    Expert,
}

/// A combat proficiency: a specific weapon by name, a whole weapon
/// category, or an armor category.
#[derive(Debug)]
pub enum CombatProficiency {
    Weapon(String),
    WeaponCategory(WeaponCategory),
    ArmorCategory(ArmorCategory),
}

/// Two combat proficiencies denote the same grant: weapon names are
/// compared by their character sequences.
pub open spec fn prof_eq(a: CombatProficiency, b: CombatProficiency) -> bool {
    match (a, b) {
        (CombatProficiency::Weapon(x), CombatProficiency::Weapon(y)) => x@ == y@,
        (CombatProficiency::WeaponCategory(x), CombatProficiency::WeaponCategory(y)) => x == y,
        (CombatProficiency::ArmorCategory(x), CombatProficiency::ArmorCategory(y)) => x == y,
        _ => false,
    }
}

impl PartialEq for CombatProficiency {
    fn eq(&self, other: &Self) -> (r: bool) {
        match (self, other) {
            (CombatProficiency::Weapon(x), CombatProficiency::Weapon(y)) => *x == *y,
            (
                CombatProficiency::WeaponCategory(x),
                CombatProficiency::WeaponCategory(y),
            ) => *x == *y,
            (
                CombatProficiency::ArmorCategory(x),
                CombatProficiency::ArmorCategory(y),
            ) => *x == *y,
            _ => false,
        }
    }
}

impl vstd::std_specs::cmp::PartialEqSpecImpl for CombatProficiency {
    open spec fn obeys_eq_spec() -> bool {
        true
    }

    open spec fn eq_spec(&self, other: &Self) -> bool {
        prof_eq(*self, *other)
    }
}

impl Clone for CombatProficiency {
    /// An exact copy; needed because the verifier knows nothing about a
    /// derived clone of a type that owns a string.
    fn clone(&self) -> (r: Self)
        ensures
            r == *self,
    {
        match self {
            CombatProficiency::Weapon(x) => CombatProficiency::Weapon(x.clone()),
            CombatProficiency::WeaponCategory(x) => CombatProficiency::WeaponCategory(*x),
            CombatProficiency::ArmorCategory(x) => CombatProficiency::ArmorCategory(*x),
        }
    }
}

/// Membership of a combat proficiency in a grant list, up to `prof_eq`.
pub open spec fn contains_prof(s: Seq<CombatProficiency>, p: CombatProficiency) -> bool {
    exists|i: int| 0 <= i < s.len() && prof_eq(#[trigger] s[i], p)
}

/// Whether the grant list holds `p`.
pub fn prof_list_contains(v: &Vec<CombatProficiency>, p: &CombatProficiency) -> (r: bool)
    ensures
        r == contains_prof(v@, *p),
{
    let n = v.len();
    let mut i: usize = 0;
    while i < n
        invariant
            n == v@.len(),
            0 <= i <= n,
            forall|j: int| 0 <= j < i ==> !prof_eq(#[trigger] v@[j], *p),
        decreases n - i,
    {
        if v[i] == *p {
            return true;
        }
        i += 1;
    }
    false
}

/// A skill; a few are parametrized by the name of a tool, instrument or
/// vehicle.
#[derive(Debug)]
pub enum Skill {
    Athletics,
    Acrobatics,
    SleightOfHand,
    Stealth,
    Arcana,
    History,
    Investigation,
    Nature,
    Religion,
    AnimalHandling,
    Insight,
    Medicine,
    Perception,
    Survival,
    Deception,
    Intimidation,
    Performance,
    Persuasion,
    AlchemistTools,
    BrewerTools,
    CalligrapherTools,
    CarpenterTools,
    CartographerTools,
    CobblerTools,
    CookTools,
    GlassblowerTools,
    JewelerTools,
    LeatherworkerTools,
    MasonTools,
    PainterTools,
    PotterTools,
    SmithTools,
    TinkerTools,
    WeaverTools,
    WoodcarverTools,
    DisguiseTools,
    ForgeryTools,
    HerbalistTools,
    NavigatorTools,
    PoisonerTools,
    ThievesTools,
    GamingTools(String),
    MusicalInstrument(String),
    Vehicle(String),
}

/// Two skills are the same: parametrized skills are compared by the
/// character sequences of their parameter.
pub open spec fn skill_eq(a: Skill, b: Skill) -> bool {
    match (a, b) {
        (Skill::GamingTools(x), Skill::GamingTools(y)) => x@ == y@,
        (Skill::MusicalInstrument(x), Skill::MusicalInstrument(y)) => x@ == y@,
        (Skill::Vehicle(x), Skill::Vehicle(y)) => x@ == y@,
        _ => a == b,
    }
}

impl PartialEq for Skill {
    fn eq(&self, other: &Self) -> (r: bool) {
        match (self, other) {
            (Skill::Athletics, Skill::Athletics) => true,
            (Skill::Acrobatics, Skill::Acrobatics) => true,
            (Skill::SleightOfHand, Skill::SleightOfHand) => true,
            (Skill::Stealth, Skill::Stealth) => true,
            (Skill::Arcana, Skill::Arcana) => true,
            (Skill::History, Skill::History) => true,
            (Skill::Investigation, Skill::Investigation) => true,
            (Skill::Nature, Skill::Nature) => true,
            (Skill::Religion, Skill::Religion) => true,
            (Skill::AnimalHandling, Skill::AnimalHandling) => true,
            (Skill::Insight, Skill::Insight) => true,
            (Skill::Medicine, Skill::Medicine) => true,
            (Skill::Perception, Skill::Perception) => true,
            (Skill::Survival, Skill::Survival) => true,
            (Skill::Deception, Skill::Deception) => true,
            (Skill::Intimidation, Skill::Intimidation) => true,
            (Skill::Performance, Skill::Performance) => true,
            (Skill::Persuasion, Skill::Persuasion) => true,
            (Skill::AlchemistTools, Skill::AlchemistTools) => true,
            (Skill::BrewerTools, Skill::BrewerTools) => true,
            (Skill::CalligrapherTools, Skill::CalligrapherTools) => true,
            (Skill::CarpenterTools, Skill::CarpenterTools) => true,
            (Skill::CartographerTools, Skill::CartographerTools) => true,
            (Skill::CobblerTools, Skill::CobblerTools) => true,
            (Skill::CookTools, Skill::CookTools) => true,
            (Skill::GlassblowerTools, Skill::GlassblowerTools) => true,
            (Skill::JewelerTools, Skill::JewelerTools) => true,
            (Skill::LeatherworkerTools, Skill::LeatherworkerTools) => true,
            (Skill::MasonTools, Skill::MasonTools) => true,
            (Skill::PainterTools, Skill::PainterTools) => true,
            (Skill::PotterTools, Skill::PotterTools) => true,
            (Skill::SmithTools, Skill::SmithTools) => true,
            (Skill::TinkerTools, Skill::TinkerTools) => true,
            (Skill::WeaverTools, Skill::WeaverTools) => true,
            (Skill::WoodcarverTools, Skill::WoodcarverTools) => true,
            (Skill::DisguiseTools, Skill::DisguiseTools) => true,
            (Skill::ForgeryTools, Skill::ForgeryTools) => true,
            (Skill::HerbalistTools, Skill::HerbalistTools) => true,
            (Skill::NavigatorTools, Skill::NavigatorTools) => true,
            (Skill::PoisonerTools, Skill::PoisonerTools) => true,
            (Skill::ThievesTools, Skill::ThievesTools) => true,
            (Skill::GamingTools(x), Skill::GamingTools(y)) => *x == *y,
            (Skill::MusicalInstrument(x), Skill::MusicalInstrument(y)) => *x == *y,
            (Skill::Vehicle(x), Skill::Vehicle(y)) => *x == *y,
            _ => false,
        }
    }
}

impl vstd::std_specs::cmp::PartialEqSpecImpl for Skill {
    open spec fn obeys_eq_spec() -> bool {
        true
    }

    open spec fn eq_spec(&self, other: &Self) -> bool {
        skill_eq(*self, *other)
    }
}

impl Clone for Skill {
    /// An exact copy; needed because the verifier knows nothing about a
    /// derived clone of a type that owns a string.
    fn clone(&self) -> (r: Self)
        ensures
            r == *self,
    {
        match self {
            Skill::Athletics => Skill::Athletics,
            Skill::Acrobatics => Skill::Acrobatics,
            Skill::SleightOfHand => Skill::SleightOfHand,
            Skill::Stealth => Skill::Stealth,
            Skill::Arcana => Skill::Arcana,
            Skill::History => Skill::History,
            Skill::Investigation => Skill::Investigation,
            Skill::Nature => Skill::Nature,
            Skill::Religion => Skill::Religion,
            Skill::AnimalHandling => Skill::AnimalHandling,
            Skill::Insight => Skill::Insight,
            Skill::Medicine => Skill::Medicine,
            Skill::Perception => Skill::Perception,
            Skill::Survival => Skill::Survival,
            Skill::Deception => Skill::Deception,
            Skill::Intimidation => Skill::Intimidation,
            Skill::Performance => Skill::Performance,
            Skill::Persuasion => Skill::Persuasion,
            Skill::AlchemistTools => Skill::AlchemistTools,
            Skill::BrewerTools => Skill::BrewerTools,
            Skill::CalligrapherTools => Skill::CalligrapherTools,
            Skill::CarpenterTools => Skill::CarpenterTools,
            Skill::CartographerTools => Skill::CartographerTools,
            Skill::CobblerTools => Skill::CobblerTools,
            Skill::CookTools => Skill::CookTools,
            Skill::GlassblowerTools => Skill::GlassblowerTools,
            Skill::JewelerTools => Skill::JewelerTools,
            Skill::LeatherworkerTools => Skill::LeatherworkerTools,
            Skill::MasonTools => Skill::MasonTools,
            Skill::PainterTools => Skill::PainterTools,
            Skill::PotterTools => Skill::PotterTools,
            Skill::SmithTools => Skill::SmithTools,
            Skill::TinkerTools => Skill::TinkerTools,
            Skill::WeaverTools => Skill::WeaverTools,
            Skill::WoodcarverTools => Skill::WoodcarverTools,
            Skill::DisguiseTools => Skill::DisguiseTools,
            Skill::ForgeryTools => Skill::ForgeryTools,
            Skill::HerbalistTools => Skill::HerbalistTools,
            Skill::NavigatorTools => Skill::NavigatorTools,
            Skill::PoisonerTools => Skill::PoisonerTools,
            Skill::ThievesTools => Skill::ThievesTools,
            Skill::GamingTools(x) => Skill::GamingTools(x.clone()),
            Skill::MusicalInstrument(x) => Skill::MusicalInstrument(x.clone()),
            Skill::Vehicle(x) => Skill::Vehicle(x.clone()),
        }
    }
}

/// Membership of a skill in a grant list, up to `skill_eq`.
pub open spec fn contains_skill(s: Seq<Skill>, skill: Skill) -> bool {
    exists|i: int| 0 <= i < s.len() && skill_eq(#[trigger] s[i], skill)
}

/// Skill sameness is transitive.
pub proof fn lemma_skill_eq_trans(a: Skill, b: Skill, c: Skill)
    requires
        skill_eq(a, b),
        skill_eq(b, c),
    ensures
        skill_eq(a, c),
{
}

/// A skill map lookup cannot tell two skills apart that are the same
/// under `skill_eq`.
pub proof fn lemma_find_skill_respects_eq(s: Seq<(Skill, SkillLevel)>, k1: Skill, k2: Skill)
    requires
        skill_eq(k1, k2),
    ensures
        find_skill_entry(s, k1) == find_skill_entry(s, k2),
    decreases s.len(),
{
    if s.len() > 0 {
        lemma_find_skill_respects_eq(s.drop_first(), k1, k2);
    }
}

/// Extending a prefix of a skill grant list by one entry extends the
/// granted skills by exactly that entry.
pub proof fn lemma_contains_skill_take_extend(s: Seq<Skill>, i: int)
    requires
        0 <= i < s.len(),
    ensures
        forall|k: Skill|
            contains_skill(#[trigger] s.take(i + 1), k) <==> contains_skill(s.take(i), k)
                || skill_eq(s[i], k),
{
    assert(s.take(i + 1) =~= s.take(i).push(s[i]));
    assert forall|k: Skill|
        contains_skill(#[trigger] s.take(i + 1), k) <==> contains_skill(s.take(i), k) || skill_eq(
            s[i],
            k,
        ) by {
        let t = s.take(i + 1);
        let t0 = s.take(i);
        if contains_skill(t, k) {
            let j = choose|j: int| 0 <= j < t.len() && skill_eq(#[trigger] t[j], k);
            if j < i {
                assert(skill_eq(t0[j], k));
            }
        }
        if contains_skill(t0, k) {
            let j = choose|j: int| 0 <= j < t0.len() && skill_eq(#[trigger] t0[j], k);
            assert(skill_eq(t[j], k));
        }
        if skill_eq(s[i], k) {
            assert(skill_eq(t[i], k));
        }
    }
}

/// Whether the grant list holds `skill`.
pub fn skill_list_contains(v: &Vec<Skill>, skill: &Skill) -> (r: bool)
    ensures
        r == contains_skill(v@, *skill),
{
    let n = v.len();
    let mut i: usize = 0;
    while i < n
        invariant
            n == v@.len(),
            0 <= i <= n,
            forall|j: int| 0 <= j < i ==> !skill_eq(#[trigger] v@[j], *skill),
        decreases n - i,
    {
        if v[i] == *skill {
            return true;
        }
        i += 1;
    }
    false
}


/// The character's own skill map: the level stored under the first entry
/// for the skill, if any.
pub open spec fn find_skill_entry(s: Seq<(Skill, SkillLevel)>, skill: Skill) -> Option<SkillLevel>
    decreases s.len(),
{
    if s.len() <= 0 {
        None
    } else if skill_eq(s[0].0, skill) {
        Some(s[0].1)
    } else {
        find_skill_entry(s.drop_first(), skill)
    }
}

/// A skill map lookup skips over a prefix of entries for other skills.
pub proof fn lemma_find_skill_skip(s: Seq<(Skill, SkillLevel)>, skill: Skill, i: int)
    requires
        0 <= i <= s.len(),
        forall|j: int| 0 <= j < i ==> !skill_eq((#[trigger] s[j]).0, skill),
    ensures
        find_skill_entry(s, skill) == find_skill_entry(s.skip(i), skill),
    decreases i,
{
    if i > 0 {
        assert(s.drop_first() =~= s.skip(1));
        lemma_find_skill_skip(s.drop_first(), skill, i - 1);
        assert(s.drop_first().skip(i - 1) =~= s.skip(i));
    } else {
        assert(s.skip(0) =~= s);
    }
}

/// Replacing the first entry for a skill changes lookups for that skill
/// alone.
pub proof fn lemma_find_skill_update(
    s: Seq<(Skill, SkillLevel)>,
    i: int,
    x: (Skill, SkillLevel),
    k: Skill,
)
    requires
        0 <= i < s.len(),
        forall|j: int| 0 <= j < i ==> !skill_eq((#[trigger] s[j]).0, x.0),
        skill_eq(s[i].0, x.0),
    ensures
        find_skill_entry(s.update(i, x), k) == if skill_eq(x.0, k) {
            Some(x.1)
        } else {
            find_skill_entry(s, k)
        },
    decreases i,
{
    let t = s.update(i, x);
    if i == 0 {
        assert(t[0] == x);
        if !skill_eq(x.0, k) {
            assert(t.drop_first() =~= s.drop_first());
        }
    } else {
        assert(t[0] == s[0]);
        assert(t.drop_first() =~= s.drop_first().update(i - 1, x));
        lemma_find_skill_update(s.drop_first(), i - 1, x, k);
    }
}

/// Appending an entry for a fresh skill changes lookups for that skill
/// alone.
pub proof fn lemma_find_skill_push(s: Seq<(Skill, SkillLevel)>, x: (Skill, SkillLevel), k: Skill)
    requires
        forall|j: int| 0 <= j < s.len() ==> !skill_eq((#[trigger] s[j]).0, x.0),
    ensures
        find_skill_entry(s.push(x), k) == if skill_eq(x.0, k) {
            Some(x.1)
        } else {
            find_skill_entry(s, k)
        },
    decreases s.len(),
{
    let t = s.push(x);
    if s.len() == 0 {
        assert(t[0] == x);
        if !skill_eq(x.0, k) {
            assert(t.drop_first() =~= Seq::<(Skill, SkillLevel)>::empty());
            assert(find_skill_entry(Seq::<(Skill, SkillLevel)>::empty(), k) is None);
        }
    } else {
        assert(t[0] == s[0]);
        assert(t.drop_first() =~= s.drop_first().push(x));
        lemma_find_skill_push(s.drop_first(), x, k);
    }
}

/// The level stored in the skill map for `skill`, if any.
pub fn skill_map_get(v: &Vec<(Skill, SkillLevel)>, skill: &Skill) -> (r: Option<SkillLevel>)
    ensures
        r == find_skill_entry(v@, *skill),
{
    let n = v.len();
    let mut i: usize = 0;
    while i < n
        invariant
            n == v@.len(),
            0 <= i <= n,
            forall|j: int| 0 <= j < i ==> !skill_eq((#[trigger] v@[j]).0, *skill),
        decreases n - i,
    {
        if v[i].0 == *skill {
            proof {
                lemma_find_skill_skip(v@, *skill, i as int);
                assert(v@.skip(i as int)[0] == v@[i as int]);
            }
            return Some(v[i].1);
        }
        i += 1;
    }
    proof {
        lemma_find_skill_skip(v@, *skill, n as int);
        assert(v@.skip(n as int) =~= Seq::<(Skill, SkillLevel)>::empty());
    }
    None
}

/// Stores a level for a skill, replacing any earlier entry for it:
/// afterwards that skill maps to the level and every other skill maps to
/// what it mapped to before.
pub fn skill_map_set(v: &mut Vec<(Skill, SkillLevel)>, skill: Skill, level: SkillLevel)
    ensures
        forall|k: Skill|
            #[trigger] find_skill_entry(final(v)@, k) == if skill_eq(skill, k) {
                Some(level)
            } else {
                find_skill_entry(old(v)@, k)
            },
{
    let n = v.len();
    let mut i: usize = 0;
    while i < n
        invariant
            n == v@.len(),
            0 <= i <= n,
            v@ == old(v)@,
            forall|j: int| 0 <= j < i ==> !skill_eq((#[trigger] v@[j]).0, skill),
        decreases n - i,
    {
        if v[i].0 == skill {
            let ghost s = v@;
            v[i] = (skill, level);
            proof {
                assert(v@ == s.update(i as int, (skill, level)));
                assert forall|k: Skill|
                    #[trigger] find_skill_entry(v@, k) == if skill_eq(skill, k) {
                        Some(level)
                    } else {
                        find_skill_entry(s, k)
                    } by {
                    lemma_find_skill_update(s, i as int, (skill, level), k);
                }
            }
            return ;
        }
        i += 1;
    }
    let ghost s = v@;
    v.push((skill, level));
    proof {
        assert forall|k: Skill|
            #[trigger] find_skill_entry(v@, k) == if skill_eq(skill, k) {
                Some(level)
            } else {
                find_skill_entry(s, k)
            } by {
            lemma_find_skill_push(s, (skill, level), k);
        }
    }
}

} // verus!
