//! The character aggregate and the resolution engine: applying and
//! reversing provider effects, and computing every derived value.

use vstd::prelude::*;
use crate::attributes::spec_modifier;
use crate::datastore::AbilityArray;
use crate::datastore::Armor;
use crate::datastore::CombatProficiency;
use crate::datastore::Datastore;
use crate::datastore::Class;
use crate::datastore::Race;
use crate::datastore::Skill;
use crate::datastore::SkillLevel;
use crate::datastore::Spell;
use crate::datastore::SpellLevel;
use crate::datastore::SpellSlots;
use crate::datastore::Weapon;
use crate::datastore::WeaponRange;
use crate::datastore::contains_skill;
use crate::datastore::skill_eq;
use crate::datastore::skill_list_contains;
use crate::datastore::spec_slots;
use crate::datastore::spec_slots_for_level;
use crate::datastore::find_skill_entry;
use crate::datastore::skill_map_get;
use crate::datastore::skill_map_set;
use crate::datastore::contains_skill_effect;
use crate::datastore::feat_grants_skill;
use crate::datastore::FeatEffect;
use crate::datastore::spec_zero_array;
use crate::datastore::FeatPrerequisite;
use crate::datastore::Feat;
use crate::datastore::Subrace;
use crate::lookup::contains_string;
use crate::datastore::contains_prof;
use crate::datastore::prof_eq;
use crate::datastore::prof_list_contains;
use crate::lookup::contains_name;
use crate::lookup::insert_string;
use crate::lookup::remove_string;
use crate::lookup::str_eq;
use crate::lookup::unique_names;

verus! {

#[derive(Clone, Copy, PartialEq, Eq, Structural, Debug)]
pub enum Ability {
    Str,
    Dex,
    Con,
    Wis,
    Int,
    Cha,
}

#[derive(Clone, Copy, PartialEq, Eq, Structural, Debug)]
pub enum Die {
    D4,
    D6,
    D8,
    D10,
    D12,
    D20,
}

#[derive(Clone, Copy, PartialEq, Eq, Structural, Debug)]
pub enum Size {
    Tiny,
    Small,
    Medium,
    Large,
    Huge,
    Gargantuan,
}

// Not unsigned: curses and penalties make negative scores legal.
pub type AbilityScore = i8;

pub type Modifier = i8;

pub type Level = i8;

// Speeds larger than 255 are theoretically possible, so no u8 here.
pub type Speed = u16;

/// Why an engine operation was refused. Every failing operation leaves the
/// character exactly as it was.
#[derive(Clone, Copy, PartialEq, Eq, Structural, Debug)]
pub enum RulesError {
    /// A referenced name does not exist in the datastore.
    NotFound,
    /// A structural rule was broken: a subrace without a race, a feat
    /// prerequisite not met, a feat unlearned that was never learned.
    PreconditionViolated,
    /// A spell slot lookup outside the supported level range.
    InvalidLevel,
}

/// The six ability scores of a character; every ability always has an
/// entry.
#[derive(Clone, Copy, PartialEq, Eq, Structural, Debug)]
pub struct Abilities {
    pub strength: i8,
    pub dexterity: i8,
    pub constitution: i8,
    pub wisdom: i8,
    pub intelligence: i8,
    pub charisma: i8,
}

impl Abilities {
    pub open spec fn spec_get(self, ability: Ability) -> i8 {
        match ability {
            Ability::Str => self.strength,
            Ability::Dex => self.dexterity,
            Ability::Con => self.constitution,
            Ability::Wis => self.wisdom,
            Ability::Int => self.intelligence,
            Ability::Cha => self.charisma,
        }
    }

    pub open spec fn spec_set(self, ability: Ability, value: i8) -> Abilities {
        match ability {
            Ability::Str => Abilities { strength: value, ..self },
            Ability::Dex => Abilities { dexterity: value, ..self },
            Ability::Con => Abilities { constitution: value, ..self },
            Ability::Wis => Abilities { wisdom: value, ..self },
            Ability::Int => Abilities { intelligence: value, ..self },
            Ability::Cha => Abilities { charisma: value, ..self },
        }
    }

    /// All six scores at the default of 10.
    pub fn new() -> (r: Self)
        ensures
            forall|a: Ability| r.spec_get(a) == 10,
    {
        Abilities {
            strength: 10,
            dexterity: 10,
            constitution: 10,
            wisdom: 10,
            intelligence: 10,
            charisma: 10,
        }
    }

    pub fn get(&self, ability: &Ability) -> (r: &AbilityScore)
        ensures
            *r == self.spec_get(*ability),
    {
        match ability {
            Ability::Str => &self.strength,
            Ability::Dex => &self.dexterity,
            Ability::Con => &self.constitution,
            Ability::Wis => &self.wisdom,
            Ability::Int => &self.intelligence,
            Ability::Cha => &self.charisma,
        }
    }

    pub fn get_mut(&mut self, ability: &Ability) -> (r: &mut AbilityScore)
        ensures
            *r == old(self).spec_get(*ability),
            *final(self) == old(self).spec_set(*ability, *final(r)),
    {
        match ability {
            Ability::Str => &mut self.strength,
            Ability::Dex => &mut self.dexterity,
            Ability::Con => &mut self.constitution,
            Ability::Wis => &mut self.wisdom,
            Ability::Int => &mut self.intelligence,
            Ability::Cha => &mut self.charisma,
        }
    }

    pub fn set(&mut self, ability: &Ability, value: AbilityScore)
        ensures
            *final(self) == old(self).spec_set(*ability, value),
    {
        match ability {
            Ability::Str => self.strength = value,
            Ability::Dex => self.dexterity = value,
            Ability::Con => self.constitution = value,
            Ability::Wis => self.wisdom = value,
            Ability::Int => self.intelligence = value,
            Ability::Cha => self.charisma = value,
        }
    }
}

impl Ability {
    /// Returns the ability modifier corresponding to the ability score:
    /// `(score - 10) / 2` rounded toward negative infinity, also for
    /// scores below 10.
    pub fn score_to_mod(ability_score: &AbilityScore) -> (m: Modifier)
        ensures
            m as int == spec_modifier(*ability_score),
    {
        let double_mod: i16 = *ability_score as i16 - 10;
        let m: i16 = if double_mod > 0 {
            double_mod / 2
        } else {
            (double_mod - 1) / 2
        };
        m as i8
    }
}

/// A spell the character has learned, together with the ability it is
/// cast with.
#[derive(Debug)]
pub struct KnownSpell {
    pub name: String,
    pub casting_ability: Ability,
}

impl KnownSpell {
    pub fn name(&self) -> (r: &str)
        ensures
            r@ == self.name@,
    {
        self.name.as_str()
    }

    pub fn ability(&self) -> (r: &Ability)
        ensures
            *r == self.casting_ability,
    {
        &self.casting_ability
    }
}

pub type KnownSpells = Vec<KnownSpell>;

/// Whether a known spell entry is the given spell cast with the given
/// ability.
pub open spec fn spell_entry_matches(ks: KnownSpell, name: Seq<char>, ability: Ability) -> bool {
    ks.name@ == name && ks.casting_ability == ability
}

/// The known spell list with every entry for (name, ability) removed.
pub open spec fn spec_without_spell(
    s: Seq<KnownSpell>,
    name: Seq<char>,
    ability: Ability,
) -> Seq<KnownSpell>
    decreases s.len(),
{
    if s.len() <= 0 {
        Seq::empty()
    } else if spell_entry_matches(s[0], name, ability) {
        spec_without_spell(s.drop_first(), name, ability)
    } else {
        seq![s[0]] + spec_without_spell(s.drop_first(), name, ability)
    }
}

/// Whether a mathematical integer is representable as an `i8` score.
pub open spec fn fits_i8(x: int) -> bool {
    i8::MIN <= x <= i8::MAX
}

/// The scores with a bonus table added field by field.
pub open spec fn spec_add_bonuses(a: Abilities, b: AbilityArray) -> Abilities {
    Abilities {
        strength: (a.strength + b.strength) as i8,
        dexterity: (a.dexterity + b.dexterity) as i8,
        constitution: (a.constitution + b.constitution) as i8,
        wisdom: (a.wisdom + b.wisdom) as i8,
        intelligence: (a.intelligence + b.intelligence) as i8,
        charisma: (a.charisma + b.charisma) as i8,
    }
}

/// The scores with a bonus table subtracted field by field.
pub open spec fn spec_sub_bonuses(a: Abilities, b: AbilityArray) -> Abilities {
    Abilities {
        strength: (a.strength - b.strength) as i8,
        dexterity: (a.dexterity - b.dexterity) as i8,
        constitution: (a.constitution - b.constitution) as i8,
        wisdom: (a.wisdom - b.wisdom) as i8,
        intelligence: (a.intelligence - b.intelligence) as i8,
        charisma: (a.charisma - b.charisma) as i8,
    }
}

/// Every score stays representable when the bonuses are added.
pub open spec fn add_fits(a: Abilities, b: AbilityArray) -> bool {
    forall|ab: Ability| fits_i8(#[trigger] a.spec_get(ab) + #[trigger] b.spec_get(ab))
}

/// Every score stays representable when the bonuses are subtracted.
pub open spec fn sub_fits(a: Abilities, b: AbilityArray) -> bool {
    forall|ab: Ability| fits_i8(#[trigger] a.spec_get(ab) - #[trigger] b.spec_get(ab))
}

/// When the sums fit, adding bonuses is exact score arithmetic.
pub proof fn lemma_add_bonuses(a: Abilities, b: AbilityArray)
    requires
        add_fits(a, b),
    ensures
        forall|ab: Ability|
            #[trigger] spec_add_bonuses(a, b).spec_get(ab) == a.spec_get(ab) + b.spec_get(ab),
{
    assert forall|ab: Ability|
        #[trigger] spec_add_bonuses(a, b).spec_get(ab) == a.spec_get(ab) + b.spec_get(ab) by {
        assert(fits_i8(a.spec_get(ab) + b.spec_get(ab)));
    }
}

/// When the differences fit, subtracting bonuses is exact score
/// arithmetic.
pub proof fn lemma_sub_bonuses(a: Abilities, b: AbilityArray)
    requires
        sub_fits(a, b),
    ensures
        forall|ab: Ability|
            #[trigger] spec_sub_bonuses(a, b).spec_get(ab) == a.spec_get(ab) - b.spec_get(ab),
{
    assert forall|ab: Ability|
        #[trigger] spec_sub_bonuses(a, b).spec_get(ab) == a.spec_get(ab) - b.spec_get(ab) by {
        assert(fits_i8(a.spec_get(ab) - b.spec_get(ab)));
    }
}

/// Adds a bonus table to a score block.
fn apply_bonus_array(a: &mut Abilities, b: &AbilityArray)
    requires
        add_fits(*old(a), *b),
    ensures
        *final(a) == spec_add_bonuses(*old(a), *b),
{
    proof {
        assert(fits_i8(a.spec_get(Ability::Str) + b.spec_get(Ability::Str)));
        assert(fits_i8(a.spec_get(Ability::Dex) + b.spec_get(Ability::Dex)));
        assert(fits_i8(a.spec_get(Ability::Con) + b.spec_get(Ability::Con)));
        assert(fits_i8(a.spec_get(Ability::Wis) + b.spec_get(Ability::Wis)));
        assert(fits_i8(a.spec_get(Ability::Int) + b.spec_get(Ability::Int)));
        assert(fits_i8(a.spec_get(Ability::Cha) + b.spec_get(Ability::Cha)));
    }
    a.strength = a.strength + b.strength;
    a.dexterity = a.dexterity + b.dexterity;
    a.constitution = a.constitution + b.constitution;
    a.wisdom = a.wisdom + b.wisdom;
    a.intelligence = a.intelligence + b.intelligence;
    a.charisma = a.charisma + b.charisma;
}

/// Subtracts a bonus table from a score block.
fn remove_bonus_array(a: &mut Abilities, b: &AbilityArray)
    requires
        sub_fits(*old(a), *b),
    ensures
        *final(a) == spec_sub_bonuses(*old(a), *b),
{
    proof {
        assert(fits_i8(a.spec_get(Ability::Str) - b.spec_get(Ability::Str)));
        assert(fits_i8(a.spec_get(Ability::Dex) - b.spec_get(Ability::Dex)));
        assert(fits_i8(a.spec_get(Ability::Con) - b.spec_get(Ability::Con)));
        assert(fits_i8(a.spec_get(Ability::Wis) - b.spec_get(Ability::Wis)));
        assert(fits_i8(a.spec_get(Ability::Int) - b.spec_get(Ability::Int)));
        assert(fits_i8(a.spec_get(Ability::Cha) - b.spec_get(Ability::Cha)));
    }
    a.strength = a.strength - b.strength;
    a.dexterity = a.dexterity - b.dexterity;
    a.constitution = a.constitution - b.constitution;
    a.wisdom = a.wisdom - b.wisdom;
    a.intelligence = a.intelligence - b.intelligence;
    a.charisma = a.charisma - b.charisma;
}

/// One feat effect applied to the scores; a skill grant leaves them
/// unchanged, since skill grants are resolved at query time.
pub open spec fn spec_apply_effect(a: Abilities, e: FeatEffect) -> Abilities {
    match e {
        FeatEffect::AbilityIncrease(ab, d) => a.spec_set(ab, (a.spec_get(ab) + d) as i8),
        FeatEffect::SkillProficiency(_) => a,
    }
}

/// One feat effect reversed on the scores.
pub open spec fn spec_unapply_effect(a: Abilities, e: FeatEffect) -> Abilities {
    match e {
        FeatEffect::AbilityIncrease(ab, d) => a.spec_set(ab, (a.spec_get(ab) - d) as i8),
        FeatEffect::SkillProficiency(_) => a,
    }
}

pub open spec fn effect_fits(a: Abilities, e: FeatEffect) -> bool {
    match e {
        FeatEffect::AbilityIncrease(ab, d) => fits_i8(a.spec_get(ab) + d),
        FeatEffect::SkillProficiency(_) => true,
    }
}

pub open spec fn effect_reverse_fits(a: Abilities, e: FeatEffect) -> bool {
    match e {
        FeatEffect::AbilityIncrease(ab, d) => fits_i8(a.spec_get(ab) - d),
        FeatEffect::SkillProficiency(_) => true,
    }
}

/// A feat's effect list applied in order.
pub open spec fn spec_apply_effects(a: Abilities, effects: Seq<FeatEffect>) -> Abilities
    decreases effects.len(),
{
    if effects.len() <= 0 {
        a
    } else {
        spec_apply_effects(spec_apply_effect(a, effects[0]), effects.drop_first())
    }
}

/// A feat's effect list reversed, subtracting in the same order.
pub open spec fn spec_unapply_effects(a: Abilities, effects: Seq<FeatEffect>) -> Abilities
    decreases effects.len(),
{
    if effects.len() <= 0 {
        a
    } else {
        spec_unapply_effects(spec_unapply_effect(a, effects[0]), effects.drop_first())
    }
}

/// Every intermediate score stays representable while the effects are
/// applied.
pub open spec fn effects_fit(a: Abilities, effects: Seq<FeatEffect>) -> bool
    decreases effects.len(),
{
    if effects.len() <= 0 {
        true
    } else {
        effect_fits(a, effects[0]) && effects_fit(
            spec_apply_effect(a, effects[0]),
            effects.drop_first(),
        )
    }
}

/// Every intermediate score stays representable while the effects are
/// reversed.
pub open spec fn effects_reverse_fit(a: Abilities, effects: Seq<FeatEffect>) -> bool
    decreases effects.len(),
{
    if effects.len() <= 0 {
        true
    } else {
        effect_reverse_fits(a, effects[0]) && effects_reverse_fit(
            spec_unapply_effect(a, effects[0]),
            effects.drop_first(),
        )
    }
}

/// Applies a feat's effect list to a score block.
fn apply_effects(a: &mut Abilities, effects: &Vec<FeatEffect>)
    requires
        effects_fit(*old(a), effects@),
    ensures
        *final(a) == spec_apply_effects(*old(a), effects@),
{
    let ghost e0 = effects@;
    let ghost a0 = *a;
    proof {
        assert(e0.skip(0) =~= e0);
    }
    let n = effects.len();
    let mut i: usize = 0;
    while i < n
        invariant
            n == effects@.len(),
            effects@ == e0,
            0 <= i <= n,
            spec_apply_effects(a0, e0) == spec_apply_effects(*a, e0.skip(i as int)),
            effects_fit(*a, e0.skip(i as int)),
        decreases n - i,
    {
        proof {
            assert(e0.skip(i as int)[0] == e0[i as int]);
            assert(e0.skip(i as int).drop_first() =~= e0.skip(i as int + 1));
        }
        match &effects[i] {
            FeatEffect::AbilityIncrease(ability, increase) => {
                let v = *a.get(ability);
                a.set(ability, v + *increase);
            },
            FeatEffect::SkillProficiency(_) => {},
        }
        i += 1;
    }
    proof {
        assert(e0.skip(n as int) =~= Seq::<FeatEffect>::empty());
    }
}

/// Reverses a feat's effect list on a score block.
fn reverse_effects(a: &mut Abilities, effects: &Vec<FeatEffect>)
    requires
        effects_reverse_fit(*old(a), effects@),
    ensures
        *final(a) == spec_unapply_effects(*old(a), effects@),
{
    let ghost e0 = effects@;
    let ghost a0 = *a;
    proof {
        assert(e0.skip(0) =~= e0);
    }
    let n = effects.len();
    let mut i: usize = 0;
    while i < n
        invariant
            n == effects@.len(),
            effects@ == e0,
            0 <= i <= n,
            spec_unapply_effects(a0, e0) == spec_unapply_effects(*a, e0.skip(i as int)),
            effects_reverse_fit(*a, e0.skip(i as int)),
        decreases n - i,
    {
        proof {
            assert(e0.skip(i as int)[0] == e0[i as int]);
            assert(e0.skip(i as int).drop_first() =~= e0.skip(i as int + 1));
        }
        match &effects[i] {
            FeatEffect::AbilityIncrease(ability, increase) => {
                let v = *a.get(ability);
                a.set(ability, v - *increase);
            },
            FeatEffect::SkillProficiency(_) => {},
        }
        i += 1;
    }
    proof {
        assert(e0.skip(n as int) =~= Seq::<FeatEffect>::empty());
    }
}

/// A character: base attributes, level, current selections, and the state
/// the resolution engine maintains through its set/unset protocol. The
/// character references the datastore it was built against and stores only
/// the names of its selected providers.
pub struct Character<'d> {
    pub name: String,
    pub data: &'d Datastore,
    pub level: Level,
    pub abilities: Abilities,
    pub race: String,
    pub subrace: String,
    pub class: String,
    pub languages: Vec<String>,
    pub feats: Vec<String>,
    pub skills: Vec<(Skill, SkillLevel)>,
    pub combat_proficiencies: Vec<CombatProficiency>,
    pub known_spells: KnownSpells,
}

impl<'d> Character<'d> {
    /// The structural invariant every engine operation preserves.
    pub open spec fn wf(self) -> bool {
        &&& self.level >= 1
        &&& unique_names(self.languages@)
        &&& unique_names(self.feats@)
        &&& (self.spec_subrace_set() ==> self.spec_race_set())
    }

    pub open spec fn spec_race_set(self) -> bool {
        self.race@.len() > 0
    }

    pub open spec fn spec_subrace_set(self) -> bool {
        self.subrace@.len() > 0
    }

    pub open spec fn spec_ability(self, ability: Ability) -> i8 {
        self.abilities.spec_get(ability)
    }

    /// The level-derived proficiency bonus: `2 + (level - 1) / 4`.
    pub open spec fn spec_proficiency_bonus(self) -> int {
        2 + (self.level - 1) / 4
    }

    /// The character speaks a language if they learned it themselves or
    /// their race or subrace grants it.
    pub open spec fn spec_speaks(self, language: Seq<char>) -> bool {
        ||| contains_name(self.languages@, language)
        ||| match self.data.spec_get_race(self.race@) {
            Some(r) => {
                ||| contains_name(r.languages@, language)
                ||| match r.spec_get_subrace(self.subrace@) {
                    Some(sr) => contains_name(sr.languages@, language),
                    None => false,
                }
            },
            None => false,
        }
    }

    /// Creates a new character that will draw on the data in the store
    /// passed to it here; characters cannot outlive the store, which is
    /// reasonable since they need the data in it to know what e.g. feats
    /// do.
    pub fn new(data: &'d Datastore) -> (r: Self)
        ensures
            r.wf(),
            r.data == data,
            r.name@ == Seq::<char>::empty(),
            r.level == 1,
            forall|a: Ability| r.spec_ability(a) == 10,
            !r.spec_race_set(),
            !r.spec_subrace_set(),
            r.class@ == Seq::<char>::empty(),
            r.languages@ == Seq::<String>::empty(),
            r.feats@ == Seq::<String>::empty(),
            r.skills@ == Seq::<(Skill, SkillLevel)>::empty(),
            r.combat_proficiencies@ == Seq::<CombatProficiency>::empty(),
            r.known_spells@ == Seq::<KnownSpell>::empty(),
    {
        Character {
            name: String::new(),
            data,
            level: 1,
            abilities: Abilities::new(),
            race: String::new(),
            subrace: String::new(),
            class: String::new(),
            languages: Vec::new(),
            feats: Vec::new(),
            skills: Vec::new(),
            combat_proficiencies: Vec::new(),
            known_spells: Vec::new(),
        }
    }

    /// Returns the current ability score of the character for the ability.
    pub fn ability(&self, ability: &Ability) -> (r: &AbilityScore)
        ensures
            *r == self.spec_ability(*ability),
    {
        self.abilities.get(ability)
    }

    /// Sets the ability score of the character to the specified score.
    pub fn set_ability(&mut self, ability: &Ability, score: AbilityScore)
        ensures
            final(self).abilities == old(self).abilities.spec_set(*ability, score),
            *final(self) == (Character { abilities: final(self).abilities, ..*old(self) }),
    {
        self.abilities.set(ability, score);
    }

    pub fn set_level(&mut self, level: Level)
        requires
            level >= 1,
        ensures
            *final(self) == (Character { level, ..*old(self) }),
    {
        self.level = level;
    }

    pub fn proficiency_bonus(&self) -> (r: Modifier)
        requires
            self.wf(),
        ensures
            r as int == self.spec_proficiency_bonus(),
    {
        2 + ((self.level - 1) / 4)
    }

    /// Endows the character with the ability to speak the specified
    /// language; learning a language twice is a no-op.
    pub fn learn_language(&mut self, language: String)
        requires
            old(self).wf(),
        ensures
            final(self).wf(),
            forall|n: Seq<char>|
                #[trigger] contains_name(final(self).languages@, n) <==> contains_name(
                    old(self).languages@,
                    n,
                ) || n == language@,
            *final(self) == (Character { languages: final(self).languages, ..*old(self) }),
    {
        insert_string(&mut self.languages, language);
    }

    /// Removes the ability of the character to speak the specified
    /// language (a language granted by the race or subrace is still
    /// spoken).
    pub fn unlearn_language(&mut self, language: &str)
        requires
            old(self).wf(),
        ensures
            final(self).wf(),
            forall|n: Seq<char>|
                #[trigger] contains_name(final(self).languages@, n) <==> contains_name(
                    old(self).languages@,
                    n,
                ) && n != language@,
            *final(self) == (Character { languages: final(self).languages, ..*old(self) }),
    {
        remove_string(&mut self.languages, language);
    }

    /// Returns true if the character speaks the specified language.
    pub fn speaks(&self, language: &str) -> (r: bool)
        ensures
            r == self.spec_speaks(language@),
    {
        if crate::lookup::contains_string(&self.languages, language) {
            return true;
        }
        match self.data.get_race(self.race.as_str()) {
            Some(r) => {
                if crate::lookup::contains_string(&r.languages, language) {
                    return true;
                }
                match r.get_subrace(self.subrace.as_str()) {
                    Some(sr) => crate::lookup::contains_string(&sr.languages, language),
                    None => false,
                }
            },
            None => false,
        }
    }

    pub fn learn_spell(&mut self, spell: &Spell, ability: Ability)
        ensures
            final(self).known_spells@ == old(self).known_spells@.push(
                KnownSpell { name: spell.name, casting_ability: ability },
            ),
            *final(self) == (Character { known_spells: final(self).known_spells, ..*old(self) }),
    {
        self.known_spells.push(KnownSpell { name: spell.name.clone(), casting_ability: ability });
    }

    pub fn unlearn_spell(&mut self, spell: &Spell, ability: Ability)
        ensures
            final(self).known_spells@ == spec_without_spell(
                old(self).known_spells@,
                spell.name@,
                ability,
            ),
            *final(self) == (Character { known_spells: final(self).known_spells, ..*old(self) }),
    {
        let ghost s = self.known_spells@;
        let mut kept: Vec<KnownSpell> = Vec::new();
        let n = self.known_spells.len();
        let mut i: usize = 0;
        proof {
            assert(s.skip(0) =~= s);
        }
        while i < n
            invariant
                n == self.known_spells@.len(),
                0 <= i <= n,
                self.known_spells@ == s,
                spec_without_spell(s, spell.name@, ability) == kept@ + spec_without_spell(
                    s.skip(i as int),
                    spell.name@,
                    ability,
                ),
            decreases n - i,
        {
            let ks = &self.known_spells[i];
            let matches = str_eq(ks.name.as_str(), spell.name.as_str()) && ks.casting_ability
                == ability;
            proof {
                assert(s.skip(i as int)[0] == s[i as int]);
                assert(s.skip(i as int).drop_first() =~= s.skip(i as int + 1));
            }
            if !matches {
                let copy = KnownSpell {
                    name: self.known_spells[i].name.clone(),
                    casting_ability: self.known_spells[i].casting_ability,
                };
                let ghost k0 = kept@;
                kept.push(copy);
                proof {
                    assert(kept@ =~= k0 + seq![s[i as int]]);
                    assert(k0 + (seq![s[i as int]] + spec_without_spell(
                        s.skip(i as int + 1),
                        spell.name@,
                        ability,
                    )) =~= kept@ + spec_without_spell(s.skip(i as int + 1), spell.name@, ability));
                }
            }
            i += 1;
        }
        proof {
            assert(s.skip(n as int) =~= Seq::<KnownSpell>::empty());
            assert(kept@ + Seq::<KnownSpell>::empty() =~= kept@);
        }
        self.known_spells = kept;
    }

    pub fn spells(&self) -> (r: &KnownSpells)
        ensures
            *r == self.known_spells,
    {
        &self.known_spells
    }

    /// Makes the character proficient in a weapon, weapon category or
    /// armor category.
    pub fn add_combat_proficiency(&mut self, prof: CombatProficiency)
        ensures
            forall|p: CombatProficiency|
                #[trigger] contains_prof(final(self).combat_proficiencies@, p) <==> contains_prof(
                    old(self).combat_proficiencies@,
                    p,
                ) || prof_eq(prof, p),
            *final(self) == (Character {
                combat_proficiencies: final(self).combat_proficiencies,
                ..*old(self)
            }),
    {
        let ghost s = self.combat_proficiencies@;
        self.combat_proficiencies.push(prof);
        proof {
            assert forall|p: CombatProficiency|
                #[trigger] contains_prof(self.combat_proficiencies@, p) <==> contains_prof(s, p)
                    || prof_eq(prof, p) by {
                if contains_prof(self.combat_proficiencies@, p) {
                    let i = choose|i: int|
                        0 <= i < self.combat_proficiencies@.len() && prof_eq(
                            #[trigger] self.combat_proficiencies@[i],
                            p,
                        );
                    if i < s.len() {
                        assert(prof_eq(s[i], p));
                    }
                }
                if contains_prof(s, p) {
                    let i = choose|i: int| 0 <= i < s.len() && prof_eq(#[trigger] s[i], p);
                    assert(prof_eq(self.combat_proficiencies@[i], p));
                }
                if prof_eq(prof, p) {
                    assert(prof_eq(self.combat_proficiencies@[s.len() as int], p));
                }
            }
        }
    }

    /// Returns whether or not the character can wear the specified armor:
    /// they must be proficient with its armor category.
    pub fn can_equip(&self, armor: &Armor) -> (r: bool)
        ensures
            r == contains_prof(
                self.combat_proficiencies@,
                CombatProficiency::ArmorCategory(armor.category),
            ),
    {
        prof_list_contains(
            &self.combat_proficiencies,
            &CombatProficiency::ArmorCategory(armor.category),
        )
    }


    /// The ability bonuses currently baked in from the selected race:
    /// the zero table when no race is set, and nothing when the stored
    /// race name is missing from the datastore.
    pub open spec fn spec_active_race_bonuses(self) -> Option<AbilityArray> {
        if !self.spec_race_set() {
            Some(spec_zero_array())
        } else {
            match self.data.spec_get_race(self.race@) {
                Some(r) => Some(r.ability_bonuses),
                None => None,
            }
        }
    }

    /// The ability bonuses currently baked in from the selected subrace.
    pub open spec fn spec_active_subrace_bonuses(self) -> Option<AbilityArray> {
        if !self.spec_subrace_set() {
            Some(spec_zero_array())
        } else {
            match self.data.spec_get_race(self.race@) {
                Some(r) => match r.spec_get_subrace(self.subrace@) {
                    Some(sr) => Some(sr.ability_bonuses),
                    None => None,
                },
                None => None,
            }
        }
    }

    /// Why a race change would be refused, if it would be.
    pub open spec fn spec_set_race_failure(self) -> Option<RulesError> {
        if self.spec_active_subrace_bonuses() is None || self.spec_active_race_bonuses() is None {
            Some(RulesError::NotFound)
        } else {
            None
        }
    }

    /// The machine-limit side condition of a race change: every score
    /// stays representable while the old subrace's and race's bonuses are
    /// removed and the new race's are applied. A change that is refused
    /// anyway needs no side condition.
    pub open spec fn spec_race_swap_fits(self, race: Race) -> bool {
        self.spec_set_race_failure() is Some || match (
            self.spec_active_subrace_bonuses(),
            self.spec_active_race_bonuses(),
        ) {
            (Some(srb), Some(rb)) => {
                let a1 = spec_sub_bonuses(self.abilities, srb);
                let a2 = spec_sub_bonuses(a1, rb);
                &&& sub_fits(self.abilities, srb)
                &&& sub_fits(a1, rb)
                &&& add_fits(a2, race.ability_bonuses)
            },
            _ => true,
        }
    }

    /// A successful race change: the old subrace's and race's bonuses are
    /// fully undone, the new race's bonuses are applied, the race name is
    /// recorded, the subrace is cleared, and nothing else changes.
    pub open spec fn spec_set_race_ok(pre: Character, race: Race, post: Character) -> bool {
        &&& pre.spec_active_subrace_bonuses() is Some
        &&& pre.spec_active_race_bonuses() is Some
        &&& {
            let srb = pre.spec_active_subrace_bonuses()->Some_0;
            let rb = pre.spec_active_race_bonuses()->Some_0;
            let a1 = spec_sub_bonuses(pre.abilities, srb);
            let a2 = spec_sub_bonuses(a1, rb);
            &&& sub_fits(pre.abilities, srb)
            &&& sub_fits(a1, rb)
            &&& add_fits(a2, race.ability_bonuses)
            &&& post.abilities == spec_add_bonuses(a2, race.ability_bonuses)
        }
        &&& post.race@ == race.name@
        &&& !post.spec_subrace_set()
        &&& post.data == pre.data
        &&& post.name == pre.name
        &&& post.level == pre.level
        &&& post.class == pre.class
        &&& post.languages == pre.languages
        &&& post.feats == pre.feats
        &&& post.skills == pre.skills
        &&& post.combat_proficiencies == pre.combat_proficiencies
        &&& post.known_spells == pre.known_spells
    }

    /// Sets the race of the character to the specified race: the old
    /// race's bonuses (and its subrace's, which is cleared) are removed
    /// first, then the new race's are applied. A failed lookup of the old
    /// race or subrace leaves the character unchanged.
    pub fn set_race(&mut self, race: &Race) -> (r: Result<(), RulesError>)
        requires
            old(self).wf(),
            old(self).spec_race_swap_fits(*race),
        ensures
            final(self).wf(),
            r == match old(self).spec_set_race_failure() {
                Some(e) => Err::<(), RulesError>(e),
                None => Ok::<(), RulesError>(()),
            },
            r is Err ==> *final(self) == *old(self),
            r is Ok ==> Self::spec_set_race_ok(*old(self), *race, *final(self)),
    {
        // resolve everything that is to be undone before mutating
        // anything: a failure must leave the character unchanged
        let subrace_undo: AbilityArray;
        if self.subrace.as_str().is_empty() {
            subrace_undo = AbilityArray::zero();
        } else {
            match self.data.get_race(self.race.as_str()) {
                Some(old_race) => {
                    match old_race.get_subrace(self.subrace.as_str()) {
                        Some(sr) => {
                            subrace_undo = sr.ability_bonuses;
                        },
                        None => {
                            return Err(RulesError::NotFound);
                        },
                    }
                },
                None => {
                    return Err(RulesError::NotFound);
                },
            }
        }
        let race_undo: AbilityArray;
        if self.race.as_str().is_empty() {
            race_undo = AbilityArray::zero();
        } else {
            match self.data.get_race(self.race.as_str()) {
                Some(old_race) => {
                    race_undo = old_race.ability_bonuses;
                },
                None => {
                    return Err(RulesError::NotFound);
                },
            }
        }
        remove_bonus_array(&mut self.abilities, &subrace_undo);
        remove_bonus_array(&mut self.abilities, &race_undo);
        apply_bonus_array(&mut self.abilities, &race.ability_bonuses);
        self.race = race.name.clone();
        self.subrace = String::new();
        Ok(())
    }

    /// Why a subrace change would be refused, if it would be: a subrace
    /// needs a race first, the race and the new subrace must exist, and
    /// the old subrace must still be found so it can be undone.
    pub open spec fn spec_set_subrace_failure(self, subrace: Subrace) -> Option<RulesError> {
        if !self.spec_race_set() {
            Some(RulesError::PreconditionViolated)
        } else {
            match self.data.spec_get_race(self.race@) {
                None => Some(RulesError::NotFound),
                Some(r) => if r.spec_get_subrace(subrace.name@) is None {
                    Some(RulesError::NotFound)
                } else if self.spec_active_subrace_bonuses() is None {
                    Some(RulesError::NotFound)
                } else {
                    None
                },
            }
        }
    }

    /// The machine-limit side condition of a subrace change. A change that
    /// is refused anyway needs no side condition.
    pub open spec fn spec_subrace_swap_fits(self, subrace: Subrace) -> bool {
        self.spec_set_subrace_failure(subrace) is Some || match self.spec_active_subrace_bonuses() {
            Some(srb) => {
                let a1 = spec_sub_bonuses(self.abilities, srb);
                &&& sub_fits(self.abilities, srb)
                &&& add_fits(a1, subrace.ability_bonuses)
            },
            None => true,
        }
    }

    /// A successful subrace change: the old subrace's bonuses are undone,
    /// the new subrace's are applied on top of the race's, the subrace
    /// name is recorded, and nothing else changes.
    pub open spec fn spec_set_subrace_ok(pre: Character, subrace: Subrace, post: Character) -> bool {
        &&& pre.spec_race_set()
        &&& pre.data.spec_get_race(pre.race@) is Some
        &&& pre.data.spec_get_race(pre.race@)->Some_0.spec_get_subrace(subrace.name@) is Some
        &&& pre.spec_active_subrace_bonuses() is Some
        &&& {
            let srb = pre.spec_active_subrace_bonuses()->Some_0;
            let a1 = spec_sub_bonuses(pre.abilities, srb);
            &&& sub_fits(pre.abilities, srb)
            &&& add_fits(a1, subrace.ability_bonuses)
            &&& post.abilities == spec_add_bonuses(a1, subrace.ability_bonuses)
        }
        &&& post.subrace@ == subrace.name@
        &&& post.race == pre.race
        &&& post.data == pre.data
        &&& post.name == pre.name
        &&& post.level == pre.level
        &&& post.class == pre.class
        &&& post.languages == pre.languages
        &&& post.feats == pre.feats
        &&& post.skills == pre.skills
        &&& post.combat_proficiencies == pre.combat_proficiencies
        &&& post.known_spells == pre.known_spells
    }

    /// Sets the subrace of the character: a race must be set, the new
    /// name must be one of that race's subraces, and the effects of any
    /// currently set subrace are reversed first. A refused change leaves
    /// the character unchanged.
    pub fn set_subrace(&mut self, subrace: &Subrace) -> (r: Result<(), RulesError>)
        requires
            old(self).wf(),
            old(self).spec_subrace_swap_fits(*subrace),
        ensures
            final(self).wf(),
            r == match old(self).spec_set_subrace_failure(*subrace) {
                Some(e) => Err::<(), RulesError>(e),
                None => Ok::<(), RulesError>(()),
            },
            r is Err ==> *final(self) == *old(self),
            r is Ok ==> Self::spec_set_subrace_ok(*old(self), *subrace, *final(self)),
    {
        if self.race.as_str().is_empty() {
            return Err(RulesError::PreconditionViolated);
        }
        let subrace_undo: AbilityArray;
        match self.data.get_race(self.race.as_str()) {
            Some(current_race) => {
                if current_race.get_subrace(subrace.name.as_str()).is_none() {
                    return Err(RulesError::NotFound);
                }
                if self.subrace.as_str().is_empty() {
                    subrace_undo = AbilityArray::zero();
                } else {
                    match current_race.get_subrace(self.subrace.as_str()) {
                        Some(sr) => {
                            subrace_undo = sr.ability_bonuses;
                        },
                        None => {
                            return Err(RulesError::NotFound);
                        },
                    }
                }
            },
            None => {
                return Err(RulesError::NotFound);
            },
        }
        remove_bonus_array(&mut self.abilities, &subrace_undo);
        apply_bonus_array(&mut self.abilities, &subrace.ability_bonuses);
        self.subrace = subrace.name.clone();
        Ok(())
    }

    pub open spec fn spec_prereq_met(self, p: FeatPrerequisite) -> bool {
        match p {
            FeatPrerequisite::MinimumAbility(ab, min) => self.spec_ability(ab) >= min,
        }
    }

    /// Whether the character meets every prerequisite of the feat.
    pub open spec fn spec_meets_prerequisites(self, feat: Feat) -> bool {
        forall|i: int|
            0 <= i < feat.prerequisites@.len() ==> self.spec_prereq_met(
                #[trigger] feat.prerequisites@[i],
            )
    }

    fn meets_prerequisites(&self, feat: &Feat) -> (r: bool)
        ensures
            r == self.spec_meets_prerequisites(*feat),
    {
        let n = feat.prerequisites.len();
        let mut i: usize = 0;
        while i < n
            invariant
                n == feat.prerequisites@.len(),
                0 <= i <= n,
                forall|j: int|
                    0 <= j < i ==> self.spec_prereq_met(#[trigger] feat.prerequisites@[j]),
            decreases n - i,
        {
            match &feat.prerequisites[i] {
                FeatPrerequisite::MinimumAbility(ability, minimum) => {
                    if *self.ability(ability) < *minimum {
                        return false;
                    }
                },
            }
            i += 1;
        }
        true
    }

    /// Learns a feat: the prerequisites are checked first and a failure
    /// changes nothing; a feat already learned is not applied a second
    /// time; otherwise the feat's name is recorded and its effects are
    /// applied once.
    pub fn learn_feat(&mut self, feat: &Feat) -> (r: Result<(), RulesError>)
        requires
            old(self).wf(),
            old(self).spec_meets_prerequisites(*feat) && !contains_name(
                old(self).feats@,
                feat.name@,
            ) ==> effects_fit(old(self).abilities, feat.effects@),
        ensures
            final(self).wf(),
            !old(self).spec_meets_prerequisites(*feat) ==> r == Err::<(), RulesError>(
                RulesError::PreconditionViolated,
            ) && *final(self) == *old(self),
            old(self).spec_meets_prerequisites(*feat) && contains_name(
                old(self).feats@,
                feat.name@,
            ) ==> r == Ok::<(), RulesError>(()) && *final(self) == *old(self),
            old(self).spec_meets_prerequisites(*feat) && !contains_name(
                old(self).feats@,
                feat.name@,
            ) ==> {
                &&& r == Ok::<(), RulesError>(())
                &&& final(self).abilities == spec_apply_effects(old(self).abilities, feat.effects@)
                &&& forall|n: Seq<char>|
                    #[trigger] contains_name(final(self).feats@, n) <==> contains_name(
                        old(self).feats@,
                        n,
                    ) || n == feat.name@
                &&& final(self).name == old(self).name
                &&& final(self).data == old(self).data
                &&& final(self).level == old(self).level
                &&& final(self).race == old(self).race
                &&& final(self).subrace == old(self).subrace
                &&& final(self).class == old(self).class
                &&& final(self).languages == old(self).languages
                &&& final(self).skills == old(self).skills
                &&& final(self).combat_proficiencies == old(self).combat_proficiencies
                &&& final(self).known_spells == old(self).known_spells
            },
    {
        if !self.meets_prerequisites(feat) {
            return Err(RulesError::PreconditionViolated);
        }
        if contains_string(&self.feats, feat.name.as_str()) {
            return Ok(());
        }
        insert_string(&mut self.feats, feat.name.clone());
        apply_effects(&mut self.abilities, &feat.effects);
        Ok(())
    }

    /// Unlearns a feat: reverses its effects and removes its name. A feat
    /// that was never learned cannot be reversed, and the character is
    /// left unchanged.
    pub fn unlearn_feat(&mut self, feat: &Feat) -> (r: Result<(), RulesError>)
        requires
            old(self).wf(),
            contains_name(old(self).feats@, feat.name@) ==> effects_reverse_fit(
                old(self).abilities,
                feat.effects@,
            ),
        ensures
            final(self).wf(),
            !contains_name(old(self).feats@, feat.name@) ==> r == Err::<(), RulesError>(
                RulesError::PreconditionViolated,
            ) && *final(self) == *old(self),
            contains_name(old(self).feats@, feat.name@) ==> {
                &&& r == Ok::<(), RulesError>(())
                &&& final(self).abilities == spec_unapply_effects(
                    old(self).abilities,
                    feat.effects@,
                )
                &&& forall|n: Seq<char>|
                    #[trigger] contains_name(final(self).feats@, n) <==> contains_name(
                        old(self).feats@,
                        n,
                    ) && n != feat.name@
                &&& final(self).name == old(self).name
                &&& final(self).data == old(self).data
                &&& final(self).level == old(self).level
                &&& final(self).race == old(self).race
                &&& final(self).subrace == old(self).subrace
                &&& final(self).class == old(self).class
                &&& final(self).languages == old(self).languages
                &&& final(self).skills == old(self).skills
                &&& final(self).combat_proficiencies == old(self).combat_proficiencies
                &&& final(self).known_spells == old(self).known_spells
            },
    {
        if !contains_string(&self.feats, feat.name.as_str()) {
            return Err(RulesError::PreconditionViolated);
        }
        remove_string(&mut self.feats, feat.name.as_str());
        reverse_effects(&mut self.abilities, &feat.effects);
        Ok(())
    }

    /// The skill level the character set for themselves, if any;
    /// an explicit entry at Untrained counts as no entry.
    pub open spec fn spec_own_skill_level(self, skill: Skill) -> SkillLevel {
        match find_skill_entry(self.skills@, skill) {
            Some(l) => l,
            None => SkillLevel::Untrained,
        }
    }

    pub open spec fn spec_race_grants_skill(self, skill: Skill) -> bool {
        match self.data.spec_get_race(self.race@) {
            Some(r) => contains_skill(r.skill_proficiencies@, skill),
            None => false,
        }
    }

    pub open spec fn spec_subrace_grants_skill(self, skill: Skill) -> bool {
        match self.data.spec_get_race(self.race@) {
            Some(r) => match r.spec_get_subrace(self.subrace@) {
                Some(sr) => contains_skill(sr.skill_proficiencies@, skill),
                None => false,
            },
            None => false,
        }
    }

    pub open spec fn spec_class_grants_skill(self, skill: Skill) -> bool {
        match self.data.spec_get_class(self.class@) {
            Some(c) => contains_skill(c.skill_proficiencies@, skill),
            None => false,
        }
    }

    /// Whether the feat of this name, as the datastore defines it, grants
    /// proficiency in the skill.
    pub open spec fn spec_feat_grant(data: Datastore, name: Seq<char>, skill: Skill) -> bool {
        match data.spec_get_feat(name) {
            Some(f) => contains_skill_effect(f.effects@, skill),
            None => false,
        }
    }

    pub open spec fn spec_feats_grant_skill(self, skill: Skill) -> bool {
        exists|i: int|
            0 <= i < self.feats@.len() && Self::spec_feat_grant(
                *self.data,
                (#[trigger] self.feats@[i])@,
                skill,
            )
    }

    /// The skill level of the character in a skill: their own explicit
    /// setting wins; otherwise the first provider that grants the skill,
    /// in the order race, subrace, class, feats, makes them Proficient.
    pub open spec fn spec_skill_level(self, skill: Skill) -> SkillLevel {
        if self.spec_own_skill_level(skill) != SkillLevel::Untrained {
            self.spec_own_skill_level(skill)
        } else if self.spec_race_grants_skill(skill) || self.spec_subrace_grants_skill(skill)
            || self.spec_class_grants_skill(skill) || self.spec_feats_grant_skill(skill) {
            SkillLevel::Proficient
        } else {
            SkillLevel::Untrained
        }
    }

    /// Returns the skill level of the character in the specified skill,
    /// taking into account proficiencies from themself as well as from
    /// their race, subrace, class and feats.
    pub fn skill_level(&self, skill: &Skill) -> (r: SkillLevel)
        ensures
            r == self.spec_skill_level(*skill),
    {
        let own_skill_level = match skill_map_get(&self.skills, skill) {
            Some(prof) => prof,
            None => SkillLevel::Untrained,
        };
        if own_skill_level != SkillLevel::Untrained {
            return own_skill_level;
        }
        match self.data.get_race(self.race.as_str()) {
            Some(r) => {
                if skill_list_contains(&r.skill_proficiencies, skill) {
                    return SkillLevel::Proficient;
                }
                match r.get_subrace(self.subrace.as_str()) {
                    Some(sr) => {
                        if skill_list_contains(&sr.skill_proficiencies, skill) {
                            return SkillLevel::Proficient;
                        }
                    },
                    None => {},
                }
            },
            None => {},
        }
        match self.data.get_class(self.class.as_str()) {
            Some(class) => {
                if skill_list_contains(&class.skill_proficiencies, skill) {
                    return SkillLevel::Proficient;
                }
            },
            None => {},
        }
        let n = self.feats.len();
        let mut i: usize = 0;
        while i < n
            invariant
                n == self.feats@.len(),
                0 <= i <= n,
                self.spec_own_skill_level(*skill) == SkillLevel::Untrained,
                forall|j: int|
                    0 <= j < i ==> !Self::spec_feat_grant(
                        *self.data,
                        (#[trigger] self.feats@[j])@,
                        *skill,
                    ),
            decreases n - i,
        {
            match self.data.get_feat(self.feats[i].as_str()) {
                Some(feat_data) => {
                    if feat_grants_skill(feat_data, skill) {
                        proof {
                            assert(Self::spec_feat_grant(
                                *self.data,
                                (self.feats@[i as int])@,
                                *skill,
                            ));
                        }
                        return SkillLevel::Proficient;
                    }
                },
                None => {},
            }
            i += 1;
        }
        SkillLevel::Untrained
    }

    /// Sets the skill level of a character in a skill independently of
    /// race or class.
    pub fn set_skill_level(&mut self, skill: &Skill, level: SkillLevel)
        ensures
            forall|k: Skill|
                #[trigger] find_skill_entry(final(self).skills@, k) == if skill_eq(*skill, k) {
                    Some(level)
                } else {
                    find_skill_entry(old(self).skills@, k)
                },
            *final(self) == (Character { skills: final(self).skills, ..*old(self) }),
    {
        skill_map_set(&mut self.skills, skill.clone(), level);
    }

    /// The proficiency term a skill level contributes to a skill check.
    pub open spec fn spec_skill_term(self, skill: Skill) -> int {
        match self.spec_skill_level(skill) {
            SkillLevel::Untrained => 0,
            SkillLevel::Proficient => self.spec_proficiency_bonus(),
            SkillLevel::Expert => 2 * self.spec_proficiency_bonus(),
        }
    }

    /// The skill check modifier: the ability modifier plus the proficiency
    /// term of the resolved skill level.
    pub fn skill_mod(&self, ability: &Ability, skill: &Skill) -> (r: Modifier)
        requires
            self.wf(),
        ensures
            r as int == spec_modifier(self.spec_ability(*ability)) + self.spec_skill_term(*skill),
    {
        let ability_mod = Ability::score_to_mod(self.ability(ability)) as i16;
        let term: i16 = match self.skill_level(skill) {
            SkillLevel::Untrained => 0,
            SkillLevel::Proficient => self.proficiency_bonus() as i16,
            SkillLevel::Expert => 2 * (self.proficiency_bonus() as i16),
        };
        (ability_mod + term) as i8
    }

    /// Whether the class the character has selected is proficient in
    /// saving throws of this ability.
    pub open spec fn spec_save_proficient(self, ability: Ability) -> bool {
        match self.data.spec_get_class(self.class@) {
            Some(c) => c.saving_throws@.contains(ability),
            None => false,
        }
    }

    /// The saving throw modifier: the ability modifier, plus the
    /// proficiency bonus when the class grants saves of that ability.
    pub fn saving_throw(&self, ability: &Ability) -> (r: Modifier)
        requires
            self.wf(),
        ensures
            r as int == spec_modifier(self.spec_ability(*ability)) + if self.spec_save_proficient(
                *ability,
            ) {
                self.spec_proficiency_bonus()
            } else {
                0
            },
    {
        let ability_mod = Ability::score_to_mod(self.ability(ability)) as i16;
        let bonus: i16 = match self.data.get_class(self.class.as_str()) {
            Some(class) => {
                if ability_list_contains(&class.saving_throws, ability) {
                    self.proficiency_bonus() as i16
                } else {
                    0
                }
            },
            None => 0,
        };
        (ability_mod + bonus) as i8
    }

    /// Returns the current size of the character: the size their race
    /// declares, or the default Medium when no race resolves. Queries are
    /// total and never fail.
    pub fn size(&self) -> (r: Size)
        ensures
            r == match self.data.spec_get_race(self.race@) {
                Some(race) => race.size,
                None => Size::Medium,
            },
    {
        match self.data.get_race(self.race.as_str()) {
            Some(r) => r.size,
            None => Size::Medium,
        }
    }

    /// Returns the current speed of the character: the base speed their
    /// race declares, or the default 30 when no race resolves. Queries are
    /// total and never fail.
    pub fn speed(&self) -> (r: Speed)
        ensures
            r == match self.data.spec_get_race(self.race@) {
                Some(race) => race.speed,
                None => 30u16,
            },
    {
        match self.data.get_race(self.race.as_str()) {
            Some(r) => r.speed,
            None => 30,
        }
    }

    /// The hit die of the selected class, or the default D20 when no class
    /// resolves. Queries are total and never fail.
    pub fn hit_die(&self) -> (r: Die)
        ensures
            r == match self.data.spec_get_class(self.class@) {
                Some(class) => class.hit_die,
                None => Die::D20,
            },
    {
        match self.data.get_class(self.class.as_str()) {
            Some(class) => class.hit_die,
            None => Die::D20,
        }
    }

    /// Selects the class; a class carries no baked-in effects, so only the
    /// stored name changes.
    pub fn set_class(&mut self, class: &Class)
        ensures
            final(self).class@ == class.name@,
            *final(self) == (Character { class: final(self).class, ..*old(self) }),
    {
        self.class = class.name.clone();
    }

    /// Whether the character is proficient with the weapon through any
    /// source: their own proficiencies, their race, their subrace, or
    /// their class; any one source suffices.
    pub open spec fn spec_proficient_with_weapon(self, weapon: Weapon) -> bool {
        ||| contains_prof(
            self.combat_proficiencies@,
            CombatProficiency::WeaponCategory(weapon.category),
        )
        ||| contains_prof(self.combat_proficiencies@, CombatProficiency::Weapon(weapon.name))
        ||| match self.data.spec_get_race(self.race@) {
            Some(race) => {
                ||| contains_prof(
                    race.combat_proficiencies@,
                    CombatProficiency::WeaponCategory(weapon.category),
                )
                ||| contains_prof(
                    race.combat_proficiencies@,
                    CombatProficiency::Weapon(weapon.name),
                )
                ||| match race.spec_get_subrace(self.subrace@) {
                    Some(subrace) => {
                        ||| contains_prof(
                            subrace.combat_proficiencies@,
                            CombatProficiency::WeaponCategory(weapon.category),
                        )
                        ||| contains_prof(
                            subrace.combat_proficiencies@,
                            CombatProficiency::Weapon(weapon.name),
                        )
                    },
                    None => false,
                }
            },
            None => false,
        }
        ||| match self.data.spec_get_class(self.class@) {
            Some(class) => {
                ||| contains_prof(
                    class.combat_proficiencies@,
                    CombatProficiency::WeaponCategory(weapon.category),
                )
                ||| contains_prof(
                    class.combat_proficiencies@,
                    CombatProficiency::Weapon(weapon.name),
                )
            },
            None => false,
        }
    }

    /// Determine whether or not the character is proficient with the
    /// specified weapon.
    fn proficient_with_weapon(&self, weapon: &Weapon) -> (r: bool)
        ensures
            r == self.spec_proficient_with_weapon(*weapon),
    {
        let by_category = CombatProficiency::WeaponCategory(weapon.category);
        let by_name = CombatProficiency::Weapon(weapon.name.clone());
        if prof_list_contains(&self.combat_proficiencies, &by_category) {
            return true;
        }
        if prof_list_contains(&self.combat_proficiencies, &by_name) {
            return true;
        }
        match self.data.get_race(self.race.as_str()) {
            Some(race) => {
                if prof_list_contains(&race.combat_proficiencies, &by_category) {
                    return true;
                }
                if prof_list_contains(&race.combat_proficiencies, &by_name) {
                    return true;
                }
                match race.get_subrace(self.subrace.as_str()) {
                    Some(subrace) => {
                        if prof_list_contains(&subrace.combat_proficiencies, &by_category) {
                            return true;
                        }
                        if prof_list_contains(&subrace.combat_proficiencies, &by_name) {
                            return true;
                        }
                    },
                    None => {},
                }
            },
            None => {},
        }
        match self.data.get_class(self.class.as_str()) {
            Some(class) => {
                if prof_list_contains(&class.combat_proficiencies, &by_category) {
                    return true;
                }
                prof_list_contains(&class.combat_proficiencies, &by_name)
            },
            None => false,
        }
    }

    /// The ability governing attacks with the weapon: Strength for melee,
    /// Dexterity for ranged.
    pub open spec fn spec_attack_ability(weapon: Weapon) -> Ability {
        match weapon.range_category {
            WeaponRange::Melee => Ability::Str,
            WeaponRange::Ranged => Ability::Dex,
        }
    }

    /// Returns the attack modifier of the character with the specified
    /// weapon: the governing ability's modifier, plus the proficiency
    /// bonus if any source makes them proficient with the weapon.
    pub fn get_attack_mod(&self, weapon: &Weapon) -> (r: Modifier)
        requires
            self.wf(),
        ensures
            r as int == spec_modifier(self.spec_ability(Self::spec_attack_ability(*weapon)))
                + if self.spec_proficient_with_weapon(*weapon) {
                self.spec_proficiency_bonus()
            } else {
                0
            },
    {
        let ability_mod = match weapon.range_category {
            WeaponRange::Melee => Ability::score_to_mod(self.ability(&Ability::Str)),
            WeaponRange::Ranged => Ability::score_to_mod(self.ability(&Ability::Dex)),
        } as i16;
        let bonus: i16 = if self.proficient_with_weapon(weapon) {
            self.proficiency_bonus() as i16
        } else {
            0
        };
        (ability_mod + bonus) as i8
    }

    /// The spell slot table of the character: determined by their class's
    /// spellcasting tier and their level, with no slots at all when no
    /// class is selected.
    pub fn spell_slots(&self) -> (r: Result<SpellSlots, RulesError>)
        ensures
            r == match self.data.spec_get_class(self.class@) {
                Some(class) => spec_slots_for_level(self.level, class.spell_caster),
                None => Ok::<SpellSlots, RulesError>(spec_slots(0, 0, 0, 0, 0, 0, 0, 0, 0)),
            },
    {
        match self.data.get_class(self.class.as_str()) {
            Some(class) => SpellLevel::slots_for_level(&self.level, &class.spell_caster),
            None => Ok(SpellLevel::slots(0, 0, 0, 0, 0, 0, 0, 0, 0)),
        }
    }
}

/// Whether the ability list holds `ability`.
fn ability_list_contains(v: &Vec<Ability>, ability: &Ability) -> (r: bool)
    ensures
        r == v@.contains(*ability),
{
    let n = v.len();
    let mut i: usize = 0;
    while i < n
        invariant
            n == v@.len(),
            0 <= i <= n,
            forall|j: int| 0 <= j < i ==> v@[j] != *ability,
        decreases n - i,
    {
        if v[i] == *ability {
            return true;
        }
        i += 1;
    }
    false
}


/// The net change one feat effect makes to one ability.
pub open spec fn spec_effect_delta(e: FeatEffect, ab: Ability) -> int {
    match e {
        FeatEffect::AbilityIncrease(a0, d) => if a0 == ab {
            d as int
        } else {
            0
        },
        FeatEffect::SkillProficiency(_) => 0,
    }
}

/// The net change an effect list makes to one ability.
pub open spec fn spec_effects_delta(effects: Seq<FeatEffect>, ab: Ability) -> int
    decreases effects.len(),
{
    if effects.len() <= 0 {
        0
    } else {
        spec_effect_delta(effects[0], ab) + spec_effects_delta(effects.drop_first(), ab)
    }
}

/// When every intermediate score fits, applying an effect list adds the
/// list's net delta to each ability exactly.
pub proof fn lemma_apply_effects_delta(a: Abilities, effects: Seq<FeatEffect>)
    requires
        effects_fit(a, effects),
    ensures
        forall|ab: Ability|
            #[trigger] spec_apply_effects(a, effects).spec_get(ab) == a.spec_get(ab)
                + spec_effects_delta(effects, ab),
    decreases effects.len(),
{
    if effects.len() > 0 {
        let a1 = spec_apply_effect(a, effects[0]);
        assert forall|ab: Ability|
            #[trigger] a1.spec_get(ab) == a.spec_get(ab) + spec_effect_delta(effects[0], ab) by {
            match effects[0] {
                FeatEffect::AbilityIncrease(a0, d) => {
                    assert(effect_fits(a, effects[0]));
                },
                FeatEffect::SkillProficiency(_) => {},
            }
        }
        lemma_apply_effects_delta(a1, effects.drop_first());
        assert forall|ab: Ability|
            #[trigger] spec_apply_effects(a, effects).spec_get(ab) == a.spec_get(ab)
                + spec_effects_delta(effects, ab) by {
            assert(spec_apply_effects(a, effects) == spec_apply_effects(
                a1,
                effects.drop_first(),
            ));
            assert(spec_apply_effects(a1, effects.drop_first()).spec_get(ab) == a1.spec_get(ab)
                + spec_effects_delta(effects.drop_first(), ab));
        }
    }
}

/// When every intermediate score fits, reversing an effect list subtracts
/// the list's net delta from each ability exactly.
pub proof fn lemma_unapply_effects_delta(a: Abilities, effects: Seq<FeatEffect>)
    requires
        effects_reverse_fit(a, effects),
    ensures
        forall|ab: Ability|
            #[trigger] spec_unapply_effects(a, effects).spec_get(ab) == a.spec_get(ab)
                - spec_effects_delta(effects, ab),
    decreases effects.len(),
{
    if effects.len() > 0 {
        let a1 = spec_unapply_effect(a, effects[0]);
        assert forall|ab: Ability|
            #[trigger] a1.spec_get(ab) == a.spec_get(ab) - spec_effect_delta(effects[0], ab) by {
            match effects[0] {
                FeatEffect::AbilityIncrease(a0, d) => {
                    assert(effect_reverse_fits(a, effects[0]));
                },
                FeatEffect::SkillProficiency(_) => {},
            }
        }
        lemma_unapply_effects_delta(a1, effects.drop_first());
        assert forall|ab: Ability|
            #[trigger] spec_unapply_effects(a, effects).spec_get(ab) == a.spec_get(ab)
                - spec_effects_delta(effects, ab) by {
            assert(spec_unapply_effects(a, effects) == spec_unapply_effects(
                a1,
                effects.drop_first(),
            ));
            assert(spec_unapply_effects(a1, effects.drop_first()).spec_get(ab) == a1.spec_get(ab)
                - spec_effects_delta(effects.drop_first(), ab));
        }
    }
}

/// Feat idempotence under learn and unlearn: learning a feat applies
/// `spec_apply_effects` to the scores and unlearning it applies
/// `spec_unapply_effects`, so a feat learned and then unlearned returns
/// every ability score to its value before the learn, exactly.
pub proof fn lemma_feat_round_trip(a: Abilities, effects: Seq<FeatEffect>)
    requires
        effects_fit(a, effects),
        effects_reverse_fit(spec_apply_effects(a, effects), effects),
    ensures
        spec_unapply_effects(spec_apply_effects(a, effects), effects) == a,
{
    let x = spec_apply_effects(a, effects);
    lemma_apply_effects_delta(a, effects);
    lemma_unapply_effects_delta(x, effects);
    let y = spec_unapply_effects(x, effects);
    assert(y.spec_get(Ability::Str) == a.spec_get(Ability::Str));
    assert(y.spec_get(Ability::Dex) == a.spec_get(Ability::Dex));
    assert(y.spec_get(Ability::Con) == a.spec_get(Ability::Con));
    assert(y.spec_get(Ability::Wis) == a.spec_get(Ability::Wis));
    assert(y.spec_get(Ability::Int) == a.spec_get(Ability::Int));
    assert(y.spec_get(Ability::Cha) == a.spec_get(Ability::Cha));
}

/// Round-trip race swap: starting from a character with no race and no
/// subrace, setting race `a` and then race `b` yields exactly `b`'s
/// bonuses applied to the original scores; `a`'s effects are fully
/// undone, not merely overwritten. `a` must be the race the datastore
/// holds under its name, since the engine undoes the stored definition.
pub proof fn lemma_race_swap_round_trip<'d>(
    c0: Character<'d>,
    a: Race,
    b: Race,
    c1: Character<'d>,
    c2: Character<'d>,
)
    requires
        !c0.spec_race_set(),
        !c0.spec_subrace_set(),
        a.name@.len() > 0,
        c0.data.spec_get_race(a.name@) == Some(a),
        Character::spec_set_race_ok(c0, a, c1),
        Character::spec_set_race_ok(c1, b, c2),
    ensures
        forall|ab: Ability|
            #[trigger] c2.abilities.spec_get(ab) == c0.abilities.spec_get(ab)
                + b.ability_bonuses.spec_get(ab),
        c2.race@ == b.name@,
        !c2.spec_subrace_set(),
{
    let z = spec_zero_array();
    assert(c0.spec_active_subrace_bonuses() == Some(z));
    assert(c0.spec_active_race_bonuses() == Some(z));
    let a1 = spec_sub_bonuses(c0.abilities, z);
    let a2 = spec_sub_bonuses(a1, z);
    lemma_sub_bonuses(c0.abilities, z);
    lemma_sub_bonuses(a1, z);
    lemma_add_bonuses(a2, a.ability_bonuses);
    assert(forall|ab: Ability|
        #[trigger] c1.abilities.spec_get(ab) == c0.abilities.spec_get(ab)
            + a.ability_bonuses.spec_get(ab));
    assert(c1.spec_race_set());
    assert(c1.data.spec_get_race(c1.race@) == Some(a));
    assert(c1.spec_active_race_bonuses() == Some(a.ability_bonuses));
    assert(c1.spec_active_subrace_bonuses() == Some(z));
    let b1 = spec_sub_bonuses(c1.abilities, z);
    let b2 = spec_sub_bonuses(b1, a.ability_bonuses);
    lemma_sub_bonuses(c1.abilities, z);
    lemma_sub_bonuses(b1, a.ability_bonuses);
    lemma_add_bonuses(b2, b.ability_bonuses);
}

/// Subrace cascade: a subrace applies on top of its parent race's
/// effects, and switching race afterwards clears the subrace and undoes
/// both the subrace's and the race's effects, leaving exactly the new
/// race's bonuses.
pub proof fn lemma_subrace_cleared_on_race_swap<'d>(
    c0: Character<'d>,
    a: Race,
    sub: Subrace,
    b: Race,
    c1: Character<'d>,
    c2: Character<'d>,
    c3: Character<'d>,
)
    requires
        !c0.spec_race_set(),
        !c0.spec_subrace_set(),
        a.name@.len() > 0,
        sub.name@.len() > 0,
        c0.data.spec_get_race(a.name@) == Some(a),
        a.spec_get_subrace(sub.name@) == Some(sub),
        Character::spec_set_race_ok(c0, a, c1),
        Character::spec_set_subrace_ok(c1, sub, c2),
        Character::spec_set_race_ok(c2, b, c3),
    ensures
        forall|ab: Ability|
            #[trigger] c2.abilities.spec_get(ab) == c0.abilities.spec_get(ab)
                + a.ability_bonuses.spec_get(ab) + sub.ability_bonuses.spec_get(ab),
        forall|ab: Ability|
            #[trigger] c3.abilities.spec_get(ab) == c0.abilities.spec_get(ab)
                + b.ability_bonuses.spec_get(ab),
        c3.race@ == b.name@,
        !c3.spec_subrace_set(),
{
    let z = spec_zero_array();
    // the first race swap starts from a bare character
    assert(c0.spec_active_subrace_bonuses() == Some(z));
    assert(c0.spec_active_race_bonuses() == Some(z));
    let a1 = spec_sub_bonuses(c0.abilities, z);
    let a2 = spec_sub_bonuses(a1, z);
    lemma_sub_bonuses(c0.abilities, z);
    lemma_sub_bonuses(a1, z);
    lemma_add_bonuses(a2, a.ability_bonuses);
    assert(forall|ab: Ability|
        #[trigger] c1.abilities.spec_get(ab) == c0.abilities.spec_get(ab)
            + a.ability_bonuses.spec_get(ab));
    // the subrace applies on top
    assert(c1.spec_active_subrace_bonuses() == Some(z));
    let s1 = spec_sub_bonuses(c1.abilities, z);
    lemma_sub_bonuses(c1.abilities, z);
    lemma_add_bonuses(s1, sub.ability_bonuses);
    assert(forall|ab: Ability|
        #[trigger] c2.abilities.spec_get(ab) == c1.abilities.spec_get(ab)
            + sub.ability_bonuses.spec_get(ab));
    // the second race swap undoes subrace and race
    assert(c2.race@ == a.name@ && c2.subrace@ == sub.name@);
    assert(c2.data.spec_get_race(c2.race@) == Some(a));
    assert(c2.spec_subrace_set());
    assert(c2.spec_active_subrace_bonuses() == Some(sub.ability_bonuses));
    assert(c2.spec_active_race_bonuses() == Some(a.ability_bonuses));
    let b1 = spec_sub_bonuses(c2.abilities, sub.ability_bonuses);
    let b2 = spec_sub_bonuses(b1, a.ability_bonuses);
    lemma_sub_bonuses(c2.abilities, sub.ability_bonuses);
    lemma_sub_bonuses(b1, a.ability_bonuses);
    lemma_add_bonuses(b2, b.ability_bonuses);
}

} // verus!
