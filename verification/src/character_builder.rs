//! The character builder: owns a character and the tables of races,
//! classes, feats, languages, weapons and spells it is built from, and
//! drives the set/unset protocol that applies and reverses provider
//! effects.

pub mod armor;
pub mod character;
pub mod classes;
pub mod feats;
pub mod language;
pub mod race;
pub mod size;
pub mod skill;
pub mod spells;
pub mod weapons;

use vstd::prelude::*;
use character::Character;
use character::WeaponOrArmor;
use character::attributes::Array;
use character::attributes::Attribute;
use character::attributes::Value;
use character::attributes::array_add_fits;
use character::attributes::array_sub_fits;
use character::attributes::add_array;
use character::attributes::spec_add_array;
use character::attributes::spec_sub_array;
use character::attributes::sub_array;
use character::find_spell;
use character::grant_saves;
use character::grant_skills;
use character::revoke_skills;
use character::spec_grant_skill_step;
use character::spec_revoke_skill_step;
use character::grant_weapon_armor_profs;
use character::revoke_saves;
use character::revoke_weapon_armor_profs;
use character::spec_grants;
use character::woa_eq;
use classes::Class;
use feats::Feat;
use feats::apply_increases;
use feats::increases_fit;
use feats::increases_reverse_fit;
use feats::reverse_increases;
use feats::spec_apply_increases;
use feats::spec_unapply_increases;
use language::Language;
use race::Race;
use race::Subrace;
use skill::Skill;
use skill::SkillLevel;
use spells::Spell;
use weapons::Weapon;
use crate::character::RulesError;
use crate::datastore::contains_skill;
use crate::datastore::find_skill_entry;
use crate::datastore::skill_eq;
use crate::lookup::Named;
use crate::lookup::contains_name;
use crate::lookup::find_by_key;
use crate::lookup::find_by_name;
use crate::lookup::insert_by_name;
use crate::lookup::names_set;

verus! {

type AttributeValue = Value;

#[derive(Clone, Copy, PartialEq, Eq, Structural, Debug)]
pub enum Die {
    D4,
    D6,
    D8,
    D12,
    D20,
}

/// One feat gained: the name is recorded and the effects are applied,
/// unless the feat was already gained.
pub open spec fn spec_feat_gained(f: Feat, fs: Set<Seq<char>>, a: Array) -> (Set<Seq<char>>, Array) {
    if fs.contains(f.key()) {
        (fs, a)
    } else {
        (fs.insert(f.key()), spec_apply_increases(a, f.spec_effects()))
    }
}

/// One feat removed: the effects are reversed and the name removed, if the
/// feat was gained at all.
pub open spec fn spec_feat_removed(f: Feat, fs: Set<Seq<char>>, a: Array) -> (Set<Seq<char>>, Array) {
    if fs.contains(f.key()) {
        (fs.remove(f.key()), spec_unapply_increases(a, f.spec_effects()))
    } else {
        (fs, a)
    }
}

pub open spec fn spec_feat_gain_fits(f: Feat, fs: Set<Seq<char>>, a: Array) -> bool {
    fs.contains(f.key()) || increases_fit(a, f.spec_effects())
}

pub open spec fn spec_feat_removal_fits(f: Feat, fs: Set<Seq<char>>, a: Array) -> bool {
    !fs.contains(f.key()) || increases_reverse_fit(a, f.spec_effects())
}

/// A list of feat names gained in order through the feat table; a name the
/// table does not hold is ignored.
pub open spec fn spec_feats_gained(
    table: Seq<Feat>,
    names: Seq<String>,
    k: int,
    fs: Set<Seq<char>>,
    a: Array,
) -> (Set<Seq<char>>, Array)
    decreases names.len() - k,
{
    if k < 0 || k >= names.len() {
        (fs, a)
    } else {
        match find_by_key(table, names[k]@) {
            Some(f) => {
                let (fs2, a2) = spec_feat_gained(f, fs, a);
                spec_feats_gained(table, names, k + 1, fs2, a2)
            },
            None => spec_feats_gained(table, names, k + 1, fs, a),
        }
    }
}

/// A list of feat names removed in order through the feat table.
pub open spec fn spec_feats_removed(
    table: Seq<Feat>,
    names: Seq<String>,
    k: int,
    fs: Set<Seq<char>>,
    a: Array,
) -> (Set<Seq<char>>, Array)
    decreases names.len() - k,
{
    if k < 0 || k >= names.len() {
        (fs, a)
    } else {
        match find_by_key(table, names[k]@) {
            Some(f) => {
                let (fs2, a2) = spec_feat_removed(f, fs, a);
                spec_feats_removed(table, names, k + 1, fs2, a2)
            },
            None => spec_feats_removed(table, names, k + 1, fs, a),
        }
    }
}

/// Every intermediate value stays representable while the feat list is
/// gained.
pub open spec fn spec_feats_gain_fits(
    table: Seq<Feat>,
    names: Seq<String>,
    k: int,
    fs: Set<Seq<char>>,
    a: Array,
) -> bool
    decreases names.len() - k,
{
    if k < 0 || k >= names.len() {
        true
    } else {
        match find_by_key(table, names[k]@) {
            Some(f) => spec_feat_gain_fits(f, fs, a) && {
                let (fs2, a2) = spec_feat_gained(f, fs, a);
                spec_feats_gain_fits(table, names, k + 1, fs2, a2)
            },
            None => spec_feats_gain_fits(table, names, k + 1, fs, a),
        }
    }
}

/// Every intermediate value stays representable while the feat list is
/// removed.
pub open spec fn spec_feats_removal_fits(
    table: Seq<Feat>,
    names: Seq<String>,
    k: int,
    fs: Set<Seq<char>>,
    a: Array,
) -> bool
    decreases names.len() - k,
{
    if k < 0 || k >= names.len() {
        true
    } else {
        match find_by_key(table, names[k]@) {
            Some(f) => spec_feat_removal_fits(f, fs, a) && {
                let (fs2, a2) = spec_feat_removed(f, fs, a);
                spec_feats_removal_fits(table, names, k + 1, fs2, a2)
            },
            None => spec_feats_removal_fits(table, names, k + 1, fs, a),
        }
    }
}

/// Records one feat on the character and applies its effects, unless the
/// character already has it.
fn feat_to_char(feat: &Feat, ch: &mut Character)
    requires
        old(ch).wf(),
        spec_feat_gain_fits(*feat, names_set(old(ch).feats@), old(ch).attributes),
    ensures
        final(ch).wf(),
        names_set(final(ch).feats@) == spec_feat_gained(
            *feat,
            names_set(old(ch).feats@),
            old(ch).attributes,
        ).0,
        final(ch).attributes == spec_feat_gained(
            *feat,
            names_set(old(ch).feats@),
            old(ch).attributes,
        ).1,
        *final(ch) == (Character {
            feats: final(ch).feats,
            attributes: final(ch).attributes,
            ..*old(ch)
        }),
{
    if ch.has_feat(feat.name()) {
        proof {
            assert(names_set(ch.feats@).contains(feat.key()));
        }
        return ;
    }
    proof {
        assert(!names_set(ch.feats@).contains(feat.key()));
    }
    let name_owned: String = feat.name().to_string();
    ch.add_feat(name_owned);
    proof {
        assert(names_set(ch.feats@) =~= names_set(old(ch).feats@).insert(feat.key()));
    }
    match feat {
        Feat::Mechanical(m) => {
            apply_increases(&mut ch.attributes, &m.effects);
        },
        Feat::NonMechanical(_) => {
            proof {
                assert(feat.spec_effects() =~= Seq::<(Attribute, Value)>::empty());
                assert(spec_apply_increases(ch.attributes, feat.spec_effects()) == ch.attributes);
            }
        },
    }
}

/// Reverses one feat's effects on the character and removes its name, if
/// the character has it.
fn feat_from_char(feat: &Feat, ch: &mut Character)
    requires
        old(ch).wf(),
        spec_feat_removal_fits(*feat, names_set(old(ch).feats@), old(ch).attributes),
    ensures
        final(ch).wf(),
        names_set(final(ch).feats@) == spec_feat_removed(
            *feat,
            names_set(old(ch).feats@),
            old(ch).attributes,
        ).0,
        final(ch).attributes == spec_feat_removed(
            *feat,
            names_set(old(ch).feats@),
            old(ch).attributes,
        ).1,
        *final(ch) == (Character {
            feats: final(ch).feats,
            attributes: final(ch).attributes,
            ..*old(ch)
        }),
{
    if !ch.has_feat(feat.name()) {
        proof {
            assert(!names_set(ch.feats@).contains(feat.key()));
        }
        return ;
    }
    proof {
        assert(names_set(ch.feats@).contains(feat.key()));
    }
    match feat {
        Feat::Mechanical(m) => {
            reverse_increases(&mut ch.attributes, &m.effects);
        },
        Feat::NonMechanical(_) => {
            proof {
                assert(feat.spec_effects() =~= Seq::<(Attribute, Value)>::empty());
                assert(spec_unapply_increases(ch.attributes, feat.spec_effects()) == ch.attributes);
            }
        },
    }
    ch.remove_feat(feat.name());
    proof {
        assert(names_set(ch.feats@) =~= names_set(old(ch).feats@).remove(feat.key()));
    }
}

/// Gains a list of feats by name through the feat table.
fn feats_to_char(table: &Vec<Feat>, names: &Vec<String>, ch: &mut Character)
    requires
        old(ch).wf(),
        spec_feats_gain_fits(table@, names@, 0, names_set(old(ch).feats@), old(ch).attributes),
    ensures
        final(ch).wf(),
        (names_set(final(ch).feats@), final(ch).attributes) == spec_feats_gained(
            table@,
            names@,
            0,
            names_set(old(ch).feats@),
            old(ch).attributes,
        ),
        *final(ch) == (Character {
            feats: final(ch).feats,
            attributes: final(ch).attributes,
            ..*old(ch)
        }),
{
    let ghost fs0 = names_set(old(ch).feats@);
    let ghost a0 = old(ch).attributes;
    let n = names.len();
    let mut i: usize = 0;
    while i < n
        invariant
            n == names@.len(),
            0 <= i <= n,
            ch.wf(),
            spec_feats_gained(table@, names@, 0, fs0, a0) == spec_feats_gained(
                table@,
                names@,
                i as int,
                names_set(ch.feats@),
                ch.attributes,
            ),
            spec_feats_gain_fits(table@, names@, i as int, names_set(ch.feats@), ch.attributes),
            *ch == (Character { feats: ch.feats, attributes: ch.attributes, ..*old(ch) }),
        decreases n - i,
    {
        match find_by_name(table, names[i].as_str()) {
            Some(f) => {
                feat_to_char(f, ch);
            },
            None => {},
        }
        i += 1;
    }
}

/// Removes a list of feats by name through the feat table.
fn feats_from_char(table: &Vec<Feat>, names: &Vec<String>, ch: &mut Character)
    requires
        old(ch).wf(),
        spec_feats_removal_fits(table@, names@, 0, names_set(old(ch).feats@), old(ch).attributes),
    ensures
        final(ch).wf(),
        (names_set(final(ch).feats@), final(ch).attributes) == spec_feats_removed(
            table@,
            names@,
            0,
            names_set(old(ch).feats@),
            old(ch).attributes,
        ),
        *final(ch) == (Character {
            feats: final(ch).feats,
            attributes: final(ch).attributes,
            ..*old(ch)
        }),
{
    let ghost fs0 = names_set(old(ch).feats@);
    let ghost a0 = old(ch).attributes;
    let n = names.len();
    let mut i: usize = 0;
    while i < n
        invariant
            n == names@.len(),
            0 <= i <= n,
            ch.wf(),
            spec_feats_removed(table@, names@, 0, fs0, a0) == spec_feats_removed(
                table@,
                names@,
                i as int,
                names_set(ch.feats@),
                ch.attributes,
            ),
            spec_feats_removal_fits(table@, names@, i as int, names_set(ch.feats@), ch.attributes),
            *ch == (Character { feats: ch.feats, attributes: ch.attributes, ..*old(ch) }),
        decreases n - i,
    {
        match find_by_name(table, names[i].as_str()) {
            Some(f) => {
                feat_from_char(f, ch);
            },
            None => {},
        }
        i += 1;
    }
}

pub struct Builder {
    pub character: Character,
    pub races: Vec<Race>,
    pub languages: Vec<Language>,
    pub feats: Vec<Feat>,
    pub weapons: Vec<Weapon>,
    pub spells: Vec<Spell>,
    pub classes: Vec<Class>,
}

impl Builder {
    pub open spec fn wf(self) -> bool {
        self.character.wf()
    }

    /// What the undo of the currently set race (with its subrace and all
    /// their feats) leaves of the feat set and the attributes, or nothing
    /// when a stored name cannot be resolved.
    pub open spec fn spec_race_undo(self) -> Option<(Set<Seq<char>>, Array)> {
        let fs = names_set(self.character.feats@);
        let a = self.character.attributes;
        match self.character.race {
            None => Some((fs, a)),
            Some(rn) => match find_by_key(self.races@, rn@) {
                None => None,
                Some(old_race) => {
                    let a1 = spec_sub_array(a, old_race.attributes);
                    let (fs2, a2) = spec_feats_removed(self.feats@, old_race.feats@, 0, fs, a1);
                    match self.character.subrace {
                        None => Some((fs2, a2)),
                        Some(sn) => match find_by_key(old_race.subraces@, sn@) {
                            None => None,
                            Some(sr) => {
                                let a3 = spec_sub_array(a2, sr.attributes);
                                Some(spec_feats_removed(self.feats@, sr.feats@, 0, fs2, a3))
                            },
                        },
                    }
                },
            },
        }
    }

    /// The machine-limit side condition of undoing the current race. An
    /// undo that is refused anyway needs no side condition.
    pub open spec fn spec_race_undo_fits(self) -> bool {
        self.spec_race_undo() is None || {
            let fs = names_set(self.character.feats@);
            let a = self.character.attributes;
            match self.character.race {
                None => true,
                Some(rn) => match find_by_key(self.races@, rn@) {
                    None => true,
                    Some(old_race) => {
                        let a1 = spec_sub_array(a, old_race.attributes);
                        let (fs2, a2) = spec_feats_removed(
                            self.feats@,
                            old_race.feats@,
                            0,
                            fs,
                            a1,
                        );
                        &&& array_sub_fits(a, old_race.attributes)
                        &&& spec_feats_removal_fits(self.feats@, old_race.feats@, 0, fs, a1)
                        &&& match self.character.subrace {
                            None => true,
                            Some(sn) => match find_by_key(old_race.subraces@, sn@) {
                                None => true,
                                Some(sr) => {
                                    let a3 = spec_sub_array(a2, sr.attributes);
                                    &&& array_sub_fits(a2, sr.attributes)
                                    &&& spec_feats_removal_fits(
                                        self.feats@,
                                        sr.feats@,
                                        0,
                                        fs2,
                                        a3,
                                    )
                                },
                            },
                        }
                    },
                },
            }
        }
    }

    /// The machine-limit side condition of a whole race change. A change
    /// that is refused anyway needs no side condition.
    pub open spec fn spec_set_race_fits(self, name: Seq<char>) -> bool {
        match (self.spec_race_undo(), find_by_key(self.races@, name)) {
            (Some(u), Some(nr)) => {
                let a1 = spec_add_array(u.1, nr.attributes);
                &&& self.spec_race_undo_fits()
                &&& array_add_fits(u.1, nr.attributes)
                &&& spec_feats_gain_fits(self.feats@, nr.feats@, 0, u.0, a1)
            },
            _ => true,
        }
    }

    pub fn new() -> (r: Self)
        ensures
            r.wf(),
            r.character.name is None,
            r.character.level == 1,
            forall|a: Attribute| r.character.attributes.spec_get(a) == 10,
            r.character.race is None,
            r.character.subrace is None,
            r.character.size is None,
            r.character.speed is None,
            r.character.class is None,
            r.character.hit_die is None,
            r.character.languages@ == Seq::<String>::empty(),
            r.character.skills@ == Seq::<(Skill, SkillLevel)>::empty(),
            r.character.feats@ == Seq::<String>::empty(),
            r.character.spells@ == Seq::<(String, Attribute)>::empty(),
            r.character.weapon_category_proficiencies@ == Seq::<
                crate::character_builder::weapons::WeaponCategory,
            >::empty(),
            r.character.armor_proficiencies@ == Seq::<
                crate::character_builder::armor::ArmorCategory,
            >::empty(),
            r.character.weapon_proficiencies@ == Seq::<String>::empty(),
            r.character.saving_throws@ == Seq::<Attribute>::empty(),
            r.races@.len() == 0,
            r.languages@.len() == 0,
            r.feats@.len() == 0,
            r.weapons@.len() == 0,
            r.spells@.len() == 0,
            r.classes@.len() == 0,
    {
        Builder {
            character: Character::new(),
            races: Vec::new(),
            languages: Vec::new(),
            feats: Vec::new(),
            weapons: Vec::new(),
            spells: Vec::new(),
            classes: Vec::new(),
        }
    }

    pub fn set_name(&mut self, name: String)
        ensures
            final(self).character == (Character { name: Some(name), ..old(self).character }),
            *final(self) == (Builder { character: final(self).character, ..*old(self) }),
    {
        self.character.set_name(name);
    }

    pub fn character(&self) -> (r: &Character)
        ensures
            *r == self.character,
    {
        &self.character
    }

    pub fn set_attribute(&mut self, attribute: Attribute, value: AttributeValue)
        ensures
            final(self).character == (Character {
                attributes: old(self).character.attributes.spec_set(attribute, value),
                ..old(self).character
            }),
            *final(self) == (Builder { character: final(self).character, ..*old(self) }),
    {
        self.character.set_attribute(attribute, value);
    }

    pub fn add_weapon_or_armor_proficiency_to_character(&mut self, prof: &WeaponOrArmor)
        requires
            old(self).wf(),
        ensures
            final(self).wf(),
            forall|p: WeaponOrArmor|
                #[trigger] final(self).character.spec_proficient_with(p) <==> old(
                    self,
                ).character.spec_proficient_with(p) || woa_eq(*prof, p),
            final(self).character == (Character {
                weapon_category_proficiencies: final(self).character.weapon_category_proficiencies,
                armor_proficiencies: final(self).character.armor_proficiencies,
                weapon_proficiencies: final(self).character.weapon_proficiencies,
                ..old(self).character
            }),
            *final(self) == (Builder { character: final(self).character, ..*old(self) }),
    {
        self.character.add_weapon_or_armor_proficiency(prof);
    }

    /// Adds a race definition, replacing any race of the same name.
    pub fn add_race(&mut self, race: Race)
        ensures
            forall|n: Seq<char>|
                #[trigger] find_by_key(final(self).races@, n) == if n == race.name@ {
                    Some(race)
                } else {
                    find_by_key(old(self).races@, n)
                },
            *final(self) == (Builder { races: final(self).races, ..*old(self) }),
    {
        insert_by_name(&mut self.races, race);
    }

    /// Adds a weapon definition, replacing any weapon of the same name.
    pub fn add_weapon(&mut self, weapon: Weapon)
        ensures
            forall|n: Seq<char>|
                #[trigger] find_by_key(final(self).weapons@, n) == if n == weapon.name@ {
                    Some(weapon)
                } else {
                    find_by_key(old(self).weapons@, n)
                },
            *final(self) == (Builder { weapons: final(self).weapons, ..*old(self) }),
    {
        insert_by_name(&mut self.weapons, weapon);
    }

    /// Adds a spell definition, replacing any spell of the same name.
    pub fn add_spell(&mut self, spell: Spell)
        ensures
            forall|n: Seq<char>|
                #[trigger] find_by_key(final(self).spells@, n) == if n == spell.name@ {
                    Some(spell)
                } else {
                    find_by_key(old(self).spells@, n)
                },
            *final(self) == (Builder { spells: final(self).spells, ..*old(self) }),
    {
        insert_by_name(&mut self.spells, spell);
    }

    /// Adds a class definition, replacing any class of the same name.
    pub fn add_class(&mut self, class: Class)
        ensures
            forall|n: Seq<char>|
                #[trigger] find_by_key(final(self).classes@, n) == if n == class.name@ {
                    Some(class)
                } else {
                    find_by_key(old(self).classes@, n)
                },
            *final(self) == (Builder { classes: final(self).classes, ..*old(self) }),
    {
        insert_by_name(&mut self.classes, class);
    }

    /// Adds a language definition, replacing any language of the same
    /// name.
    pub fn add_language(&mut self, language: Language)
        ensures
            forall|n: Seq<char>|
                #[trigger] find_by_key(final(self).languages@, n) == if n == language.name@ {
                    Some(language)
                } else {
                    find_by_key(old(self).languages@, n)
                },
            *final(self) == (Builder { languages: final(self).languages, ..*old(self) }),
    {
        insert_by_name(&mut self.languages, language);
    }

    /// Adds a feat definition, replacing any feat of the same name.
    pub fn add_feat(&mut self, feat: Feat)
        ensures
            forall|n: Seq<char>|
                #[trigger] find_by_key(final(self).feats@, n) == if n == feat.key() {
                    Some(feat)
                } else {
                    find_by_key(old(self).feats@, n)
                },
            *final(self) == (Builder { feats: final(self).feats, ..*old(self) }),
    {
        insert_by_name(&mut self.feats, feat);
    }

    /// Records a learned spell on the character with its casting ability,
    /// replacing any earlier entry for the same spell name.
    pub fn learn_spell(&mut self, spell: &str, spellcasting_ability: Attribute)
        ensures
            match find_spell(final(self).character.spells@, spell@) {
                Some(p) => p.0@ == spell@ && p.1 == spellcasting_ability,
                None => false,
            },
            forall|n: Seq<char>|
                n != spell@ ==> #[trigger] find_spell(final(self).character.spells@, n)
                    == find_spell(old(self).character.spells@, n),
            final(self).character == (Character {
                spells: final(self).character.spells,
                ..old(self).character
            }),
            *final(self) == (Builder { character: final(self).character, ..*old(self) }),
    {
        self.character.add_spell(spell.to_string(), spellcasting_ability);
    }

    /// Teaches the character a language; learning one twice is a no-op.
    pub fn add_character_language(&mut self, language: &str)
        requires
            old(self).wf(),
        ensures
            final(self).wf(),
            forall|n: Seq<char>|
                #[trigger] contains_name(final(self).character.languages@, n) <==> contains_name(
                    old(self).character.languages@,
                    n,
                ) || n == language@,
            final(self).character == (Character {
                languages: final(self).character.languages,
                ..old(self).character
            }),
            *final(self) == (Builder { character: final(self).character, ..*old(self) }),
    {
        self.character.add_language(language.to_string());
    }

    /// Sets the character's own level in a skill.
    pub fn set_skill_level(&mut self, skill: &Skill, level: SkillLevel)
        ensures
            forall|k: Skill|
                #[trigger] find_skill_entry(final(self).character.skills@, k) == if skill_eq(
                    *skill,
                    k,
                ) {
                    Some(level)
                } else {
                    find_skill_entry(old(self).character.skills@, k)
                },
            final(self).character == (Character {
                skills: final(self).character.skills,
                ..old(self).character
            }),
            *final(self) == (Builder { character: final(self).character, ..*old(self) }),
    {
        self.character.set_skill_level(skill, level);
    }


    /// Why a class change would be refused: the new class must exist, and
    /// so must the definition of any currently set class, since its
    /// effects have to be reversed first.
    pub open spec fn spec_class_undo_ok(self) -> bool {
        match self.character.class {
            None => true,
            Some(cn) => find_by_key(self.classes@, cn@) is Some,
        }
    }

    /// What the currently set class grants as combat proficiencies.
    pub open spec fn spec_old_class_grants(self, p: WeaponOrArmor) -> bool {
        match self.character.class {
            None => false,
            Some(cn) => match find_by_key(self.classes@, cn@) {
                Some(c) => spec_grants(c.weapon_and_armor_proficiencies@, p),
                None => false,
            },
        }
    }

    /// What the currently set class grants as skill proficiencies.
    pub open spec fn spec_old_class_grants_skill(self, k: Skill) -> bool {
        match self.character.class {
            None => false,
            Some(cn) => match find_by_key(self.classes@, cn@) {
                Some(c) => contains_skill(c.skill_proficiencies@, k),
                None => false,
            },
        }
    }

    /// What the currently set class grants as saving throw proficiencies.
    pub open spec fn spec_old_class_saves(self, a: Attribute) -> bool {
        match self.character.class {
            None => false,
            Some(cn) => match find_by_key(self.classes@, cn@) {
                Some(c) => c.saving_throws@.contains(a),
                None => false,
            },
        }
    }

    /// Selects a class: the effects of the old class, if any, are reversed
    /// first (a granted skill standing at plain Proficient falls back to
    /// Untrained, and granted proficiencies are removed, even where
    /// another source also granted them - a known simplification), then
    /// the new class's hit die, proficiencies, skills and saving throws
    /// are applied; a skill grant raises an untrained skill to Proficient
    /// and never downgrades an explicit higher level. A failed lookup
    /// leaves the builder unchanged.
    pub fn set_class(&mut self, class: &str) -> (r: Result<(), RulesError>)
        requires
            old(self).wf(),
        ensures
            final(self).wf(),
            r is Ok <==> (find_by_key(old(self).classes@, class@) is Some && old(
                self,
            ).spec_class_undo_ok()),
            r is Err ==> *final(self) == *old(self) && r == Err::<(), RulesError>(
                RulesError::NotFound,
            ),
            r is Ok ==> {
                let nc = find_by_key(old(self).classes@, class@)->Some_0;
                &&& forall|p: WeaponOrArmor|
                    #[trigger] final(self).character.spec_proficient_with(p)
                        <==> (old(self).character.spec_proficient_with(p) && !old(
                        self,
                    ).spec_old_class_grants(p))
                        || spec_grants(nc.weapon_and_armor_proficiencies@, p)
                &&& forall|k: Skill|
                    #[trigger] find_skill_entry(final(self).character.skills@, k)
                        == spec_grant_skill_step(
                        spec_revoke_skill_step(
                            find_skill_entry(old(self).character.skills@, k),
                            old(self).spec_old_class_grants_skill(k),
                        ),
                        contains_skill(nc.skill_proficiencies@, k),
                    )
                &&& forall|a: Attribute|
                    #[trigger] final(self).character.saving_throws@.contains(a)
                        <==> (old(self).character.saving_throws@.contains(a) && !old(
                        self,
                    ).spec_old_class_saves(a))
                        || nc.saving_throws@.contains(a)
                &&& final(self).character.class matches Some(c) && c@ == class@
                &&& final(self).character.hit_die == Some(nc.hit_die)
                &&& final(self).character == (Character {
                    class: final(self).character.class,
                    hit_die: final(self).character.hit_die,
                    skills: final(self).character.skills,
                    saving_throws: final(self).character.saving_throws,
                    weapon_category_proficiencies: final(self).character.weapon_category_proficiencies,
                    armor_proficiencies: final(self).character.armor_proficiencies,
                    weapon_proficiencies: final(self).character.weapon_proficiencies,
                    ..old(self).character
                })
                &&& *final(self) == (Builder { character: final(self).character, ..*old(self) })
            },
    {
        if find_by_name(&self.classes, class).is_none() {
            return Err(RulesError::NotFound);
        }
        let old_name: Option<String> = match &self.character.class {
            Some(c) => Some(c.clone()),
            None => None,
        };
        match &old_name {
            Some(cn) => {
                match find_by_name(&self.classes, cn.as_str()) {
                    None => {
                        return Err(RulesError::NotFound);
                    },
                    Some(old_class) => {
                        let ghost pre = *old(self);
                        revoke_weapon_armor_profs(
                            &mut self.character,
                            &old_class.weapon_and_armor_proficiencies,
                        );
                        let ghost q1 = self.character;
                        revoke_skills(&mut self.character, &old_class.skill_proficiencies);
                        let ghost q2 = self.character;
                        revoke_saves(&mut self.character, &old_class.saving_throws);
                        proof {
                            let oc = *old_class;
                            assert forall|p: WeaponOrArmor| #[trigger]
                                self.character.spec_proficient_with(p) <==> (
                            pre.character.spec_proficient_with(p) && !pre.spec_old_class_grants(
                                p,
                            )) by {
                                assert(pre.spec_old_class_grants(p) == spec_grants(
                                    oc.weapon_and_armor_proficiencies@,
                                    p,
                                ));
                                assert(q1.spec_proficient_with(p) <==> (
                                pre.character.spec_proficient_with(p) && !spec_grants(
                                    oc.weapon_and_armor_proficiencies@,
                                    p,
                                )));
                                assert(q2.spec_proficient_with(p) == q1.spec_proficient_with(p));
                                assert(self.character.spec_proficient_with(p)
                                    == q2.spec_proficient_with(p));
                            }
                            assert forall|k: Skill| #[trigger]
                                find_skill_entry(self.character.skills@, k)
                                == spec_revoke_skill_step(
                                find_skill_entry(pre.character.skills@, k),
                                pre.spec_old_class_grants_skill(k),
                            ) by {
                                assert(pre.spec_old_class_grants_skill(k) == contains_skill(
                                    oc.skill_proficiencies@,
                                    k,
                                ));
                                assert(q1.skills == pre.character.skills);
                                assert(find_skill_entry(q2.skills@, k) == spec_revoke_skill_step(
                                    find_skill_entry(q1.skills@, k),
                                    contains_skill(oc.skill_proficiencies@, k),
                                ));
                                assert(self.character.skills == q2.skills);
                            }
                            assert forall|a: Attribute| #[trigger]
                                self.character.saving_throws@.contains(a) <==> (
                            pre.character.saving_throws@.contains(a) && !pre.spec_old_class_saves(
                                a,
                            )) by {
                                assert(pre.spec_old_class_saves(a) == oc.saving_throws@.contains(a));
                                assert(q2.saving_throws == pre.character.saving_throws);
                                assert(self.character.saving_throws@.contains(a) <==> (
                                q2.saving_throws@.contains(a) && !oc.saving_throws@.contains(a)));
                            }
                        }
                    },
                }
            },
            None => {
                proof {
                    assert forall|p: WeaponOrArmor| #[trigger]
                        self.character.spec_proficient_with(p) <==> (old(
                            self,
                        ).character.spec_proficient_with(p) && !old(self).spec_old_class_grants(p)) by {
                        assert(!old(self).spec_old_class_grants(p));
                    }
                }
            },
        }
        let ghost mid1 = self.character;
        proof {
            assert forall|p: WeaponOrArmor| #[trigger]
                mid1.spec_proficient_with(p) <==> (old(self).character.spec_proficient_with(p)
                    && !old(self).spec_old_class_grants(p)) by {}
            assert forall|k: Skill| #[trigger]
                find_skill_entry(mid1.skills@, k) == spec_revoke_skill_step(
                    find_skill_entry(old(self).character.skills@, k),
                    old(self).spec_old_class_grants_skill(k),
                ) by {
                if old(self).character.class is None {
                    assert(!old(self).spec_old_class_grants_skill(k));
                }
            }
            assert forall|a: Attribute| #[trigger]
                mid1.saving_throws@.contains(a) <==> (old(self).character.saving_throws@.contains(a)
                    && !old(self).spec_old_class_saves(a)) by {
                if old(self).character.class is None {
                    assert(!old(self).spec_old_class_saves(a));
                }
            }
        }
        match find_by_name(&self.classes, class) {
            Some(new_class) => {
                self.character.set_class(class.to_string());
                self.character.set_hit_die(new_class.hit_die);
                let ghost mid2 = self.character;
                grant_weapon_armor_profs(
                    &mut self.character,
                    &new_class.weapon_and_armor_proficiencies,
                );
                let ghost mid3 = self.character;
                grant_skills(&mut self.character, &new_class.skill_proficiencies);
                let ghost mid4 = self.character;
                grant_saves(&mut self.character, &new_class.saving_throws);
                proof {
                    assert forall|p: WeaponOrArmor| #[trigger]
                        self.character.spec_proficient_with(p) <==> (old(
                            self,
                        ).character.spec_proficient_with(p) && !old(self).spec_old_class_grants(p))
                        || spec_grants(new_class.weapon_and_armor_proficiencies@, p) by {
                        assert(mid2.spec_proficient_with(p) == mid1.spec_proficient_with(p));
                        assert(mid3.spec_proficient_with(p) <==> mid2.spec_proficient_with(p)
                            || spec_grants(new_class.weapon_and_armor_proficiencies@, p));
                        assert(mid4.spec_proficient_with(p) == mid3.spec_proficient_with(p));
                        assert(self.character.spec_proficient_with(p) == mid4.spec_proficient_with(
                            p,
                        ));
                    }
                    assert forall|k: Skill| #[trigger]
                        find_skill_entry(self.character.skills@, k) == spec_grant_skill_step(
                        spec_revoke_skill_step(
                            find_skill_entry(old(self).character.skills@, k),
                            old(self).spec_old_class_grants_skill(k),
                        ),
                        contains_skill(new_class.skill_proficiencies@, k),
                    ) by {
                        assert(mid3.skills == mid2.skills && mid2.skills == mid1.skills);
                        assert(find_skill_entry(mid4.skills@, k) == spec_grant_skill_step(
                            find_skill_entry(mid3.skills@, k),
                            contains_skill(new_class.skill_proficiencies@, k),
                        ));
                        assert(self.character.skills == mid4.skills);
                    }
                    assert forall|a: Attribute| #[trigger]
                        self.character.saving_throws@.contains(a) <==> (old(
                            self,
                        ).character.saving_throws@.contains(a) && !old(self).spec_old_class_saves(a))
                        || new_class.saving_throws@.contains(a) by {
                        assert(mid4.saving_throws == mid1.saving_throws);
                        assert(self.character.saving_throws@.contains(a)
                            <==> mid4.saving_throws@.contains(a) || new_class.saving_throws@.contains(
                            a,
                        ));
                    }
                }
                Ok(())
            },
            None => {
                proof {
                    assert(false);
                }
                Err(RulesError::NotFound)
            },
        }
    }

    /// Reverses the effects of the current race (and of its subrace, and
    /// of all their feats) and clears the race, subrace and size. A stored
    /// name that cannot be resolved leaves the builder unchanged.
    fn unset_race(&mut self) -> (r: Result<(), RulesError>)
        requires
            old(self).wf(),
            old(self).spec_race_undo_fits(),
        ensures
            final(self).wf(),
            r is Ok <==> old(self).spec_race_undo() is Some,
            r is Err ==> *final(self) == *old(self) && r == Err::<(), RulesError>(
                RulesError::NotFound,
            ),
            r is Ok ==> {
                let u = old(self).spec_race_undo()->Some_0;
                &&& names_set(final(self).character.feats@) == u.0
                &&& final(self).character.attributes == u.1
                &&& final(self).character == (Character {
                    attributes: final(self).character.attributes,
                    feats: final(self).character.feats,
                    race: None,
                    subrace: None,
                    size: None,
                    ..old(self).character
                })
                &&& *final(self) == (Builder { character: final(self).character, ..*old(self) })
            },
    {
        let race_name: Option<String> = match &self.character.race {
            Some(rn) => Some(rn.clone()),
            None => None,
        };
        match &race_name {
            None => {
                self.character.clear_race();
                self.character.clear_subrace();
                self.character.clear_size();
                Ok(())
            },
            Some(rn) => {
                match find_by_name(&self.races, rn.as_str()) {
                    None => Err(RulesError::NotFound),
                    Some(old_race) => {
                        let subrace_name: Option<String> = match &self.character.subrace {
                            Some(sn) => Some(sn.clone()),
                            None => None,
                        };
                        match &subrace_name {
                            Some(sn) => {
                                match find_by_name(&old_race.subraces, sn.as_str()) {
                                    None => {
                                        return Err(RulesError::NotFound);
                                    },
                                    Some(sr) => {
                                        sub_array(
                                            &mut self.character.attributes,
                                            &old_race.attributes,
                                        );
                                        feats_from_char(
                                            &self.feats,
                                            &old_race.feats,
                                            &mut self.character,
                                        );
                                        sub_array(&mut self.character.attributes, &sr.attributes);
                                        feats_from_char(&self.feats, &sr.feats, &mut self.character);
                                    },
                                }
                            },
                            None => {
                                sub_array(&mut self.character.attributes, &old_race.attributes);
                                feats_from_char(&self.feats, &old_race.feats, &mut self.character);
                            },
                        }
                        self.character.clear_race();
                        self.character.clear_subrace();
                        self.character.clear_size();
                        Ok(())
                    },
                }
            },
        }
    }

    /// Sets the race of the character: the old race's effects (attribute
    /// bonuses and granted feats, and its subrace's) are fully undone,
    /// then the new race's are applied and its size and speed recorded;
    /// switching race clears the subrace. A failed lookup leaves the
    /// builder unchanged.
    pub fn set_race(&mut self, race: &str) -> (r: Result<(), RulesError>)
        requires
            old(self).wf(),
            old(self).spec_set_race_fits(race@),
        ensures
            final(self).wf(),
            r is Ok <==> (old(self).spec_race_undo() is Some && find_by_key(
                old(self).races@,
                race@,
            ) is Some),
            r is Err ==> *final(self) == *old(self) && r == Err::<(), RulesError>(
                RulesError::NotFound,
            ),
            r is Ok ==> {
                let u = old(self).spec_race_undo()->Some_0;
                let nr = find_by_key(old(self).races@, race@)->Some_0;
                let applied = spec_feats_gained(
                    old(self).feats@,
                    nr.feats@,
                    0,
                    u.0,
                    spec_add_array(u.1, nr.attributes),
                );
                &&& names_set(final(self).character.feats@) == applied.0
                &&& final(self).character.attributes == applied.1
                &&& final(self).character.race matches Some(n) && n@ == race@
                &&& final(self).character.subrace is None
                &&& final(self).character.size == Some(nr.size)
                &&& final(self).character.speed == Some(nr.speed)
                &&& final(self).character == (Character {
                    attributes: final(self).character.attributes,
                    feats: final(self).character.feats,
                    race: final(self).character.race,
                    subrace: None,
                    size: final(self).character.size,
                    speed: final(self).character.speed,
                    ..old(self).character
                })
                &&& *final(self) == (Builder { character: final(self).character, ..*old(self) })
            },
    {
        if find_by_name(&self.races, race).is_none() {
            return Err(RulesError::NotFound);
        }
        match self.unset_race() {
            Err(e) => {
                return Err(e);
            },
            Ok(()) => {},
        }
        self.character.set_race(race.to_string());
        match find_by_name(&self.races, race) {
            Some(new_race) => {
                add_array(&mut self.character.attributes, &new_race.attributes);
                feats_to_char(&self.feats, &new_race.feats, &mut self.character);
                self.character.set_size(new_race.size);
                self.character.set_speed(new_race.speed);
                Ok(())
            },
            None => {
                proof {
                    assert(false);
                }
                Err(RulesError::NotFound)
            },
        }
    }

    /// Why a subrace change would be refused: a race must be set, its
    /// definition and the new subrace must exist, and so must the
    /// definition of any currently set subrace, whose effects have to be
    /// reversed first.
    pub open spec fn spec_set_subrace_failure(self, name: Seq<char>) -> Option<RulesError> {
        match self.character.race {
            None => Some(RulesError::PreconditionViolated),
            Some(rn) => match find_by_key(self.races@, rn@) {
                None => Some(RulesError::NotFound),
                Some(r) => if find_by_key(r.subraces@, name) is None {
                    Some(RulesError::NotFound)
                } else {
                    match self.character.subrace {
                        None => None,
                        Some(sn) => if find_by_key(r.subraces@, sn@) is None {
                            Some(RulesError::NotFound)
                        } else {
                            None
                        },
                    }
                },
            },
        }
    }

    /// What undoing the current subrace leaves of the feat set and the
    /// attributes (the identity when no subrace is set; meaningful only
    /// when every stored name resolves).
    pub open spec fn spec_subrace_undo(self) -> (Set<Seq<char>>, Array) {
        let fs = names_set(self.character.feats@);
        let a = self.character.attributes;
        match self.character.race {
            None => (fs, a),
            Some(rn) => match find_by_key(self.races@, rn@) {
                None => (fs, a),
                Some(r) => match self.character.subrace {
                    None => (fs, a),
                    Some(sn) => match find_by_key(r.subraces@, sn@) {
                        None => (fs, a),
                        Some(sr) => spec_feats_removed(
                            self.feats@,
                            sr.feats@,
                            0,
                            fs,
                            spec_sub_array(a, sr.attributes),
                        ),
                    },
                },
            },
        }
    }

    /// The feat set and attributes after swapping to the named subrace.
    pub open spec fn spec_subrace_result(self, name: Seq<char>) -> (Set<Seq<char>>, Array) {
        let u = self.spec_subrace_undo();
        match self.character.race {
            None => u,
            Some(rn) => match find_by_key(self.races@, rn@) {
                None => u,
                Some(r) => match find_by_key(r.subraces@, name) {
                    None => u,
                    Some(nsr) => spec_feats_gained(
                        self.feats@,
                        nsr.feats@,
                        0,
                        u.0,
                        spec_add_array(u.1, nsr.attributes),
                    ),
                },
            },
        }
    }

    /// The machine-limit side condition of a subrace change. A change that
    /// is refused anyway needs no side condition.
    pub open spec fn spec_set_subrace_fits(self, name: Seq<char>) -> bool {
        self.spec_set_subrace_failure(name) is Some || {
            let fs = names_set(self.character.feats@);
            let a = self.character.attributes;
            match self.character.race {
                None => true,
                Some(rn) => match find_by_key(self.races@, rn@) {
                    None => true,
                    Some(r) => {
                        let undo_fits = match self.character.subrace {
                            None => true,
                            Some(sn) => match find_by_key(r.subraces@, sn@) {
                                None => true,
                                Some(sr) => array_sub_fits(a, sr.attributes)
                                    && spec_feats_removal_fits(
                                    self.feats@,
                                    sr.feats@,
                                    0,
                                    fs,
                                    spec_sub_array(a, sr.attributes),
                                ),
                            },
                        };
                        let u = self.spec_subrace_undo();
                        let apply_fits = match find_by_key(r.subraces@, name) {
                            None => true,
                            Some(nsr) => array_add_fits(u.1, nsr.attributes)
                                && spec_feats_gain_fits(
                                self.feats@,
                                nsr.feats@,
                                0,
                                u.0,
                                spec_add_array(u.1, nsr.attributes),
                            ),
                        };
                        undo_fits && apply_fits
                    },
                },
            }
        }
    }

    /// Sets the subrace of the character: a race must be set, the new name
    /// must be one of that race's subraces, and the effects of any current
    /// subrace (attribute bonuses and granted feats) are reversed before
    /// the new subrace's are applied. A refused change leaves the builder
    /// unchanged.
    pub fn set_subrace(&mut self, subrace: &str) -> (r: Result<(), RulesError>)
        requires
            old(self).wf(),
            old(self).spec_set_subrace_fits(subrace@),
        ensures
            final(self).wf(),
            r == match old(self).spec_set_subrace_failure(subrace@) {
                Some(e) => Err::<(), RulesError>(e),
                None => Ok::<(), RulesError>(()),
            },
            r is Err ==> *final(self) == *old(self),
            r is Ok ==> {
                let applied = old(self).spec_subrace_result(subrace@);
                &&& names_set(final(self).character.feats@) == applied.0
                &&& final(self).character.attributes == applied.1
                &&& final(self).character.subrace matches Some(n) && n@ == subrace@
                &&& final(self).character == (Character {
                    attributes: final(self).character.attributes,
                    feats: final(self).character.feats,
                    subrace: final(self).character.subrace,
                    ..old(self).character
                })
                &&& *final(self) == (Builder { character: final(self).character, ..*old(self) })
            },
    {
        let race_name: String = match &self.character.race {
            Some(rn) => rn.clone(),
            None => {
                return Err(RulesError::PreconditionViolated);
            },
        };
        let subrace_name: Option<String> = match &self.character.subrace {
            Some(sn) => Some(sn.clone()),
            None => None,
        };
        match find_by_name(&self.races, race_name.as_str()) {
            None => Err(RulesError::NotFound),
            Some(actual_race) => {
                if find_by_name(&actual_race.subraces, subrace).is_none() {
                    return Err(RulesError::NotFound);
                }
                match &subrace_name {
                    Some(sn) => {
                        match find_by_name(&actual_race.subraces, sn.as_str()) {
                            None => {
                                return Err(RulesError::NotFound);
                            },
                            Some(old_subrace) => {
                                sub_array(
                                    &mut self.character.attributes,
                                    &old_subrace.attributes,
                                );
                                feats_from_char(
                                    &self.feats,
                                    &old_subrace.feats,
                                    &mut self.character,
                                );
                            },
                        }
                    },
                    None => {},
                }
                match find_by_name(&actual_race.subraces, subrace) {
                    Some(new_subrace) => {
                        add_array(&mut self.character.attributes, &new_subrace.attributes);
                        feats_to_char(&self.feats, &new_subrace.feats, &mut self.character);
                        self.character.set_subrace(subrace.to_string());
                        Ok(())
                    },
                    None => {
                        proof {
                            assert(false);
                        }
                        Err(RulesError::NotFound)
                    },
                }
            },
        }
    }

    /// Gains a feat from the table on the character: the feat must exist,
    /// and a feat the character already has is not applied a second time.
    pub fn add_feat_to_character(&mut self, feat: &str) -> (r: Result<(), RulesError>)
        requires
            old(self).wf(),
            match find_by_key(old(self).feats@, feat@) {
                Some(f) => spec_feat_gain_fits(
                    f,
                    names_set(old(self).character.feats@),
                    old(self).character.attributes,
                ),
                None => true,
            },
        ensures
            final(self).wf(),
            r is Ok <==> find_by_key(old(self).feats@, feat@) is Some,
            r is Err ==> *final(self) == *old(self) && r == Err::<(), RulesError>(
                RulesError::NotFound,
            ),
            r is Ok ==> {
                let f = find_by_key(old(self).feats@, feat@)->Some_0;
                let (fs, a) = spec_feat_gained(
                    f,
                    names_set(old(self).character.feats@),
                    old(self).character.attributes,
                );
                &&& names_set(final(self).character.feats@) == fs
                &&& final(self).character.attributes == a
                &&& final(self).character == (Character {
                    feats: final(self).character.feats,
                    attributes: final(self).character.attributes,
                    ..old(self).character
                })
                &&& *final(self) == (Builder { character: final(self).character, ..*old(self) })
            },
    {
        match find_by_name(&self.feats, feat) {
            Some(f) => {
                feat_to_char(f, &mut self.character);
                Ok(())
            },
            None => Err(RulesError::NotFound),
        }
    }

    /// Removes a feat from the character: the feat must exist in the
    /// table, and only a feat the character has can be reversed.
    pub fn remove_feat_from_character(&mut self, feat: &str) -> (r: Result<(), RulesError>)
        requires
            old(self).wf(),
            match find_by_key(old(self).feats@, feat@) {
                Some(f) => spec_feat_removal_fits(
                    f,
                    names_set(old(self).character.feats@),
                    old(self).character.attributes,
                ),
                None => true,
            },
        ensures
            final(self).wf(),
            r is Ok <==> find_by_key(old(self).feats@, feat@) is Some && contains_name(
                old(self).character.feats@,
                feat@,
            ),
            r is Err ==> *final(self) == *old(self),
            find_by_key(old(self).feats@, feat@) is None ==> r == Err::<(), RulesError>(
                RulesError::NotFound,
            ),
            find_by_key(old(self).feats@, feat@) is Some && !contains_name(
                old(self).character.feats@,
                feat@,
            ) ==> r == Err::<(), RulesError>(RulesError::PreconditionViolated),
            r is Ok ==> {
                let f = find_by_key(old(self).feats@, feat@)->Some_0;
                let (fs, a) = spec_feat_removed(
                    f,
                    names_set(old(self).character.feats@),
                    old(self).character.attributes,
                );
                &&& names_set(final(self).character.feats@) == fs
                &&& final(self).character.attributes == a
                &&& final(self).character == (Character {
                    feats: final(self).character.feats,
                    attributes: final(self).character.attributes,
                    ..old(self).character
                })
                &&& *final(self) == (Builder { character: final(self).character, ..*old(self) })
            },
    {
        match find_by_name(&self.feats, feat) {
            Some(f) => {
                if !self.character.has_feat(feat) {
                    return Err(RulesError::PreconditionViolated);
                }
                proof {
                    crate::lookup::lemma_find_named_key(
                        self.feats@,
                        crate::lookup::key_fn::<Feat>(),
                        feat@,
                    );
                }
                feat_from_char(f, &mut self.character);
                Ok(())
            },
            None => Err(RulesError::NotFound),
        }
    }
}

} // verus!
