//! The character the builder assembles: plain state with field-exact
//! accessors and mutators; the builder's set/unset protocol drives them.

pub mod attributes;

use vstd::prelude::*;
use crate::attributes::spec_modifier;
use crate::character_builder::Die;
use crate::character_builder::armor::ArmorCategory;
use crate::character_builder::size::Size;
use crate::character_builder::skill::Skill;
use crate::character_builder::skill::SkillLevel;
use crate::character_builder::weapons::WeaponCategory;
use crate::datastore::find_skill_entry;
use crate::datastore::skill_eq;
use crate::datastore::skill_map_get;
use crate::datastore::skill_map_set;
use crate::lookup::contains_name;
use crate::lookup::contains_string;
use crate::lookup::find_named;
use crate::lookup::insert_string;
use crate::lookup::lemma_find_named_absent;
use crate::lookup::lemma_find_named_at;
use crate::lookup::lemma_find_named_push;
use crate::lookup::lemma_find_named_update;
use crate::lookup::remove_string;
use crate::lookup::str_eq;
use crate::lookup::unique_names;
use attributes::Array;
use attributes::Attribute;
use attributes::Value;

verus! {

pub type CharacterLevel = i8;

pub type Modifier = i8;

pub type Speed = u16;

/// One combat proficiency grant: a weapon category, an armor category, or
/// a specific weapon by name.
#[derive(Debug)]
pub enum WeaponOrArmor {
    WeaponCategory(WeaponCategory),
    ArmorCategory(ArmorCategory),
    Weapon(String),
}

/// The key of a learned spell entry.
pub open spec fn spell_key_fn() -> spec_fn((String, Attribute)) -> Seq<char> {
    |p: (String, Attribute)| p.0@
}

/// The casting ability stored for a spell name, if the spell is known.
pub open spec fn find_spell(s: Seq<(String, Attribute)>, name: Seq<char>) -> Option<
    (String, Attribute),
> {
    find_named(s, spell_key_fn(), name)
}

/// No two entries of the sequence are equal.
pub open spec fn unique_vals<T>(s: Seq<T>) -> bool {
    forall|i: int, j: int| 0 <= i < j < s.len() ==> #[trigger] s[i] != #[trigger] s[j]
}

pub struct Character {
    pub name: Option<String>,
    pub level: CharacterLevel,
    pub attributes: Array,
    pub race: Option<String>,
    pub subrace: Option<String>,
    pub size: Option<Size>,
    pub speed: Option<Speed>,
    pub class: Option<String>,
    pub hit_die: Option<Die>,
    pub languages: Vec<String>,
    pub skills: Vec<(Skill, SkillLevel)>,
    pub feats: Vec<String>,
    pub spells: Vec<(String, Attribute)>,
    pub weapon_category_proficiencies: Vec<WeaponCategory>,
    pub armor_proficiencies: Vec<ArmorCategory>,
    pub weapon_proficiencies: Vec<String>,
    pub saving_throws: Vec<Attribute>,
}

impl Character {
    /// The structural invariant every builder operation preserves.
    pub open spec fn wf(self) -> bool {
        &&& self.level >= 1
        &&& unique_names(self.languages@)
        &&& unique_names(self.feats@)
        &&& unique_names(self.weapon_proficiencies@)
        &&& unique_vals(self.weapon_category_proficiencies@)
        &&& unique_vals(self.armor_proficiencies@)
        &&& unique_vals(self.saving_throws@)
    }

    pub open spec fn spec_proficiency_bonus(self) -> int {
        2 + (self.level - 1) / 4
    }

    /// Whether the character holds this grant in the matching set.
    pub open spec fn spec_proficient_with(self, prof: WeaponOrArmor) -> bool {
        match prof {
            WeaponOrArmor::WeaponCategory(c) => self.weapon_category_proficiencies@.contains(c),
            WeaponOrArmor::ArmorCategory(c) => self.armor_proficiencies@.contains(c),
            WeaponOrArmor::Weapon(w) => contains_name(self.weapon_proficiencies@, w@),
        }
    }

    pub fn new() -> (r: Self)
        ensures
            r.wf(),
            r.name is None,
            r.level == 1,
            forall|a: Attribute| r.attributes.spec_get(a) == 10,
            r.race is None,
            r.subrace is None,
            r.size is None,
            r.speed is None,
            r.class is None,
            r.hit_die is None,
            r.languages@ == Seq::<String>::empty(),
            r.skills@ == Seq::<(Skill, SkillLevel)>::empty(),
            r.feats@ == Seq::<String>::empty(),
            r.spells@ == Seq::<(String, Attribute)>::empty(),
            r.weapon_category_proficiencies@ == Seq::<WeaponCategory>::empty(),
            r.armor_proficiencies@ == Seq::<ArmorCategory>::empty(),
            r.weapon_proficiencies@ == Seq::<String>::empty(),
            r.saving_throws@ == Seq::<Attribute>::empty(),
    {
        Character {
            name: None,
            level: 1,
            attributes: Attribute::array_of_ten(),
            race: None,
            subrace: None,
            size: None,
            speed: None,
            class: None,
            hit_die: None,
            languages: Vec::new(),
            skills: Vec::new(),
            feats: Vec::new(),
            spells: Vec::new(),
            weapon_category_proficiencies: Vec::new(),
            armor_proficiencies: Vec::new(),
            weapon_proficiencies: Vec::new(),
            saving_throws: Vec::new(),
        }
    }

    /// The character's name as it is spelled, or the empty string when no
    /// name was set.
    pub fn name(&self) -> (r: &str)
        ensures
            r@ == match self.name {
                Some(n) => n@,
                None => Seq::<char>::empty(),
            },
    {
        match &self.name {
            None => {
                let empty = "";
                proof {
                    reveal_strlit("");
                    assert(empty@ =~= Seq::<char>::empty());
                }
                empty
            },
            Some(name) => name.as_str(),
        }
    }

    pub fn attribute(&self, attribute: Attribute) -> (v: Value)
        ensures
            v == self.attributes.spec_get(attribute),
    {
        self.attributes.get(attribute)
    }

    /// The size the race determined, or Medium when none is set.
    pub fn size(&self) -> (r: Size)
        ensures
            r == match self.size {
                Some(s) => s,
                None => Size::Medium,
            },
    {
        match &self.size {
            Some(size) => *size,
            None => Size::Medium,
        }
    }

    /// The speed the race determined, or 30 when none is set.
    pub fn speed(&self) -> (r: Speed)
        ensures
            r == match self.speed {
                Some(s) => s,
                None => 30u16,
            },
    {
        match &self.speed {
            Some(speed) => *speed,
            None => 30,
        }
    }

    pub fn speaks(&self, language: &str) -> (r: bool)
        ensures
            r == contains_name(self.languages@, language@),
    {
        contains_string(&self.languages, language)
    }

    /// The character's own skill level; an absent entry is Untrained.
    pub fn skill_level(&self, skill: &Skill) -> (r: SkillLevel)
        ensures
            r == match find_skill_entry(self.skills@, *skill) {
                Some(l) => l,
                None => SkillLevel::Untrained,
            },
    {
        match skill_map_get(&self.skills, skill) {
            Some(level) => level,
            None => SkillLevel::Untrained,
        }
    }

    pub fn has_feat(&self, name: &str) -> (r: bool)
        ensures
            r == contains_name(self.feats@, name@),
    {
        contains_string(&self.feats, name)
    }

    pub fn proficient_with(&self, weapon_or_armor: &WeaponOrArmor) -> (r: bool)
        ensures
            r == self.spec_proficient_with(*weapon_or_armor),
    {
        match weapon_or_armor {
            WeaponOrArmor::WeaponCategory(cat) => contains_cat(
                &self.weapon_category_proficiencies,
                *cat,
            ),
            WeaponOrArmor::ArmorCategory(cat) => contains_armor_cat(&self.armor_proficiencies, *cat),
            WeaponOrArmor::Weapon(weapon) => contains_string(
                &self.weapon_proficiencies,
                weapon.as_str(),
            ),
        }
    }

    pub fn knows_spell(&self, spell: &str) -> (r: bool)
        ensures
            r == (find_spell(self.spells@, spell@) is Some),
    {
        spell_map_get(&self.spells, spell).is_some()
    }

    /// The ability a known spell is cast with, if the spell is known.
    pub fn spellcasting_ability(&self, spell: &str) -> (r: Option<Attribute>)
        ensures
            r == match find_spell(self.spells@, spell@) {
                Some(p) => Some(p.1),
                None => None::<Attribute>,
            },
    {
        spell_map_get(&self.spells, spell)
    }

    /// The hit die the class determined, or D20 when none is set.
    pub fn hit_die(&self) -> (r: Die)
        ensures
            r == match self.hit_die {
                Some(d) => d,
                None => Die::D20,
            },
    {
        match &self.hit_die {
            Some(die) => *die,
            None => Die::D20,
        }
    }

    /// The saving throw modifier: the attribute's modifier plus the
    /// proficiency bonus when the class grants saves of that attribute.
    pub fn saving_throw_mod(&self, attribute: &Attribute) -> (r: Modifier)
        requires
            self.wf(),
        ensures
            r as int == spec_modifier(self.attributes.spec_get(*attribute))
                + if self.saving_throws@.contains(*attribute) {
                self.spec_proficiency_bonus()
            } else {
                0
            },
    {
        let m = Attribute::modifier(self.attributes.get(*attribute)) as i16;
        let bonus: i16 = if contains_attr(&self.saving_throws, *attribute) {
            self.proficiency_bonus() as i16
        } else {
            0
        };
        (m + bonus) as i8
    }

    /// The level-derived proficiency bonus: `2 + (level - 1) / 4`.
    pub fn proficiency_bonus(&self) -> (r: Modifier)
        requires
            self.wf(),
        ensures
            r as int == self.spec_proficiency_bonus(),
    {
        2 + ((self.level - 1) / 4)
    }

    pub fn race(&self) -> (r: &Option<String>)
        ensures
            *r == self.race,
    {
        &self.race
    }

    pub fn subrace(&self) -> (r: &Option<String>)
        ensures
            *r == self.subrace,
    {
        &self.subrace
    }

    pub fn set_name(&mut self, name: String)
        ensures
            *final(self) == (Character { name: Some(name), ..*old(self) }),
    {
        self.name = Some(name);
    }

    pub fn set_attribute(&mut self, attribute: Attribute, value: Value)
        ensures
            *final(self) == (Character {
                attributes: old(self).attributes.spec_set(attribute, value),
                ..*old(self)
            }),
    {
        self.attributes.set(attribute, value);
    }

    pub fn set_class(&mut self, class: String)
        ensures
            *final(self) == (Character { class: Some(class), ..*old(self) }),
    {
        self.class = Some(class);
    }

    pub fn set_hit_die(&mut self, die: Die)
        ensures
            *final(self) == (Character { hit_die: Some(die), ..*old(self) }),
    {
        self.hit_die = Some(die);
    }

    pub fn clear_hit_die(&mut self)
        ensures
            *final(self) == (Character { hit_die: None, ..*old(self) }),
    {
        self.hit_die = None;
    }

    pub fn set_race(&mut self, race: String)
        ensures
            *final(self) == (Character { race: Some(race), ..*old(self) }),
    {
        self.race = Some(race);
    }

    pub fn set_size(&mut self, size: Size)
        ensures
            *final(self) == (Character { size: Some(size), ..*old(self) }),
    {
        self.size = Some(size);
    }

    pub fn set_speed(&mut self, speed: Speed)
        ensures
            *final(self) == (Character { speed: Some(speed), ..*old(self) }),
    {
        self.speed = Some(speed);
    }

    pub fn set_subrace(&mut self, subrace: String)
        ensures
            *final(self) == (Character { subrace: Some(subrace), ..*old(self) }),
    {
        self.subrace = Some(subrace);
    }

    pub fn clear_subrace(&mut self)
        ensures
            *final(self) == (Character { subrace: None, ..*old(self) }),
    {
        self.subrace = None;
    }

    /// Records a learned spell with its casting ability, replacing any
    /// earlier entry for the same spell name.
    pub fn add_spell(&mut self, spell: String, attr: Attribute)
        ensures
            forall|n: Seq<char>|
                #[trigger] find_spell(final(self).spells@, n) == if n == spell@ {
                    Some((spell, attr))
                } else {
                    find_spell(old(self).spells@, n)
                },
            *final(self) == (Character { spells: final(self).spells, ..*old(self) }),
    {
        let n = self.spells.len();
        let mut i: usize = 0;
        while i < n
            invariant
                n == self.spells@.len(),
                0 <= i <= n,
                *self == *old(self),
                forall|j: int| 0 <= j < i ==> (#[trigger] self.spells@[j]).0@ != spell@,
            decreases n - i,
        {
            if str_eq(self.spells[i].0.as_str(), spell.as_str()) {
                let ghost s = self.spells@;
                self.spells[i] = (spell, attr);
                proof {
                    assert(self.spells@ == s.update(i as int, (spell, attr)));
                    assert forall|m: Seq<char>|
                        #[trigger] find_spell(self.spells@, m) == if m == spell@ {
                            Some((spell, attr))
                        } else {
                            find_spell(s, m)
                        } by {
                        lemma_find_named_update(s, spell_key_fn(), i as int, (spell, attr), m);
                    }
                }
                return ;
            }
            i += 1;
        }
        let ghost s = self.spells@;
        self.spells.push((spell, attr));
        proof {
            assert forall|m: Seq<char>|
                #[trigger] find_spell(self.spells@, m) == if m == spell@ {
                    Some((spell, attr))
                } else {
                    find_spell(s, m)
                } by {
                lemma_find_named_push(s, spell_key_fn(), (spell, attr), m);
            }
        }
    }

    /// Adds a language to the spoken set; learning one twice is a no-op.
    pub fn add_language(&mut self, language: String)
        requires
            unique_names(old(self).languages@),
        ensures
            unique_names(final(self).languages@),
            forall|n: Seq<char>|
                #[trigger] contains_name(final(self).languages@, n) <==> contains_name(
                    old(self).languages@,
                    n,
                ) || n == language@,
            *final(self) == (Character { languages: final(self).languages, ..*old(self) }),
    {
        insert_string(&mut self.languages, language);
    }

    /// Records a gained feat; gaining one twice is a no-op.
    pub fn add_feat(&mut self, feat: String)
        requires
            unique_names(old(self).feats@),
        ensures
            unique_names(final(self).feats@),
            forall|n: Seq<char>|
                #[trigger] contains_name(final(self).feats@, n) <==> contains_name(
                    old(self).feats@,
                    n,
                ) || n == feat@,
            *final(self) == (Character { feats: final(self).feats, ..*old(self) }),
    {
        insert_string(&mut self.feats, feat);
    }

    /// Removes a gained feat's name; removing an absent one is a no-op.
    pub fn remove_feat(&mut self, feat: &str)
        requires
            unique_names(old(self).feats@),
        ensures
            unique_names(final(self).feats@),
            forall|n: Seq<char>|
                #[trigger] contains_name(final(self).feats@, n) <==> contains_name(
                    old(self).feats@,
                    n,
                ) && n != feat@,
            *final(self) == (Character { feats: final(self).feats, ..*old(self) }),
    {
        remove_string(&mut self.feats, feat);
    }

    pub fn clear_race(&mut self)
        ensures
            *final(self) == (Character { race: None, ..*old(self) }),
    {
        self.race = None;
    }

    pub fn clear_size(&mut self)
        ensures
            *final(self) == (Character { size: None, ..*old(self) }),
    {
        self.size = None;
    }

    pub fn clear_speed(&mut self)
        ensures
            *final(self) == (Character { speed: None, ..*old(self) }),
    {
        self.speed = None;
    }

    /// Adds one combat proficiency grant to the matching set.
    pub fn add_weapon_or_armor_proficiency(&mut self, prof: &WeaponOrArmor)
        requires
            old(self).wf(),
        ensures
            final(self).wf(),
            forall|p: WeaponOrArmor|
                #[trigger] final(self).spec_proficient_with(p) <==> old(self).spec_proficient_with(
                    p,
                ) || woa_eq(*prof, p),
            final(self).name == old(self).name,
            final(self).level == old(self).level,
            final(self).attributes == old(self).attributes,
            final(self).race == old(self).race,
            final(self).subrace == old(self).subrace,
            final(self).size == old(self).size,
            final(self).speed == old(self).speed,
            final(self).class == old(self).class,
            final(self).hit_die == old(self).hit_die,
            final(self).languages == old(self).languages,
            final(self).skills == old(self).skills,
            final(self).feats == old(self).feats,
            final(self).spells == old(self).spells,
            final(self).saving_throws == old(self).saving_throws,
    {
        match prof {
            WeaponOrArmor::WeaponCategory(cat) => {
                insert_cat(&mut self.weapon_category_proficiencies, *cat);
            },
            WeaponOrArmor::ArmorCategory(cat) => {
                insert_armor_cat(&mut self.armor_proficiencies, *cat);
            },
            WeaponOrArmor::Weapon(weapon) => {
                insert_string(&mut self.weapon_proficiencies, weapon.clone());
            },
        }
    }

    /// Removes one combat proficiency grant from the matching set;
    /// removing an absent one is a no-op.
    pub fn remove_weapon_or_armor_proficiency(&mut self, prof: &WeaponOrArmor)
        requires
            old(self).wf(),
        ensures
            final(self).wf(),
            forall|p: WeaponOrArmor|
                #[trigger] final(self).spec_proficient_with(p) <==> old(self).spec_proficient_with(
                    p,
                ) && !woa_eq(*prof, p),
            final(self).name == old(self).name,
            final(self).level == old(self).level,
            final(self).attributes == old(self).attributes,
            final(self).race == old(self).race,
            final(self).subrace == old(self).subrace,
            final(self).size == old(self).size,
            final(self).speed == old(self).speed,
            final(self).class == old(self).class,
            final(self).hit_die == old(self).hit_die,
            final(self).languages == old(self).languages,
            final(self).skills == old(self).skills,
            final(self).feats == old(self).feats,
            final(self).spells == old(self).spells,
            final(self).saving_throws == old(self).saving_throws,
    {
        match prof {
            WeaponOrArmor::WeaponCategory(cat) => {
                remove_cat(&mut self.weapon_category_proficiencies, *cat);
            },
            WeaponOrArmor::ArmorCategory(cat) => {
                remove_armor_cat(&mut self.armor_proficiencies, *cat);
            },
            WeaponOrArmor::Weapon(weapon) => {
                remove_string(&mut self.weapon_proficiencies, weapon.as_str());
            },
        }
    }

    /// Stores the character's own skill level for a skill.
    pub fn set_skill_level(&mut self, skill: &Skill, level: SkillLevel)
        ensures
            forall|k: Skill|
                #[trigger] find_skill_entry(final(self).skills@, k) == if skill_eq(*skill, k) {
                    Some(level)
                } else {
                    find_skill_entry(old(self).skills@, k)
                },
            *final(self) == (Character { skills: final(self).skills, ..*old(self) }),
    {
        skill_map_set(&mut self.skills, skill.clone(), level);
    }

    /// Adds a saving throw proficiency; adding one twice is a no-op.
    pub fn add_saving_throw_proficiency(&mut self, attr: Attribute)
        requires
            unique_vals(old(self).saving_throws@),
        ensures
            unique_vals(final(self).saving_throws@),
            forall|a: Attribute|
                #[trigger] final(self).saving_throws@.contains(a) <==> old(
                    self,
                ).saving_throws@.contains(a) || a == attr,
            *final(self) == (Character { saving_throws: final(self).saving_throws, ..*old(self) }),
    {
        insert_attr(&mut self.saving_throws, attr);
    }

    /// Removes a saving throw proficiency; removing an absent one is a
    /// no-op.
    pub fn remove_saving_throw_proficiency(&mut self, attr: Attribute)
        requires
            unique_vals(old(self).saving_throws@),
        ensures
            unique_vals(final(self).saving_throws@),
            forall|a: Attribute|
                #[trigger] final(self).saving_throws@.contains(a) <==> old(
                    self,
                ).saving_throws@.contains(a) && a != attr,
            *final(self) == (Character { saving_throws: final(self).saving_throws, ..*old(self) }),
    {
        remove_attr(&mut self.saving_throws, attr);
    }
}

/// Whether two grants are the same, comparing weapon names by their
/// character sequences.
pub open spec fn woa_eq(a: WeaponOrArmor, b: WeaponOrArmor) -> bool {
    match (a, b) {
        (WeaponOrArmor::WeaponCategory(x), WeaponOrArmor::WeaponCategory(y)) => x == y,
        (WeaponOrArmor::ArmorCategory(x), WeaponOrArmor::ArmorCategory(y)) => x == y,
        (WeaponOrArmor::Weapon(x), WeaponOrArmor::Weapon(y)) => x@ == y@,
        _ => false,
    }
}

/// Whether a grant list holds this grant, up to `woa_eq`.
pub open spec fn spec_grants(list: Seq<WeaponOrArmor>, p: WeaponOrArmor) -> bool {
    exists|i: int| 0 <= i < list.len() && woa_eq(#[trigger] list[i], p)
}

/// Extending a prefix of a grant list by one entry extends the grants by
/// exactly that entry.
pub proof fn lemma_spec_grants_take_extend(list: Seq<WeaponOrArmor>, i: int)
    requires
        0 <= i < list.len(),
    ensures
        forall|p: WeaponOrArmor|
            spec_grants(#[trigger] list.take(i + 1), p) <==> spec_grants(list.take(i), p)
                || woa_eq(list[i], p),
{
    assert(list.take(i + 1) =~= list.take(i).push(list[i]));
    assert forall|p: WeaponOrArmor|
        spec_grants(#[trigger] list.take(i + 1), p) <==> spec_grants(list.take(i), p) || woa_eq(
            list[i],
            p,
        ) by {
        let t = list.take(i + 1);
        let t0 = list.take(i);
        if spec_grants(t, p) {
            let j = choose|j: int| 0 <= j < t.len() && woa_eq(#[trigger] t[j], p);
            if j < i {
                assert(woa_eq(t0[j], p));
            }
        }
        if spec_grants(t0, p) {
            let j = choose|j: int| 0 <= j < t0.len() && woa_eq(#[trigger] t0[j], p);
            assert(woa_eq(t[j], p));
        }
        if woa_eq(list[i], p) {
            assert(woa_eq(t[i], p));
        }
    }
}

/// Adds every grant of the list to the character.
pub fn grant_weapon_armor_profs(ch: &mut Character, list: &Vec<WeaponOrArmor>)
    requires
        old(ch).wf(),
    ensures
        final(ch).wf(),
        forall|p: WeaponOrArmor|
            #[trigger] final(ch).spec_proficient_with(p) <==> old(ch).spec_proficient_with(p)
                || spec_grants(list@, p),
        *final(ch) == (Character {
            weapon_category_proficiencies: final(ch).weapon_category_proficiencies,
            armor_proficiencies: final(ch).armor_proficiencies,
            weapon_proficiencies: final(ch).weapon_proficiencies,
            ..*old(ch)
        }),
{
    let n = list.len();
    let mut i: usize = 0;
    proof {
        assert(list@.take(0) =~= Seq::<WeaponOrArmor>::empty());
    }
    while i < n
        invariant
            n == list@.len(),
            0 <= i <= n,
            ch.wf(),
            forall|p: WeaponOrArmor|
                #[trigger] ch.spec_proficient_with(p) <==> old(ch).spec_proficient_with(p)
                    || spec_grants(list@.take(i as int), p),
            *ch == (Character {
                weapon_category_proficiencies: ch.weapon_category_proficiencies,
                armor_proficiencies: ch.armor_proficiencies,
                weapon_proficiencies: ch.weapon_proficiencies,
                ..*old(ch)
            }),
        decreases n - i,
    {
        ch.add_weapon_or_armor_proficiency(&list[i]);
        proof {
            lemma_spec_grants_take_extend(list@, i as int);
        }
        i += 1;
    }
    proof {
        assert(list@.take(n as int) =~= list@);
    }
}

/// Removes every grant of the list from the character; grants also coming
/// from another source are removed all the same (a known simplification).
pub fn revoke_weapon_armor_profs(ch: &mut Character, list: &Vec<WeaponOrArmor>)
    requires
        old(ch).wf(),
    ensures
        final(ch).wf(),
        forall|p: WeaponOrArmor|
            #[trigger] final(ch).spec_proficient_with(p) <==> old(ch).spec_proficient_with(p)
                && !spec_grants(list@, p),
        *final(ch) == (Character {
            weapon_category_proficiencies: final(ch).weapon_category_proficiencies,
            armor_proficiencies: final(ch).armor_proficiencies,
            weapon_proficiencies: final(ch).weapon_proficiencies,
            ..*old(ch)
        }),
{
    let n = list.len();
    let mut i: usize = 0;
    proof {
        assert(list@.take(0) =~= Seq::<WeaponOrArmor>::empty());
    }
    while i < n
        invariant
            n == list@.len(),
            0 <= i <= n,
            ch.wf(),
            forall|p: WeaponOrArmor|
                #[trigger] ch.spec_proficient_with(p) <==> old(ch).spec_proficient_with(p)
                    && !spec_grants(list@.take(i as int), p),
            *ch == (Character {
                weapon_category_proficiencies: ch.weapon_category_proficiencies,
                armor_proficiencies: ch.armor_proficiencies,
                weapon_proficiencies: ch.weapon_proficiencies,
                ..*old(ch)
            }),
        decreases n - i,
    {
        ch.remove_weapon_or_armor_proficiency(&list[i]);
        proof {
            lemma_spec_grants_take_extend(list@, i as int);
        }
        i += 1;
    }
    proof {
        assert(list@.take(n as int) =~= list@);
    }
}

/// The level a skill map entry denotes: an absent entry is Untrained.
pub open spec fn entry_level(e: Option<SkillLevel>) -> SkillLevel {
    match e {
        Some(l) => l,
        None => SkillLevel::Untrained,
    }
}

/// One skill's map entry after a provider grants it: the grant raises an
/// untrained skill to Proficient and never downgrades a higher explicit
/// level.
pub open spec fn spec_grant_skill_step(e: Option<SkillLevel>, granted: bool) -> Option<
    SkillLevel,
> {
    if granted && entry_level(e) == SkillLevel::Untrained {
        Some(SkillLevel::Proficient)
    } else {
        e
    }
}

/// One skill's map entry after a provider's grant is reversed: only a
/// plain Proficient (the level a grant can have set) falls back to
/// Untrained; an explicit Expert is kept.
pub open spec fn spec_revoke_skill_step(e: Option<SkillLevel>, granted: bool) -> Option<
    SkillLevel,
> {
    if granted && e == Some(SkillLevel::Proficient) {
        Some(SkillLevel::Untrained)
    } else {
        e
    }
}

/// Raises every skill of the list to at least Proficient; skills already
/// at Proficient or Expert are left alone.
pub fn grant_skills(ch: &mut Character, list: &Vec<Skill>)
    ensures
        forall|k: Skill|
            #[trigger] find_skill_entry(final(ch).skills@, k) == spec_grant_skill_step(
                find_skill_entry(old(ch).skills@, k),
                crate::datastore::contains_skill(list@, k),
            ),
        *final(ch) == (Character { skills: final(ch).skills, ..*old(ch) }),
{
    let n = list.len();
    let mut i: usize = 0;
    proof {
        assert(list@.take(0) =~= Seq::<Skill>::empty());
    }
    while i < n
        invariant
            n == list@.len(),
            0 <= i <= n,
            forall|k: Skill|
                #[trigger] find_skill_entry(ch.skills@, k) == spec_grant_skill_step(
                    find_skill_entry(old(ch).skills@, k),
                    crate::datastore::contains_skill(list@.take(i as int), k),
                ),
            *ch == (Character { skills: ch.skills, ..*old(ch) }),
        decreases n - i,
    {
        let ghost prev = ch.skills@;
        if ch.skill_level(&list[i]) == SkillLevel::Untrained {
            ch.set_skill_level(&list[i], SkillLevel::Proficient);
        }
        proof {
            crate::datastore::lemma_contains_skill_take_extend(list@, i as int);
            assert forall|k: Skill|
                #[trigger] find_skill_entry(ch.skills@, k) == spec_grant_skill_step(
                    find_skill_entry(old(ch).skills@, k),
                    crate::datastore::contains_skill(list@.take(i as int + 1), k),
                ) by {
                if skill_eq(list@[i as int], k) {
                    crate::datastore::lemma_find_skill_respects_eq(prev, list@[i as int], k);
                    crate::datastore::lemma_find_skill_respects_eq(
                        old(ch).skills@,
                        list@[i as int],
                        k,
                    );
                    let t = list@.take(i as int);
                    if crate::datastore::contains_skill(t, k) {
                        let j = choose|j: int| 0 <= j < t.len() && skill_eq(#[trigger] t[j], k);
                        crate::datastore::lemma_skill_eq_trans(t[j], k, list@[i as int]);
                        assert(crate::datastore::contains_skill(t, list@[i as int]));
                    }
                    if crate::datastore::contains_skill(t, list@[i as int]) {
                        let j = choose|j: int|
                            0 <= j < t.len() && skill_eq(#[trigger] t[j], list@[i as int]);
                        crate::datastore::lemma_skill_eq_trans(t[j], list@[i as int], k);
                        assert(crate::datastore::contains_skill(t, k));
                    }
                }
            }
        }
        i += 1;
    }
    proof {
        assert(list@.take(n as int) =~= list@);
    }
}

/// Reverses a provider's skill grants: every listed skill standing at
/// plain Proficient falls back to Untrained, while a higher explicit
/// level is kept.
pub fn revoke_skills(ch: &mut Character, list: &Vec<Skill>)
    ensures
        forall|k: Skill|
            #[trigger] find_skill_entry(final(ch).skills@, k) == spec_revoke_skill_step(
                find_skill_entry(old(ch).skills@, k),
                crate::datastore::contains_skill(list@, k),
            ),
        *final(ch) == (Character { skills: final(ch).skills, ..*old(ch) }),
{
    let n = list.len();
    let mut i: usize = 0;
    proof {
        assert(list@.take(0) =~= Seq::<Skill>::empty());
    }
    while i < n
        invariant
            n == list@.len(),
            0 <= i <= n,
            forall|k: Skill|
                #[trigger] find_skill_entry(ch.skills@, k) == spec_revoke_skill_step(
                    find_skill_entry(old(ch).skills@, k),
                    crate::datastore::contains_skill(list@.take(i as int), k),
                ),
            *ch == (Character { skills: ch.skills, ..*old(ch) }),
        decreases n - i,
    {
        let ghost prev = ch.skills@;
        let write = match skill_map_get(&ch.skills, &list[i]) {
            Some(l) => l == SkillLevel::Proficient,
            None => false,
        };
        if write {
            ch.set_skill_level(&list[i], SkillLevel::Untrained);
        }
        proof {
            crate::datastore::lemma_contains_skill_take_extend(list@, i as int);
            assert forall|k: Skill|
                #[trigger] find_skill_entry(ch.skills@, k) == spec_revoke_skill_step(
                    find_skill_entry(old(ch).skills@, k),
                    crate::datastore::contains_skill(list@.take(i as int + 1), k),
                ) by {
                if skill_eq(list@[i as int], k) {
                    crate::datastore::lemma_find_skill_respects_eq(prev, list@[i as int], k);
                    crate::datastore::lemma_find_skill_respects_eq(
                        old(ch).skills@,
                        list@[i as int],
                        k,
                    );
                    let t = list@.take(i as int);
                    if crate::datastore::contains_skill(t, k) {
                        let j = choose|j: int| 0 <= j < t.len() && skill_eq(#[trigger] t[j], k);
                        crate::datastore::lemma_skill_eq_trans(t[j], k, list@[i as int]);
                        assert(crate::datastore::contains_skill(t, list@[i as int]));
                    }
                    if crate::datastore::contains_skill(t, list@[i as int]) {
                        let j = choose|j: int|
                            0 <= j < t.len() && skill_eq(#[trigger] t[j], list@[i as int]);
                        crate::datastore::lemma_skill_eq_trans(t[j], list@[i as int], k);
                        assert(crate::datastore::contains_skill(t, k));
                    }
                }
            }
        }
        i += 1;
    }
    proof {
        assert(list@.take(n as int) =~= list@);
    }
}

/// Adds every saving throw proficiency of the list to the character.
pub fn grant_saves(ch: &mut Character, list: &Vec<Attribute>)
    requires
        old(ch).wf(),
    ensures
        final(ch).wf(),
        forall|a: Attribute|
            #[trigger] final(ch).saving_throws@.contains(a) <==> old(ch).saving_throws@.contains(a)
                || list@.contains(a),
        *final(ch) == (Character { saving_throws: final(ch).saving_throws, ..*old(ch) }),
{
    let n = list.len();
    let mut i: usize = 0;
    proof {
        assert(list@.take(0) =~= Seq::<Attribute>::empty());
    }
    while i < n
        invariant
            n == list@.len(),
            0 <= i <= n,
            ch.wf(),
            forall|a: Attribute|
                #[trigger] ch.saving_throws@.contains(a) <==> old(ch).saving_throws@.contains(a)
                    || list@.take(i as int).contains(a),
            *ch == (Character { saving_throws: ch.saving_throws, ..*old(ch) }),
        decreases n - i,
    {
        ch.add_saving_throw_proficiency(list[i]);
        proof {
            crate::lookup::lemma_contains_take_extend(list@, i as int);
        }
        i += 1;
    }
    proof {
        assert(list@.take(n as int) =~= list@);
    }
}

/// Removes every saving throw proficiency of the list from the character.
pub fn revoke_saves(ch: &mut Character, list: &Vec<Attribute>)
    requires
        old(ch).wf(),
    ensures
        final(ch).wf(),
        forall|a: Attribute|
            #[trigger] final(ch).saving_throws@.contains(a) <==> old(ch).saving_throws@.contains(a)
                && !list@.contains(a),
        *final(ch) == (Character { saving_throws: final(ch).saving_throws, ..*old(ch) }),
{
    let n = list.len();
    let mut i: usize = 0;
    proof {
        assert(list@.take(0) =~= Seq::<Attribute>::empty());
    }
    while i < n
        invariant
            n == list@.len(),
            0 <= i <= n,
            ch.wf(),
            forall|a: Attribute|
                #[trigger] ch.saving_throws@.contains(a) <==> old(ch).saving_throws@.contains(a)
                    && !list@.take(i as int).contains(a),
            *ch == (Character { saving_throws: ch.saving_throws, ..*old(ch) }),
        decreases n - i,
    {
        ch.remove_saving_throw_proficiency(list[i]);
        proof {
            crate::lookup::lemma_contains_take_extend(list@, i as int);
        }
        i += 1;
    }
    proof {
        assert(list@.take(n as int) =~= list@);
    }
}

fn contains_cat(v: &Vec<WeaponCategory>, x: WeaponCategory) -> (r: bool)
    ensures
        r == v@.contains(x),
{
    let n = v.len();
    let mut i: usize = 0;
    while i < n
        invariant
            n == v@.len(),
            0 <= i <= n,
            forall|j: int| 0 <= j < i ==> v@[j] != x,
        decreases n - i,
    {
        if v[i] == x {
            return true;
        }
        i += 1;
    }
    false
}

fn insert_cat(v: &mut Vec<WeaponCategory>, x: WeaponCategory)
    requires
        unique_vals(old(v)@),
    ensures
        unique_vals(final(v)@),
        forall|c: WeaponCategory|
            #[trigger] final(v)@.contains(c) <==> old(v)@.contains(c) || c == x,
{
    if !contains_cat(v, x) {
        let ghost s = v@;
        v.push(x);
        proof {
            assert forall|c: WeaponCategory| #[trigger] v@.contains(c) <==> s.contains(c) || c == x by {
                vstd::seq_lib::lemma_seq_contains_after_push(s, x, c);
            }
        }
    }
}

fn remove_cat(v: &mut Vec<WeaponCategory>, x: WeaponCategory)
    requires
        unique_vals(old(v)@),
    ensures
        unique_vals(final(v)@),
        forall|c: WeaponCategory|
            #[trigger] final(v)@.contains(c) <==> old(v)@.contains(c) && c != x,
{
    let n = v.len();
    let mut i: usize = 0;
    while i < n
        invariant
            n == v@.len(),
            0 <= i <= n,
            v@ == old(v)@,
            unique_vals(v@),
            forall|j: int| 0 <= j < i ==> v@[j] != x,
        decreases n - i,
    {
        if v[i] == x {
            let ghost s = v@;
            v.remove(i);
            proof {
                assert(v@ =~= s.subrange(0, i as int) + s.subrange(i + 1, s.len() as int));
                lemma_set_remove_at(s, i as int, x);
            }
            return ;
        }
        i += 1;
    }
}

fn contains_armor_cat(v: &Vec<ArmorCategory>, x: ArmorCategory) -> (r: bool)
    ensures
        r == v@.contains(x),
{
    let n = v.len();
    let mut i: usize = 0;
    while i < n
        invariant
            n == v@.len(),
            0 <= i <= n,
            forall|j: int| 0 <= j < i ==> v@[j] != x,
        decreases n - i,
    {
        if v[i] == x {
            return true;
        }
        i += 1;
    }
    false
}

fn insert_armor_cat(v: &mut Vec<ArmorCategory>, x: ArmorCategory)
    requires
        unique_vals(old(v)@),
    ensures
        unique_vals(final(v)@),
        forall|c: ArmorCategory| #[trigger] final(v)@.contains(c) <==> old(v)@.contains(c) || c == x,
{
    if !contains_armor_cat(v, x) {
        let ghost s = v@;
        v.push(x);
        proof {
            assert forall|c: ArmorCategory| #[trigger] v@.contains(c) <==> s.contains(c) || c == x by {
                vstd::seq_lib::lemma_seq_contains_after_push(s, x, c);
            }
        }
    }
}

fn remove_armor_cat(v: &mut Vec<ArmorCategory>, x: ArmorCategory)
    requires
        unique_vals(old(v)@),
    ensures
        unique_vals(final(v)@),
        forall|c: ArmorCategory|
            #[trigger] final(v)@.contains(c) <==> old(v)@.contains(c) && c != x,
{
    let n = v.len();
    let mut i: usize = 0;
    while i < n
        invariant
            n == v@.len(),
            0 <= i <= n,
            v@ == old(v)@,
            unique_vals(v@),
            forall|j: int| 0 <= j < i ==> v@[j] != x,
        decreases n - i,
    {
        if v[i] == x {
            let ghost s = v@;
            v.remove(i);
            proof {
                assert(v@ =~= s.subrange(0, i as int) + s.subrange(i + 1, s.len() as int));
                lemma_set_remove_at(s, i as int, x);
            }
            return ;
        }
        i += 1;
    }
}

fn contains_attr(v: &Vec<Attribute>, x: Attribute) -> (r: bool)
    ensures
        r == v@.contains(x),
{
    let n = v.len();
    let mut i: usize = 0;
    while i < n
        invariant
            n == v@.len(),
            0 <= i <= n,
            forall|j: int| 0 <= j < i ==> v@[j] != x,
        decreases n - i,
    {
        if v[i] == x {
            return true;
        }
        i += 1;
    }
    false
}

fn insert_attr(v: &mut Vec<Attribute>, x: Attribute)
    requires
        unique_vals(old(v)@),
    ensures
        unique_vals(final(v)@),
        forall|c: Attribute| #[trigger] final(v)@.contains(c) <==> old(v)@.contains(c) || c == x,
{
    if !contains_attr(v, x) {
        let ghost s = v@;
        v.push(x);
        proof {
            assert forall|c: Attribute| #[trigger] v@.contains(c) <==> s.contains(c) || c == x by {
                vstd::seq_lib::lemma_seq_contains_after_push(s, x, c);
            }
        }
    }
}

fn remove_attr(v: &mut Vec<Attribute>, x: Attribute)
    requires
        unique_vals(old(v)@),
    ensures
        unique_vals(final(v)@),
        forall|c: Attribute| #[trigger] final(v)@.contains(c) <==> old(v)@.contains(c) && c != x,
{
    let n = v.len();
    let mut i: usize = 0;
    while i < n
        invariant
            n == v@.len(),
            0 <= i <= n,
            v@ == old(v)@,
            unique_vals(v@),
            forall|j: int| 0 <= j < i ==> v@[j] != x,
        decreases n - i,
    {
        if v[i] == x {
            let ghost s = v@;
            v.remove(i);
            proof {
                assert(v@ =~= s.subrange(0, i as int) + s.subrange(i + 1, s.len() as int));
                lemma_set_remove_at(s, i as int, x);
            }
            return ;
        }
        i += 1;
    }
}

/// Removing position `i` from a duplicate-free sequence removes exactly
/// the element at `i` from its membership.
proof fn lemma_set_remove_at<T>(s: Seq<T>, i: int, x: T)
    requires
        0 <= i < s.len(),
        s[i] == x,
        unique_vals(s),
        forall|j: int| 0 <= j < i ==> s[j] != x,
    ensures
        unique_vals(s.remove(i)),
        forall|c: T| #[trigger] s.remove(i).contains(c) <==> s.contains(c) && c != x,
{
    let t = s.remove(i);
    assert forall|p: int, q: int| 0 <= p < q < t.len() implies #[trigger] t[p] != #[trigger] t[q] by {
        let p0 = if p < i {
            p
        } else {
            p + 1
        };
        let q0 = if q < i {
            q
        } else {
            q + 1
        };
        assert(t[p] == s[p0] && t[q] == s[q0]);
    }
    assert forall|c: T| #[trigger] t.contains(c) implies s.contains(c) && c != x by {
        let p = choose|p: int| 0 <= p < t.len() && t[p] == c;
        let p0 = if p < i {
            p
        } else {
            p + 1
        };
        assert(s[p0] == c);
        if c == x {
            assert(s[p0] == s[i] && p0 != i);
        }
    }
    assert forall|c: T| s.contains(c) && c != x implies #[trigger] t.contains(c) by {
        let p = choose|p: int| 0 <= p < s.len() && s[p] == c;
        if p < i {
            assert(t[p] == c);
        } else {
            assert(t[p - 1] == c);
        }
    }
}

/// The casting ability stored for a spell name, if any.
pub fn spell_map_get(v: &Vec<(String, Attribute)>, name: &str) -> (r: Option<Attribute>)
    ensures
        r == match find_spell(v@, name@) {
            Some(p) => Some(p.1),
            None => None::<Attribute>,
        },
{
    let n = v.len();
    let mut i: usize = 0;
    while i < n
        invariant
            n == v@.len(),
            0 <= i <= n,
            forall|j: int| 0 <= j < i ==> (#[trigger] v@[j]).0@ != name@,
        decreases n - i,
    {
        if str_eq(v[i].0.as_str(), name) {
            proof {
                lemma_find_named_at(v@, spell_key_fn(), name@, i as int);
            }
            return Some(v[i].1);
        }
        i += 1;
    }
    proof {
        lemma_find_named_absent(v@, spell_key_fn(), name@);
    }
    None
}

} // verus!
