use charsheet::attributes::{AttributeArray, AttributeName, Attributes};
use charsheet::character::{Ability, Character, Die, RulesError, Size};
use charsheet::data_store::{DataStore, RaceRecord};
use charsheet::datastore::{
    AbilityArray, Class, CombatProficiency, Datastore, Feat, FeatEffect, Race, Skill, SkillLevel,
    SpellCaster, SpellLevel, Weapon, WeaponCategory, WeaponRange,
};
use charsheet::weapons;
use charsheet::character_builder::character::attributes::Attribute;
use charsheet::character_builder::Builder;
use charsheet::character_builder::character::WeaponOrArmor;

#[test]
fn modifier_floors_toward_negative_infinity() {
    assert_eq!(Ability::score_to_mod(&9), -1);
    assert_eq!(Ability::score_to_mod(&10), 0);
    assert_eq!(Ability::score_to_mod(&11), 0);
    assert_eq!(Ability::score_to_mod(&7), -2);
    assert_eq!(Ability::score_to_mod(&1), -5);
    assert_eq!(Ability::score_to_mod(&30), 10);
    assert_eq!(Ability::score_to_mod(&-5), -8);
    assert_eq!(Attribute::modifier(9), -1);
    assert_eq!(Attribute::modifier(7), -2);
    assert_eq!(Attribute::modifier(11), 0);
}

#[test]
fn attribute_array_computes_modifiers_and_bonuses() {
    let base = Attributes::default();
    assert_eq!(base.get(AttributeName::Str), 10);
    let set = Attributes::new(9, 10, 11, 7, 14, 20);
    let mods = set.get_modifiers();
    assert_eq!(mods.get(AttributeName::Str), -1);
    assert_eq!(mods.get(AttributeName::Dex), 0);
    assert_eq!(mods.get(AttributeName::Con), 0);
    assert_eq!(mods.get(AttributeName::Wis), -2);
    assert_eq!(mods.get(AttributeName::Int), 2);
    assert_eq!(mods.get(AttributeName::Cha), 5);
    let mut bonus = AttributeArray::zero();
    bonus.set(AttributeName::Str, 2);
    bonus.set(AttributeName::Wis, -1);
    let boosted = set.apply_bonuses(&bonus);
    assert_eq!(boosted.get(AttributeName::Str), 11);
    assert_eq!(boosted.get(AttributeName::Wis), 6);
    assert_eq!(boosted.get(AttributeName::Cha), 20);
    let mut written = Attributes::default();
    written.set(AttributeName::Int, 13);
    assert_eq!(written.get(AttributeName::Int), 13);
    assert_eq!(written.get(AttributeName::Dex), 10);
}

#[test]
fn queries_fall_back_to_defaults_when_nothing_is_set() {
    let data = Datastore::new();
    let ch = Character::new(&data);
    assert_eq!(ch.size(), Size::Medium);
    assert_eq!(ch.speed(), 30);
    assert_eq!(ch.hit_die(), Die::D20);
}

#[test]
fn proficiency_bonus_progression() {
    let data = Datastore::new();
    let mut ch = Character::new(&data);
    assert_eq!(ch.proficiency_bonus(), 2);
    ch.set_level(5);
    assert_eq!(ch.proficiency_bonus(), 3);
    ch.set_level(9);
    assert_eq!(ch.proficiency_bonus(), 4);
    ch.set_level(20);
    assert_eq!(ch.proficiency_bonus(), 6);
}

#[test]
fn spell_slot_table_is_exact() {
    let full = SpellCaster::Full;
    assert_eq!(
        SpellLevel::slots_for_level(&1, &full).unwrap(),
        SpellLevel::slots(2, 0, 0, 0, 0, 0, 0, 0, 0)
    );
    assert_eq!(
        SpellLevel::slots_for_level(&20, &full).unwrap(),
        SpellLevel::slots(4, 3, 3, 3, 3, 2, 2, 1, 1)
    );
    assert_eq!(
        SpellLevel::slots_for_level(&5, &SpellCaster::Half).unwrap(),
        SpellLevel::slots(4, 2, 0, 0, 0, 0, 0, 0, 0)
    );
    assert_eq!(
        SpellLevel::slots_for_level(&3, &SpellCaster::Third).unwrap(),
        SpellLevel::slots(2, 0, 0, 0, 0, 0, 0, 0, 0)
    );
    // levels outside 1..=20 are an error for any casting class
    assert_eq!(
        SpellLevel::slots_for_level(&0, &full),
        Err(RulesError::InvalidLevel)
    );
    assert_eq!(
        SpellLevel::slots_for_level(&21, &SpellCaster::Half),
        Err(RulesError::InvalidLevel)
    );
    // a class that does not cast has no slots at any level
    assert_eq!(
        SpellLevel::slots_for_level(&77, &SpellCaster::NonCaster).unwrap(),
        SpellLevel::slots(0, 0, 0, 0, 0, 0, 0, 0, 0)
    );
}

#[test]
fn spell_slots_report_invalid_level() {
    let mut data = Datastore::new();
    data.add_class(Class {
        name: "Mage".to_owned(),
        long_text: "".to_owned(),
        hit_die: Die::D4,
        saving_throws: vec![],
        combat_proficiencies: vec![],
        skill_proficiencies: vec![],
        spell_caster: SpellCaster::Full,
    });
    let mut ch = Character::new(&data);
    ch.set_class(data.get_class("Mage").unwrap());
    ch.set_level(25);
    assert_eq!(ch.spell_slots(), Err(RulesError::InvalidLevel));
}

#[test]
fn skill_priority_prefers_explicit_setting() {
    let mut data = Datastore::new();
    data.add_race(Race {
        name: "Sage".to_owned(),
        long_text: "".to_owned(),
        ability_bonuses: AbilityArray::zero(),
        size: Size::Medium,
        speed: 30,
        languages: vec![],
        skill_proficiencies: vec![Skill::History],
        combat_proficiencies: vec![],
        subraces: Vec::new(),
    });
    data.add_class(Class {
        name: "Scholar".to_owned(),
        long_text: "".to_owned(),
        hit_die: Die::D6,
        saving_throws: vec![],
        combat_proficiencies: vec![],
        skill_proficiencies: vec![Skill::History],
        spell_caster: SpellCaster::NonCaster,
    });
    let mut ch = Character::new(&data);
    ch.set_race(data.get_race("Sage").unwrap()).unwrap();
    ch.set_class(data.get_class("Scholar").unwrap());
    // granted by both race and class, with no explicit setting
    assert_eq!(ch.skill_level(&Skill::History), SkillLevel::Proficient);
    // an explicit setting overrides both
    ch.set_skill_level(&Skill::History, SkillLevel::Expert);
    assert_eq!(ch.skill_level(&Skill::History), SkillLevel::Expert);
}

#[test]
fn attack_bonus_kept_while_any_source_grants_proficiency() {
    let mut data = Datastore::new();
    data.add_weapon(Weapon {
        name: "Club".to_owned(),
        category: WeaponCategory::Simple,
        range_category: WeaponRange::Melee,
        reach: 5,
    });
    data.add_class(Class {
        name: "Brawler".to_owned(),
        long_text: "".to_owned(),
        hit_die: Die::D8,
        saving_throws: vec![],
        combat_proficiencies: vec![CombatProficiency::WeaponCategory(WeaponCategory::Simple)],
        skill_proficiencies: vec![],
        spell_caster: SpellCaster::NonCaster,
    });
    data.add_class(Class {
        name: "Scribe".to_owned(),
        long_text: "".to_owned(),
        hit_die: Die::D6,
        saving_throws: vec![],
        combat_proficiencies: vec![],
        skill_proficiencies: vec![],
        spell_caster: SpellCaster::NonCaster,
    });
    let mut ch = Character::new(&data);
    let club = data.get_weapon("Club").unwrap();
    // class and own proficiency both grant the bonus
    ch.set_class(data.get_class("Brawler").unwrap());
    ch.add_combat_proficiency(CombatProficiency::Weapon("Club".to_owned()));
    assert_eq!(ch.get_attack_mod(club), 2);
    // removing the class source keeps the bonus: the own grant remains
    ch.set_class(data.get_class("Scribe").unwrap());
    assert_eq!(ch.get_attack_mod(club), 2);
}

#[test]
fn relearning_a_feat_does_not_apply_it_twice() {
    let mut data = Datastore::new();
    data.add_feat(Feat {
        name: "Strong".to_owned(),
        long_text: "".to_owned(),
        effects: vec![FeatEffect::AbilityIncrease(Ability::Str, 2)],
        prerequisites: vec![],
    });
    let mut ch = Character::new(&data);
    let strong = data.get_feat("Strong").unwrap();
    ch.learn_feat(strong).unwrap();
    ch.learn_feat(strong).unwrap();
    assert_eq!(*ch.ability(&Ability::Str), 12);
    ch.unlearn_feat(strong).unwrap();
    assert_eq!(*ch.ability(&Ability::Str), 10);
}

#[test]
fn data_store_keeps_race_records_by_name() {
    let mut store = DataStore::new();
    let mut ones = charsheet::attributes::AttributeArray::zero();
    ones.set(AttributeName::Str, 1);
    store.add_race(RaceRecord {
        name: "Human".to_owned(),
        speed: 30,
        attribute_bonuses: ones,
    });
    assert_eq!(store.races().len(), 1);
    let human = store.get_race("Human").unwrap();
    assert_eq!(human.name, "Human");
    assert_eq!(human.speed, 30);
    assert_eq!(human.attribute_bonuses.get(AttributeName::Str), 1);
    assert!(store.get_race("Elf").is_none());
}

#[test]
fn weapon_definitions_report_their_fields() {
    let sword = weapons::Weapon::new(
        "Greatsword".to_owned(),
        vec![Die::D6, Die::D6],
        weapons::DamageType::Slashing,
        weapons::WeaponCategory::Martial,
        weapons::WeaponType::Melee,
    );
    assert_eq!(sword.name(), "Greatsword");
    assert_eq!(sword.category(), weapons::WeaponCategory::Martial);
    assert_eq!(sword.weapon_type(), weapons::WeaponType::Melee);
}

#[test]
fn class_skill_grant_never_downgrades_an_explicit_expert() {
    let mut builder = Builder::new();
    builder.add_class(charsheet::character_builder::classes::Class {
        name: "Scout".to_owned(),
        hit_die: charsheet::character_builder::Die::D8,
        weapon_and_armor_proficiencies: Vec::<WeaponOrArmor>::new(),
        skill_proficiencies: vec![
            charsheet::character_builder::skill::Skill::Perception,
            charsheet::character_builder::skill::Skill::Stealth,
        ],
        saving_throws: vec![],
    });
    builder.add_class(charsheet::character_builder::classes::Class {
        name: "Farmer".to_owned(),
        hit_die: charsheet::character_builder::Die::D4,
        weapon_and_armor_proficiencies: Vec::<WeaponOrArmor>::new(),
        skill_proficiencies: vec![],
        saving_throws: vec![],
    });
    let perception = charsheet::character_builder::skill::Skill::Perception;
    let stealth = charsheet::character_builder::skill::Skill::Stealth;
    let expert = charsheet::character_builder::skill::SkillLevel::Expert;
    let proficient = charsheet::character_builder::skill::SkillLevel::Proficient;
    let untrained = charsheet::character_builder::skill::SkillLevel::Untrained;
    // an explicit Expert survives the class grant of the same skill
    builder.set_skill_level(&perception, expert);
    builder.set_class("Scout").unwrap();
    assert_eq!(builder.character().skill_level(&perception), expert);
    assert_eq!(builder.character().skill_level(&stealth), proficient);
    // reversing the class keeps the explicit Expert and only drops the
    // level the grant itself could have set
    builder.set_class("Farmer").unwrap();
    assert_eq!(builder.character().skill_level(&perception), expert);
    assert_eq!(builder.character().skill_level(&stealth), untrained);
}

#[test]
fn builder_reports_errors_and_changes_nothing() {
    let mut builder = Builder::new();
    assert_eq!(builder.set_race("Nowhere"), Err(RulesError::NotFound));
    assert_eq!(
        builder.set_subrace("Nowhere"),
        Err(RulesError::PreconditionViolated)
    );
    assert_eq!(builder.set_class("Nowhere"), Err(RulesError::NotFound));
    assert_eq!(
        builder.add_feat_to_character("Nowhere"),
        Err(RulesError::NotFound)
    );
}
