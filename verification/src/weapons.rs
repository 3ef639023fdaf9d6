//! Standalone weapon definitions: name, damage dice, damage type,
//! category and type.

use vstd::prelude::*;
use crate::character::Die;

verus! {

pub type WeaponName = String;

pub struct Weapon {
    pub name: WeaponName,
    pub dice: Vec<Die>,
    pub damage_type: DamageType,
    pub category: WeaponCategory,
    pub weapon_type: WeaponType,
}

#[derive(Clone, Copy, PartialEq, Eq, Structural, Debug)]
pub enum DamageType {
    Slashing,
    Piercing,
    Bludgeoning,
    Acid,
    Cold,
    Fire,
    Force,
    Lightning,
    Necrotic,
    Poison,
    Psychic,
    Radiant,
    Thunder,
}

#[derive(Clone, Copy, PartialEq, Eq, Structural, Debug)]
pub enum WeaponCategory {
    Simple,
    Martial,
}

#[derive(Clone, Copy, PartialEq, Eq, Structural, Debug)]
pub enum WeaponType {
    Melee,
    Ranged,
}

impl Weapon {
    /// Returns a new weapon with the specified attributes.
    pub fn new(
        name: WeaponName,
        dice: Vec<Die>,
        damage_type: DamageType,
        category: WeaponCategory,
        weapon_type: WeaponType,
    ) -> (r: Self)
        ensures
            r.name == name,
            r.dice == dice,
            r.damage_type == damage_type,
            r.category == category,
            r.weapon_type == weapon_type,
    {
        Weapon { name, dice, damage_type, category, weapon_type }
    }

    /// Returns the weapon's name.
    pub fn name(&self) -> (r: String)
        ensures
            r@ == self.name@,
    {
        self.name.clone()
    }

    /// Returns this weapon's category.
    pub fn category(&self) -> (r: WeaponCategory)
        ensures
            r == self.category,
    {
        self.category
    }

    /// Returns this weapon's type.
    pub fn weapon_type(&self) -> (r: WeaponType)
        ensures
            r == self.weapon_type,
    {
        self.weapon_type
    }
}

} // verus!
