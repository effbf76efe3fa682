//! Names of the attributes and derived statistics that rewards and damage refer to.

use vstd::prelude::*;

verus! {

/// Primary character attributes.
#[derive(Debug, Clone, Copy, PartialEq, Eq, Structural, Hash)]
pub enum CoreAttribute {
    Strength,
    Agility,
    Intelligence,
    Constitution,
    Charisma,
}

/// Statistics computed from the attributes, plus resources and resistances.
#[derive(Debug, Clone, Copy, PartialEq, Eq, Structural, Hash)]
pub enum DerivedStat {
    MaxHealth,
    CurrentHealth,
    MaxStamina,
    CurrentStamina,
    MaxMana,
    CurrentMana,
    AttackPower,
    Defense,
    CriticalChance,
    MovementSpeed,
    AttackSpeed,
    MagicResistance,
    Stealth,
    Persuasion,
    FireResistance,
    PoisonResistance,
    ElectricResistance,
    ExplosionResistance,
    Experience,
}

} // verus!
