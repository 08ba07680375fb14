//! Aura classification: which auras deny actions, which displace their
//! target, and how urgent an aura is to dispel from an ally or purge from an
//! enemy.
use vstd::prelude::*;

verus! {

/// The effect an aura applies.
#[derive(Clone, Copy, Debug, PartialEq, Eq, Structural)]
pub enum AuraType {
    Stun,
    Fear,
    Polymorph,
    Incapacitate,
    Root,
    MovementSpeedSlow,
    DamageOverTime,
    HealingOverTime,
    Absorb,
    DamageImmunity,
    DamageTakenReduction,
    MaxHealthIncrease,
    MaxManaIncrease,
    ManaRegenIncrease,
    AttackPowerIncrease,
    SpellPowerIncrease,
    CritChanceIncrease,
    WindfuryBuff,
    SpellResistanceBuff,
    FrostArmorBuff,
    LockoutDurationReduction,
    SpellSchoolLockout,
    WeakenedSoul,
    ShadowSight,
}

/// Auras that deny their target the ability to act: Stun, Fear, Polymorph and
/// Incapacitate. Root denies movement only and is excluded.
pub open spec fn spec_denies_actions(effect: AuraType) -> bool {
    effect == AuraType::Stun || effect == AuraType::Fear || effect == AuraType::Polymorph
        || effect == AuraType::Incapacitate
}

/// Crowd control that prevents overlap: the action-denying auras plus Root.
pub open spec fn spec_is_crowd_control(effect: AuraType) -> bool {
    spec_denies_actions(effect) || effect == AuraType::Root
}

/// Movement impairments that open an escape window on an attacker: Root,
/// Stun and Incapacitate. Fear is excluded — a feared attacker wanders away on
/// its own.
pub open spec fn spec_impairs_movement(effect: AuraType) -> bool {
    effect == AuraType::Root || effect == AuraType::Stun || effect == AuraType::Incapacitate
}

/// Whether an aura type denies its target the ability to act.
pub fn denies_actions(effect: AuraType) -> (r: bool)
    ensures
        r == spec_denies_actions(effect),
{
    matches!(effect, AuraType::Stun | AuraType::Fear | AuraType::Polymorph | AuraType::Incapacitate)
}

/// Whether an aura type makes its target flee, taking it away from melee.
/// Only Fear does (it also carries Death Coil's horror).
pub fn displaces_target(effect: AuraType) -> (r: bool)
    ensures
        r == (effect == AuraType::Fear),
{
    matches!(effect, AuraType::Fear)
}

/// Whether an aura type counts as crowd control for overlap checks (Stun,
/// Fear, Root, Polymorph, Incapacitate).
pub fn is_crowd_control(effect: AuraType) -> (r: bool)
    ensures
        r == spec_is_crowd_control(effect),
{
    matches!(
        effect,
        AuraType::Stun | AuraType::Fear | AuraType::Root | AuraType::Polymorph | AuraType::Incapacitate
    )
}

/// Whether an aura type impairs an attacker's movement (Root, Stun,
/// Incapacitate).
pub fn impairs_movement(effect: AuraType) -> (r: bool)
    ensures
        r == spec_impairs_movement(effect),
{
    matches!(effect, AuraType::Root | AuraType::Stun | AuraType::Incapacitate)
}

/// Dispel priority of a harmful aura on an ally; higher is more urgent.
pub open spec fn spec_dispel_priority(aura_type: AuraType) -> int {
    match aura_type {
        AuraType::Polymorph => 100,
        AuraType::Fear => 90,
        AuraType::Root => 80,
        AuraType::DamageOverTime => 50,
        AuraType::MovementSpeedSlow => 20,
        _ => 0,
    }
}

/// Calculate dispel priority for an aura type. Higher values = more urgent to
/// dispel. Used by the Priest (Dispel Magic) and the Paladin (Cleanse).
pub fn dispel_priority(aura_type: AuraType) -> (r: i32)
    ensures
        r == spec_dispel_priority(aura_type),
{
    match aura_type {
        AuraType::Polymorph => 100,
        AuraType::Fear => 90,
        AuraType::Root => 80,
        AuraType::DamageOverTime => 50,
        AuraType::MovementSpeedSlow => 20,
        _ => 0,
    }
}

/// Minimum `purge_priority` worth spending a global cooldown on: only
/// high-value defensives (Absorb, DamageTakenReduction, HealingOverTime) clear
/// it.
pub const PURGE_MIN_PRIORITY: i32 = 70;

/// Purge priority of a beneficial aura on an enemy; higher is more valuable
/// to strip.
pub open spec fn spec_purge_priority(aura_type: AuraType) -> int {
    match aura_type {
        AuraType::Absorb => 100,
        AuraType::DamageTakenReduction => 90,
        AuraType::MaxHealthIncrease => 15,
        AuraType::HealingOverTime => 70,
        AuraType::AttackPowerIncrease => 60,
        AuraType::SpellPowerIncrease => 60,
        AuraType::WindfuryBuff => 55,
        AuraType::CritChanceIncrease => 50,
        AuraType::MaxManaIncrease => 30,
        AuraType::ManaRegenIncrease => 25,
        AuraType::SpellResistanceBuff => 20,
        AuraType::FrostArmorBuff => 20,
        AuraType::LockoutDurationReduction => 15,
        _ => 0,
    }
}

/// Calculate purge priority for a beneficial aura on an enemy. Defensive
/// buffs outrank offensive buffs, which outrank minor utility buffs.
pub fn purge_priority(aura_type: AuraType) -> (r: i32)
    ensures
        r == spec_purge_priority(aura_type),
{
    match aura_type {
        AuraType::Absorb => 100,
        AuraType::DamageTakenReduction => 90,
        AuraType::MaxHealthIncrease => 15,
        AuraType::HealingOverTime => 70,
        AuraType::AttackPowerIncrease => 60,
        AuraType::SpellPowerIncrease => 60,
        AuraType::WindfuryBuff => 55,
        AuraType::CritChanceIncrease => 50,
        AuraType::MaxManaIncrease => 30,
        AuraType::ManaRegenIncrease => 25,
        AuraType::SpellResistanceBuff => 20,
        AuraType::FrostArmorBuff => 20,
        AuraType::LockoutDurationReduction => 15,
        _ => 0,
    }
}

/// Every action-denying aura is crowd control, Root is crowd control without
/// denying actions, and the only displacing aura denies actions.
pub proof fn lemma_aura_classes_nest(effect: AuraType)
    ensures
        spec_denies_actions(effect) ==> spec_is_crowd_control(effect),
        spec_is_crowd_control(AuraType::Root) && !spec_denies_actions(AuraType::Root),
        effect == AuraType::Fear ==> spec_denies_actions(effect),
{
}

/// Priorities are bounded: dispel and purge priorities lie in 0..=100, and
/// only Absorb, DamageTakenReduction and HealingOverTime clear the purge
/// floor.
pub proof fn lemma_priorities_bounded(aura_type: AuraType)
    ensures
        0 <= spec_dispel_priority(aura_type) <= 100,
        0 <= spec_purge_priority(aura_type) <= 100,
        spec_purge_priority(aura_type) >= PURGE_MIN_PRIORITY <==> (aura_type == AuraType::Absorb
            || aura_type == AuraType::DamageTakenReduction || aura_type == AuraType::HealingOverTime),
{
}

/// Loss-of-control debuffs outrank everything else on the dispel ladder:
/// Polymorph > Fear > Root > damage over time > slow > anything else.
pub proof fn lemma_dispel_ladder_order()
    ensures
        spec_dispel_priority(AuraType::Polymorph) > spec_dispel_priority(AuraType::Fear),
        spec_dispel_priority(AuraType::Fear) > spec_dispel_priority(AuraType::Root),
        spec_dispel_priority(AuraType::Root) > spec_dispel_priority(AuraType::DamageOverTime),
        spec_dispel_priority(AuraType::DamageOverTime) > spec_dispel_priority(
            AuraType::MovementSpeedSlow,
        ),
        forall|a: AuraType|
            #![trigger spec_dispel_priority(a)]
            a != AuraType::Polymorph ==> spec_dispel_priority(a) < spec_dispel_priority(
                AuraType::Polymorph,
            ),
{
}

} // verus!
