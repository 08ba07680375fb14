use arena_ai::aura::AuraType;
use arena_ai::context::{AuraInfo, CombatContext, CombatantInfo, EntityAuras};
use arena_ai::postures::{compound_pressure_trigger, pressured_move, pressured_threats, wand_target, PressuredMove};
use arena_ai::priest_dip::scream_targets;
use arena_ai::roster::{CharacterClass, PetType};
use arena_ai::rotation::{frost_shock_target, totem_attempts, TotemElement, TotemState};

fn unit(entity: u64, team: u8, class: CharacterClass) -> CombatantInfo {
    CombatantInfo {
        entity,
        team,
        slot: 0,
        class,
        is_alive: true,
        stealthed: false,
        target: None,
        is_pet: false,
        pet_type: None,
        pet: None,
    }
}

fn aura(effect_type: AuraType, caster: Option<u64>) -> AuraInfo {
    AuraInfo {
        effect_type,
        caster,
        breaks_on_any_damage: false,
        can_be_dispelled: false,
        can_be_purged: false,
        is_cleansable_poison: false,
        named: None,
    }
}

fn ctx(combatants: Vec<CombatantInfo>, auras: Vec<(u64, Vec<AuraInfo>)>, me: u64) -> CombatContext {
    CombatContext {
        combatants,
        active_auras: auras.into_iter().map(|(entity, auras)| EntityAuras { entity, auras }).collect(),
        dispels_on_cooldown: Vec::new(),
        self_entity: me,
    }
}

/// Team 1: Priest (1), Mage (2). Team 2: Warrior (3) and Warlock (4)
/// targeting the Priest, the Warlock's Felhunter (5) targeting it too, and a
/// stealthed Rogue (6) beside it.
fn arena() -> Vec<CombatantInfo> {
    let mut warrior = unit(3, 2, CharacterClass::Warrior);
    warrior.target = Some(1);
    let mut warlock = unit(4, 2, CharacterClass::Warlock);
    warlock.target = Some(1);
    let mut felhunter = unit(5, 2, CharacterClass::Warlock);
    felhunter.is_pet = true;
    felhunter.pet_type = Some(PetType::Felhunter);
    felhunter.target = Some(1);
    let mut rogue = unit(6, 2, CharacterClass::Rogue);
    rogue.stealthed = true;
    vec![unit(1, 1, CharacterClass::Priest), unit(2, 1, CharacterClass::Mage), warrior, warlock, felhunter, rogue]
}

#[test]
fn visible_enemies_within_the_radius() {
    let c = ctx(arena(), vec![], 1);
    let near: Vec<u64> = c.visible_enemies_within(1, &vec![2, 3, 5, 6]).iter().map(|i| i.entity).collect();
    assert_eq!(near, vec![3, 5], "allies and the stealthed Rogue are left out");
    let sight = ctx(arena(), vec![(1, vec![aura(AuraType::ShadowSight, None)])], 1);
    let near: Vec<u64> = sight.visible_enemies_within(1, &vec![3, 6]).iter().map(|i| i.entity).collect();
    assert_eq!(near, vec![3, 6]);
    assert!(c.visible_enemies_within(42, &vec![3]).is_empty());
}

#[test]
fn pressure_trigger_by_distance_and_attack_mode() {
    let c = ctx(arena(), vec![], 1);
    let none: Vec<u64> = vec![];
    assert!(compound_pressure_trigger(&c, 1, &vec![4], &none, &none), "anyone in the danger radius");
    assert!(compound_pressure_trigger(&c, 1, &none, &vec![3], &none), "a melee class in the intent radius");
    assert!(compound_pressure_trigger(&c, 1, &none, &vec![5], &none), "a pet in the intent radius");
    assert!(!compound_pressure_trigger(&c, 1, &none, &vec![4], &none), "a caster holding range");
    assert!(compound_pressure_trigger(&c, 1, &none, &vec![4], &vec![4]), "a caster closing in");
    assert!(!compound_pressure_trigger(&c, 2, &vec![3, 4, 5], &vec![3, 4, 5], &none), "nobody targets the Mage");
}

#[test]
fn scream_spares_the_immune() {
    let c = ctx(arena(), vec![(3, vec![aura(AuraType::DamageImmunity, None)])], 1);
    let feared: Vec<u64> = scream_targets(&c, 1, &vec![3, 4, 5, 6], &vec![5]).iter().map(|i| i.entity).collect();
    assert_eq!(feared, vec![4]);
}

#[test]
fn totem_upkeep_order_and_mana_floor() {
    let attempts = totem_attempts(TotemState::Healthy, TotemState::Expiring, TotemState::Absent, TotemState::Expiring, true);
    assert_eq!(attempts, vec![TotemElement::Water, TotemElement::Earth, TotemElement::Fire]);
    let low = totem_attempts(TotemState::Healthy, TotemState::Expiring, TotemState::Absent, TotemState::Expiring, false);
    assert_eq!(low, vec![TotemElement::Earth]);
    let all_up = totem_attempts(TotemState::Healthy, TotemState::Healthy, TotemState::Healthy, TotemState::Healthy, true);
    assert!(all_up.is_empty());
}

#[test]
fn pressured_threat_set_and_wand_target() {
    let c = ctx(arena(), vec![], 1);
    let threats = pressured_threats(&c, 1, &vec![6]);
    let ids: Vec<u64> = threats.iter().map(|i| i.entity).collect();
    assert_eq!(ids, vec![3, 4, 5], "the stealthed Rogue beside the Priest is unseen");
    let sight = ctx(arena(), vec![(1, vec![aura(AuraType::ShadowSight, None)])], 1);
    let seen: Vec<u64> = pressured_threats(&sight, 1, &vec![6]).iter().map(|i| i.entity).collect();
    assert_eq!(seen, vec![3, 4, 5, 6]);
    assert_eq!(wand_target(&c, Some(4), &threats), None, "a threat is not a wand target");
    assert_eq!(wand_target(&sight, Some(6), &threats), Some(6));
    assert_eq!(wand_target(&c, None, &threats), None);
    assert!(pressured_threats(&c, 2, &vec![]).is_empty(), "nobody targets the Mage");
}

#[test]
fn pressured_movement_choice() {
    assert_eq!(pressured_move(false, true, true, true), PressuredMove::Hold);
    assert_eq!(pressured_move(true, true, true, true), PressuredMove::HoldPosition);
    assert_eq!(pressured_move(false, false, false, true), PressuredMove::TeamSpot);
    assert_eq!(pressured_move(false, false, false, false), PressuredMove::ScoreDirection);
}

#[test]
fn frost_shock_peels_before_the_kill_target() {
    let c = ctx(arena(), vec![], 1);
    assert_eq!(frost_shock_target(&c, 1, 1, Some(4), &vec![4, 5, 3], &vec![]), Some(5), "the nearest melee or pet on me");
    assert_eq!(frost_shock_target(&c, 1, 1, Some(4), &vec![4], &vec![]), Some(4), "no peel: the kill target");
    assert_eq!(frost_shock_target(&c, 1, 1, Some(4), &vec![], &vec![]), None, "nothing in range");
    let mut units = arena();
    units[2].target = Some(2);
    let peel_ally = ctx(units, vec![(3, vec![aura(AuraType::DamageImmunity, None)])], 1);
    assert_eq!(frost_shock_target(&peel_ally, 1, 1, None, &vec![3, 5], &vec![2]), Some(5), "the immune Warrior is skipped");
}
