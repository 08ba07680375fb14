use arena_ai::aura::{
    denies_actions, dispel_priority, displaces_target, impairs_movement, is_crowd_control,
    purge_priority, AuraType, PURGE_MIN_PRIORITY,
};
use arena_ai::cc_value::{dispel_regime, AttackerMix, DispelRegime, TEffCap};
use arena_ai::roster::{CharacterClass, PetType};

#[test]
fn denies_actions_matches_the_sims_own_definition() {
    for ty in [AuraType::Stun, AuraType::Fear, AuraType::Polymorph, AuraType::Incapacitate] {
        assert!(denies_actions(ty), "{ty:?} should deny actions");
    }
    // Root denies movement only — excluded.
    assert!(!denies_actions(AuraType::Root));
    assert!(!denies_actions(AuraType::MovementSpeedSlow));
}

#[test]
fn only_fear_displaces() {
    assert!(displaces_target(AuraType::Fear));
    assert!(!displaces_target(AuraType::Stun));
    assert!(!displaces_target(AuraType::Polymorph));
    assert!(!displaces_target(AuraType::Root));
}

#[test]
fn attacker_mix_total_adds_both_modes() {
    assert_eq!(AttackerMix { melee: 2, ranged: 3 }.total(), 5);
    assert_eq!(AttackerMix::default().total(), 0);
    assert_eq!(AttackerMix { melee: 0, ranged: 1 }.total(), 1);
}

#[test]
fn dispel_regimes_follow_the_calibration_table() {
    assert_eq!(dispel_regime(0, false), DispelRegime::Unanswered);
    assert_eq!(dispel_regime(0, true), DispelRegime::Unanswered);
    assert_eq!(dispel_regime(1, false), DispelRegime::StationaryAnswerable);
    assert_eq!(dispel_regime(3, false), DispelRegime::StationaryAnswerable);
    assert_eq!(dispel_regime(1, true), DispelRegime::FledSoleDispeller);
    assert_eq!(dispel_regime(2, true), DispelRegime::FledCovered);
    assert_eq!(dispel_regime(9, true), DispelRegime::FledCovered);
}

#[test]
fn t_eff_cap_variants_are_distinct() {
    assert_ne!(TEffCap::Duration, TEffCap::BreakBudget);
}

#[test]
fn crowd_control_sets() {
    for ty in [AuraType::Stun, AuraType::Fear, AuraType::Root, AuraType::Polymorph, AuraType::Incapacitate] {
        assert!(is_crowd_control(ty));
    }
    assert!(!is_crowd_control(AuraType::MovementSpeedSlow));
    assert!(!is_crowd_control(AuraType::DamageImmunity));
    assert!(impairs_movement(AuraType::Root));
    assert!(impairs_movement(AuraType::Stun));
    assert!(impairs_movement(AuraType::Incapacitate));
    assert!(!impairs_movement(AuraType::Fear));
    assert!(!impairs_movement(AuraType::Polymorph));
}

#[test]
fn dispel_ladder_values() {
    assert_eq!(dispel_priority(AuraType::Polymorph), 100);
    assert_eq!(dispel_priority(AuraType::Fear), 90);
    assert_eq!(dispel_priority(AuraType::Root), 80);
    assert_eq!(dispel_priority(AuraType::DamageOverTime), 50);
    assert_eq!(dispel_priority(AuraType::MovementSpeedSlow), 20);
    assert_eq!(dispel_priority(AuraType::Stun), 0);
    assert_eq!(dispel_priority(AuraType::Absorb), 0);
}

#[test]
fn purge_ladder_values() {
    assert_eq!(purge_priority(AuraType::Absorb), 100);
    assert_eq!(purge_priority(AuraType::DamageTakenReduction), 90);
    assert_eq!(purge_priority(AuraType::HealingOverTime), 70);
    assert_eq!(purge_priority(AuraType::AttackPowerIncrease), 60);
    assert_eq!(purge_priority(AuraType::SpellPowerIncrease), 60);
    assert_eq!(purge_priority(AuraType::WindfuryBuff), 55);
    assert_eq!(purge_priority(AuraType::CritChanceIncrease), 50);
    assert_eq!(purge_priority(AuraType::MaxManaIncrease), 30);
    assert_eq!(purge_priority(AuraType::ManaRegenIncrease), 25);
    assert_eq!(purge_priority(AuraType::SpellResistanceBuff), 20);
    assert_eq!(purge_priority(AuraType::FrostArmorBuff), 20);
    assert_eq!(purge_priority(AuraType::MaxHealthIncrease), 15);
    assert_eq!(purge_priority(AuraType::LockoutDurationReduction), 15);
    assert_eq!(purge_priority(AuraType::Stun), 0);
    assert_eq!(PURGE_MIN_PRIORITY, 70);
}

#[test]
fn class_roles() {
    assert!(CharacterClass::Priest.is_healer());
    assert!(CharacterClass::Paladin.is_healer());
    assert!(CharacterClass::Shaman.is_healer());
    assert!(!CharacterClass::Mage.is_healer());
    assert!(CharacterClass::Paladin.is_melee());
    assert!(!CharacterClass::Hunter.is_melee());
    assert!(CharacterClass::Warrior.is_kite_threat());
    assert!(CharacterClass::Rogue.is_kite_threat());
    assert!(!CharacterClass::Paladin.is_kite_threat());
    assert!(!CharacterClass::Hunter.is_kite_threat());
    assert!(CharacterClass::Warlock.is_spellcaster());
    assert!(!CharacterClass::Hunter.is_spellcaster());
    assert!(!CharacterClass::Shaman.is_spellcaster());
    assert_eq!(PetType::Felhunter.name(), "Felhunter");
    assert_eq!(PetType::Spider.name(), "Spider");
    assert_eq!(PetType::Boar.name(), "Boar");
    assert_eq!(PetType::Bird.name(), "Bird");
}
