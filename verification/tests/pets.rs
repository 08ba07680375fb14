use arena_ai::aura::AuraType;
use arena_ai::context::{AuraInfo, CombatContext, CombatantInfo, EntityAuras};
use arena_ai::pets::{
    headline_ability_for, pet_command_rejection, pet_tick, PetAbility, PetRangeFacts, PetRejection, PetStep,
    PetTick,
};
use arena_ai::roster::{CharacterClass, PetType};

fn unit(entity: u64, team: u8, class: CharacterClass, target: Option<u64>) -> CombatantInfo {
    CombatantInfo {
        entity,
        team,
        slot: 0,
        class,
        is_alive: true,
        stealthed: false,
        target,
        is_pet: false,
        pet_type: None,
        pet: None,
    }
}

fn ctx() -> CombatContext {
    let mut dead = unit(4, 2, CharacterClass::Mage, None);
    dead.is_alive = false;
    let mut poly = AuraInfo {
        effect_type: AuraType::Polymorph,
        caster: Some(1),
        breaks_on_any_damage: true,
        can_be_dispelled: true,
        can_be_purged: false,
        is_cleansable_poison: false,
        named: None,
    };
    poly.caster = Some(1);
    CombatContext {
        combatants: vec![
            unit(1, 1, CharacterClass::Hunter, Some(3)),
            unit(3, 2, CharacterClass::Priest, None),
            dead,
            unit(5, 2, CharacterClass::Rogue, None),
        ],
        active_auras: vec![EntityAuras { entity: 5, auras: vec![poly] }],
        dispels_on_cooldown: vec![],
        self_entity: 1,
    }
}

const IN_RANGE: PetRangeFacts = PetRangeFacts { out_of_range: false, within_dead_zone: false };

#[test]
fn headline_abilities() {
    assert_eq!(headline_ability_for(PetType::Felhunter), PetAbility::SpellLock);
    assert_eq!(headline_ability_for(PetType::Spider), PetAbility::SpiderWeb);
    assert_eq!(headline_ability_for(PetType::Boar), PetAbility::BoarCharge);
    assert_eq!(headline_ability_for(PetType::Bird), PetAbility::MastersCall);
}

#[test]
fn pet_tick_steps() {
    let c = ctx();
    assert_eq!(
        pet_tick(&c, 1, Some(9), false, false, false, true),
        PetTick { step: PetStep::Dead, target: Some(9), drop_command: false }
    );
    assert_eq!(
        pet_tick(&c, 1, Some(9), true, true, false, true),
        PetTick { step: PetStep::Incapacitated, target: Some(9), drop_command: true }
    );
    assert_eq!(
        pet_tick(&c, 1, Some(9), true, false, true, false),
        PetTick { step: PetStep::Heel, target: None, drop_command: false }
    );
    assert_eq!(
        pet_tick(&c, 1, None, true, false, false, true),
        PetTick { step: PetStep::RunCommand, target: Some(3), drop_command: true }
    );
    assert_eq!(
        pet_tick(&c, 1, None, true, false, false, false),
        PetTick { step: PetStep::Autonomous, target: Some(3), drop_command: false }
    );
    assert_eq!(pet_tick(&c, 42, Some(3), true, false, false, false).target, None);
}

#[test]
fn command_rejections_in_order() {
    let c = ctx();
    assert_eq!(pet_command_rejection(&c, PetAbility::BoarCharge, true, false, 3, IN_RANGE), Some(PetRejection::OnCooldown));
    assert_eq!(pet_command_rejection(&c, PetAbility::BoarCharge, false, true, 3, IN_RANGE), Some(PetRejection::OnCooldown));
    assert_eq!(pet_command_rejection(&c, PetAbility::BoarCharge, false, false, 4, IN_RANGE), Some(PetRejection::NoValidTarget));
    assert_eq!(pet_command_rejection(&c, PetAbility::BoarCharge, false, false, 77, IN_RANGE), Some(PetRejection::NoValidTarget));
    let far = PetRangeFacts { out_of_range: true, within_dead_zone: false };
    assert_eq!(pet_command_rejection(&c, PetAbility::SpiderWeb, false, false, 3, far), Some(PetRejection::OutOfRange));
    assert_eq!(pet_command_rejection(&c, PetAbility::MastersCall, false, false, 3, far), None);
    let near = PetRangeFacts { out_of_range: false, within_dead_zone: true };
    assert_eq!(pet_command_rejection(&c, PetAbility::BoarCharge, false, false, 3, near), Some(PetRejection::WithinDeadZone));
    assert_eq!(pet_command_rejection(&c, PetAbility::SpiderWeb, false, false, 3, near), None);
    assert_eq!(
        pet_command_rejection(&c, PetAbility::BoarCharge, false, false, 5, IN_RANGE),
        Some(PetRejection::FriendlyBreakableCC)
    );
    assert_eq!(pet_command_rejection(&c, PetAbility::SpiderWeb, false, false, 5, IN_RANGE), None);
    assert_eq!(pet_command_rejection(&c, PetAbility::BoarCharge, false, false, 3, IN_RANGE), None);
}
