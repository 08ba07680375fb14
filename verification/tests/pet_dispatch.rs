use arena_ai::aura::AuraType;
use arena_ai::context::{AuraInfo, CombatContext, CombatantInfo, EntityAuras};
use arena_ai::pet_dispatch::{
    autonomous_dispatch, devour_magic_target, felhunter_decision, hunter_pet_dispatch, masters_call_target,
    spell_lock_target, CastObservation, ChannelObservation, PetDispatch, PetDispatchFacts,
};
use arena_ai::pets::{PetAbility, PetRejection};
use arena_ai::roster::{CharacterClass, PetType};

fn unit(entity: u64, team: u8, class: CharacterClass) -> CombatantInfo {
    CombatantInfo {
        entity,
        team,
        slot: 0,
        class,
        is_alive: true,
        stealthed: false,
        target: None,
        is_pet: false,
        pet_type: None,
        pet: None,
    }
}

fn pet(entity: u64, team: u8, owner_class: CharacterClass, pet_type: PetType) -> CombatantInfo {
    CombatantInfo { is_pet: true, pet_type: Some(pet_type), ..unit(entity, team, owner_class) }
}

fn aura(effect_type: AuraType, caster: Option<u64>) -> AuraInfo {
    AuraInfo {
        effect_type,
        caster,
        breaks_on_any_damage: false,
        can_be_dispelled: false,
        can_be_purged: false,
        is_cleansable_poison: false,
        named: None,
    }
}

fn ctx(combatants: Vec<CombatantInfo>, auras: Vec<(u64, Vec<AuraInfo>)>, me: u64) -> CombatContext {
    CombatContext {
        combatants,
        active_auras: auras.into_iter().map(|(entity, auras)| EntityAuras { entity, auras }).collect(),
        dispels_on_cooldown: Vec::new(),
        self_entity: me,
    }
}

const READY: PetDispatchFacts = PetDispatchFacts { gcd_active: false, in_heel: false, on_cooldown: false };

/// Team 1: Hunter (1) with its pet (2), Warlock (3). Team 2: Warrior (4),
/// Priest (5).
fn arena(pet_type: PetType) -> Vec<CombatantInfo> {
    let mut hunter = unit(1, 1, CharacterClass::Hunter);
    hunter.pet = Some(2);
    hunter.target = Some(4);
    vec![
        hunter,
        pet(2, 1, CharacterClass::Hunter, pet_type),
        unit(3, 1, CharacterClass::Warlock),
        unit(4, 2, CharacterClass::Warrior),
        unit(5, 2, CharacterClass::Priest),
    ]
}

#[test]
fn hunter_dispatches_spider_web_and_respects_existing_roots() {
    let c = ctx(arena(PetType::Spider), vec![], 1);
    let in_range = vec![4, 5];
    assert_eq!(
        hunter_pet_dispatch(&c, 1, Some(4), READY, &in_range, &vec![]),
        Some(PetDispatch::Cast { ability: PetAbility::SpiderWeb, target: 4 })
    );
    let rooted = ctx(arena(PetType::Spider), vec![(4, vec![aura(AuraType::Root, Some(3))])], 1);
    assert_eq!(
        hunter_pet_dispatch(&rooted, 1, Some(4), READY, &in_range, &vec![]),
        Some(PetDispatch::Reject { ability: PetAbility::SpiderWeb, reason: PetRejection::AlreadyApplied })
    );
    assert_eq!(
        hunter_pet_dispatch(&c, 1, Some(4), READY, &vec![5], &vec![]),
        Some(PetDispatch::Reject { ability: PetAbility::SpiderWeb, reason: PetRejection::OutOfRange })
    );
    assert_eq!(
        hunter_pet_dispatch(&c, 1, Some(3), READY, &in_range, &vec![]),
        Some(PetDispatch::Reject { ability: PetAbility::SpiderWeb, reason: PetRejection::NoValidTarget })
    );
    assert_eq!(hunter_pet_dispatch(&c, 1, None, READY, &in_range, &vec![]), None);
}

#[test]
fn hunter_dispatch_heel_then_cooldown() {
    let c = ctx(arena(PetType::Boar), vec![], 1);
    let heel = PetDispatchFacts { in_heel: true, on_cooldown: true, ..READY };
    assert_eq!(
        hunter_pet_dispatch(&c, 1, Some(4), heel, &vec![4], &vec![]),
        Some(PetDispatch::Reject { ability: PetAbility::BoarCharge, reason: PetRejection::LowHealthHeel })
    );
    let cd = PetDispatchFacts { on_cooldown: true, ..READY };
    assert_eq!(
        hunter_pet_dispatch(&c, 1, Some(4), cd, &vec![4], &vec![]),
        Some(PetDispatch::Reject { ability: PetAbility::BoarCharge, reason: PetRejection::OnCooldown })
    );
}

#[test]
fn boar_charge_guards() {
    let c = ctx(arena(PetType::Boar), vec![], 1);
    assert_eq!(
        hunter_pet_dispatch(&c, 1, Some(4), READY, &vec![4], &vec![4]),
        Some(PetDispatch::Reject { ability: PetAbility::BoarCharge, reason: PetRejection::WithinDeadZone })
    );
    let mut trap = aura(AuraType::Incapacitate, Some(1));
    trap.breaks_on_any_damage = true;
    let trapped = ctx(arena(PetType::Boar), vec![(4, vec![trap])], 1);
    assert_eq!(
        hunter_pet_dispatch(&trapped, 1, Some(4), READY, &vec![4], &vec![]),
        Some(PetDispatch::Reject { ability: PetAbility::BoarCharge, reason: PetRejection::FriendlyBreakableCC })
    );
    assert_eq!(
        autonomous_dispatch(&c, PetType::Boar, 1, 1, READY, &vec![4], &vec![]),
        Some(PetDispatch::Cast { ability: PetAbility::BoarCharge, target: 4 })
    );
}

#[test]
fn masters_call_prefers_the_owner() {
    let slowed = aura(AuraType::MovementSpeedSlow, Some(4));
    let both = ctx(arena(PetType::Bird), vec![(1, vec![slowed]), (3, vec![aura(AuraType::Root, Some(5))])], 1);
    assert_eq!(masters_call_target(&both, 1, 1), Some(1));
    let ally_only = ctx(arena(PetType::Bird), vec![(3, vec![aura(AuraType::Root, Some(5))])], 1);
    assert_eq!(masters_call_target(&ally_only, 1, 1), Some(3));
    assert_eq!(
        hunter_pet_dispatch(&ally_only, 1, None, READY, &vec![3], &vec![]),
        Some(PetDispatch::Cast { ability: PetAbility::MastersCall, target: 3 })
    );
    assert_eq!(
        hunter_pet_dispatch(&ally_only, 1, None, READY, &vec![], &vec![]),
        Some(PetDispatch::Reject { ability: PetAbility::MastersCall, reason: PetRejection::OutOfRange })
    );
    let free = ctx(arena(PetType::Bird), vec![], 1);
    assert_eq!(
        autonomous_dispatch(&free, PetType::Bird, 1, 1, READY, &vec![1, 3], &vec![]),
        Some(PetDispatch::Reject { ability: PetAbility::MastersCall, reason: PetRejection::NoValidTarget })
    );
}

#[test]
fn autonomous_dispatch_is_silent_on_gcd_or_heel() {
    let c = ctx(arena(PetType::Spider), vec![], 1);
    let gcd = PetDispatchFacts { gcd_active: true, ..READY };
    assert_eq!(autonomous_dispatch(&c, PetType::Spider, 1, 1, gcd, &vec![4], &vec![]), None);
    let heel = PetDispatchFacts { in_heel: true, ..READY };
    assert_eq!(autonomous_dispatch(&c, PetType::Spider, 1, 1, heel, &vec![4], &vec![]), None);
    assert_eq!(autonomous_dispatch(&c, PetType::Felhunter, 1, 1, READY, &vec![4], &vec![]), None);
    // The owner without a target: rejected, not silent.
    let mut units = arena(PetType::Spider);
    units[0].target = None;
    let untargeted = ctx(units, vec![], 1);
    assert_eq!(
        autonomous_dispatch(&untargeted, PetType::Spider, 1, 1, READY, &vec![4], &vec![]),
        Some(PetDispatch::Reject { ability: PetAbility::SpiderWeb, reason: PetRejection::NoValidTarget })
    );
}

#[test]
fn spell_lock_takes_casts_before_channels() {
    let c = ctx(arena(PetType::Spider), vec![(5, vec![aura(AuraType::DamageImmunity, None)])], 1);
    let casts = vec![
        CastObservation { entity: 3, team: 1, alive: true, interrupted: false },
        CastObservation { entity: 4, team: 2, alive: true, interrupted: true },
        CastObservation { entity: 5, team: 2, alive: true, interrupted: false },
    ];
    let channels = vec![ChannelObservation { entity: 4, team: 2, alive: true }];
    assert_eq!(spell_lock_target(&c, 1, &casts, &channels, &vec![3, 4, 5]), Some(4));
    let open = ctx(arena(PetType::Spider), vec![], 1);
    assert_eq!(spell_lock_target(&open, 1, &casts, &channels, &vec![3, 4, 5]), Some(5));
    assert_eq!(spell_lock_target(&open, 1, &casts, &channels, &vec![3]), None);
}

#[test]
fn devour_magic_prefers_a_non_pet() {
    let mut poly = aura(AuraType::Polymorph, Some(5));
    poly.can_be_dispelled = true;
    let units = vec![
        unit(1, 1, CharacterClass::Warlock),
        pet(2, 1, CharacterClass::Warlock, PetType::Felhunter),
        unit(3, 1, CharacterClass::Mage),
        unit(4, 2, CharacterClass::Warrior),
    ];
    let c = ctx(units.clone(), vec![(1, vec![poly]), (2, vec![poly]), (3, vec![poly])], 2);
    assert_eq!(devour_magic_target(&c, 1, &vec![1, 2, 3]), Some(3));
    assert_eq!(devour_magic_target(&c, 1, &vec![1, 2]), Some(1));
    let pet_only = ctx(units.clone(), vec![(2, vec![poly])], 2);
    assert_eq!(devour_magic_target(&pet_only, 1, &vec![1, 2, 3]), Some(2));
    let nobody = ctx(units, vec![(4, vec![poly])], 2);
    assert_eq!(devour_magic_target(&nobody, 1, &vec![1, 2, 3, 4]), None);
}

#[test]
fn felhunter_interrupts_before_dispelling() {
    let mut poly = aura(AuraType::Polymorph, Some(5));
    poly.can_be_dispelled = true;
    let c = ctx(arena(PetType::Spider), vec![(3, vec![poly])], 2);
    let casts = vec![CastObservation { entity: 5, team: 2, alive: true, interrupted: false }];
    let range = vec![3, 4, 5];
    assert_eq!(
        felhunter_decision(&c, 1, false, false, false, &casts, &vec![], &range, &range),
        vec![PetDispatch::Cast { ability: PetAbility::SpellLock, target: 5 }]
    );
    assert_eq!(
        felhunter_decision(&c, 1, false, true, false, &casts, &vec![], &range, &range),
        vec![
            PetDispatch::Reject { ability: PetAbility::SpellLock, reason: PetRejection::OnCooldown },
            PetDispatch::Cast { ability: PetAbility::DevourMagic, target: 3 },
        ]
    );
    assert_eq!(
        felhunter_decision(&c, 1, false, false, true, &vec![], &vec![], &range, &range),
        vec![
            PetDispatch::Reject { ability: PetAbility::SpellLock, reason: PetRejection::NoValidTarget },
            PetDispatch::Reject { ability: PetAbility::DevourMagic, reason: PetRejection::OnCooldown },
        ]
    );
    assert_eq!(felhunter_decision(&c, 1, true, false, false, &casts, &vec![], &range, &range), vec![]);
}
