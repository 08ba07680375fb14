use arena_ai::aura::AuraType;
use arena_ai::cast_guard::{pre_cast_ok, CasterGates, PreCastOpts};
use arena_ai::context::{dispel_ability_of, AuraInfo, CombatContext, CombatantInfo, DispelAbility, EntityAuras};
use arena_ai::roster::{CharacterClass, PetType};
use arena_ai::selection::{
    best_dispel_score, decide_dispel, first_argmax, select_dispel_target, select_purge_target, DispelDecision,
    PurgeChoice,
};

fn unit(entity: u64, team: u8, class: CharacterClass) -> CombatantInfo {
    CombatantInfo {
        entity,
        team,
        slot: 0,
        class,
        is_alive: true,
        stealthed: false,
        target: None,
        is_pet: false,
        pet_type: None,
        pet: None,
    }
}

fn aura(effect_type: AuraType) -> AuraInfo {
    AuraInfo {
        effect_type,
        caster: None,
        breaks_on_any_damage: false,
        can_be_dispelled: false,
        can_be_purged: false,
        is_cleansable_poison: false,
        named: None,
    }
}

fn debuff(effect_type: AuraType) -> AuraInfo {
    AuraInfo { can_be_dispelled: true, ..aura(effect_type) }
}

fn buff(effect_type: AuraType) -> AuraInfo {
    AuraInfo { can_be_purged: true, ..aura(effect_type) }
}

fn ctx(combatants: Vec<CombatantInfo>, auras: Vec<(u64, Vec<AuraInfo>)>, me: u64) -> CombatContext {
    CombatContext {
        combatants,
        active_auras: auras.into_iter().map(|(entity, auras)| EntityAuras { entity, auras }).collect(),
        dispels_on_cooldown: Vec::new(),
        self_entity: me,
    }
}

/// Team 1: Mage (1), Priest (2). Team 2: Rogue (3), Priest (4), Felhunter (5),
/// Shaman (6).
fn arena() -> Vec<CombatantInfo> {
    let mut felhunter = unit(5, 2, CharacterClass::Warlock);
    felhunter.is_pet = true;
    felhunter.pet_type = Some(PetType::Felhunter);
    vec![
        unit(1, 1, CharacterClass::Mage),
        unit(2, 1, CharacterClass::Priest),
        unit(3, 2, CharacterClass::Rogue),
        unit(4, 2, CharacterClass::Priest),
        felhunter,
        unit(6, 2, CharacterClass::Shaman),
    ]
}

#[test]
fn member_filters_follow_entity_order() {
    let c = ctx(arena(), vec![], 1);
    let enemies: Vec<u64> = c.alive_enemies().iter().map(|i| i.entity).collect();
    assert_eq!(enemies, vec![3, 4, 6]);
    let with_pets: Vec<u64> = c.alive_enemies_including_pets().iter().map(|i| i.entity).collect();
    assert_eq!(with_pets, vec![3, 4, 5, 6]);
    let allies: Vec<u64> = c.alive_allies().iter().map(|i| i.entity).collect();
    assert_eq!(allies, vec![1, 2]);
    assert_eq!(c.self_info().unwrap().class, CharacterClass::Mage);
    assert!(c.target_info().is_none());
}

#[test]
fn enemy_healer_is_the_first_living_one_and_root_is_not_cc() {
    let mut units = arena();
    units[3].is_alive = false; // the Priest (4) is dead
    let c = ctx(units.clone(), vec![(6, vec![aura(AuraType::Root)])], 1);
    assert_eq!(c.enemy_healer(), Some(6));
    assert!(!c.enemy_healer_is_cced(), "a rooted healer still heals");
    assert!(c.is_ccd(6));
    let c = ctx(units, vec![(6, vec![aura(AuraType::Root), aura(AuraType::Polymorph)])], 1);
    assert!(c.enemy_healer_is_cced());
}

#[test]
fn targeting_respects_stealth_and_shadow_sight() {
    let mut units = arena();
    units[2].target = Some(1);
    units[2].stealthed = true;
    units[4].target = Some(1);
    let c = ctx(units.clone(), vec![], 1);
    let t: Vec<u64> = c.enemies_targeting(1).iter().map(|i| i.entity).collect();
    assert_eq!(t, vec![5], "the stealthed Rogue is invisible");
    assert!(!c.focused_by_threat(2));
    assert!(c.focused_by_threat(1), "the Felhunter is a non-healer threat");
    let c = ctx(units, vec![(1, vec![aura(AuraType::ShadowSight)])], 1);
    let t: Vec<u64> = c.enemies_targeting(1).iter().map(|i| i.entity).collect();
    assert_eq!(t, vec![3, 5]);
    assert!(c.enemies_targeting(77).is_empty());
}

#[test]
fn friendly_cc_and_dot_guards() {
    let mut poly = aura(AuraType::Polymorph);
    poly.breaks_on_any_damage = true;
    poly.caster = Some(1);
    let mut dot = aura(AuraType::DamageOverTime);
    dot.caster = Some(2);
    let mut enemy_dot = aura(AuraType::DamageOverTime);
    enemy_dot.caster = Some(3);
    let c = ctx(arena(), vec![(4, vec![poly]), (6, vec![dot]), (3, vec![enemy_dot])], 1);
    assert!(c.has_friendly_breakable_cc(4));
    assert!(!c.has_friendly_breakable_cc(6));
    assert!(c.has_friendly_dots_on_target(6));
    assert!(!c.has_friendly_dots_on_target(3));
    let opts = PreCastOpts { check_friendly_cc: true, ..PreCastOpts::default() };
    let gates = CasterGates { school_locked: false, costs_mana: true, silenced: false, on_cooldown: false, resources_ok: true };
    assert!(!pre_cast_ok(&c, opts, Some(4), gates));
    assert!(pre_cast_ok(&c, opts, Some(6), gates));
    assert!(pre_cast_ok(&c, opts, None, gates));
    let silenced = CasterGates { silenced: true, ..gates };
    assert!(!pre_cast_ok(&c, opts, None, silenced));
    assert!(pre_cast_ok(&c, PreCastOpts { bypass_silence: true, ..opts }, None, silenced));
    assert!(!pre_cast_ok(&c, opts, None, CasterGates { on_cooldown: true, ..gates }));
}

#[test]
fn dispellers_are_a_capability_not_a_role() {
    let units = arena();
    assert_eq!(dispel_ability_of(&units[4]), Some(DispelAbility::DevourMagic));
    assert_eq!(dispel_ability_of(&units[3]), Some(DispelAbility::DispelMagic));
    assert_eq!(dispel_ability_of(&units[5]), None);
    let mut c = ctx(units, vec![], 1);
    // Target the Rogue: its dispellers are the Priest and the Felhunter.
    assert_eq!(c.free_ally_dispellers(3), 2);
    // The Priest does not count itself.
    assert_eq!(c.free_ally_dispellers(4), 1);
    c.dispels_on_cooldown = vec![5];
    assert_eq!(c.free_ally_dispellers(3), 1);
    c.active_auras = vec![EntityAuras { entity: 4, auras: vec![aura(AuraType::Fear)] }];
    assert!(!c.can_dispel_allies(4));
    assert_eq!(c.free_ally_dispellers(3), 0);
    assert_eq!(c.free_ally_dispellers(99), 0);
}

#[test]
fn team_focus_and_melee_cc_target() {
    let mut units = arena();
    units[0].target = Some(4); // the Mage
    units[1].target = Some(3); // our Priest's target does not count
    let c = ctx(units, vec![(4, vec![aura(AuraType::DamageImmunity)])], 2);
    assert_eq!(c.team_focus(2), vec![4]);
    assert_eq!(c.team_focus(1), Vec::<u64>::new());
    assert!(c.entity_is_immune(4));
    assert_eq!(c.select_melee_cc_target(Some(4), Some(3), &vec![3, 4]), Some(3));
    assert_eq!(c.select_melee_cc_target(Some(6), Some(3), &vec![3, 6]), Some(6));
    assert_eq!(c.select_melee_cc_target(Some(6), Some(3), &vec![]), None);
}

#[test]
fn first_argmax_keeps_the_first_of_the_best() {
    assert_eq!(first_argmax(&vec![Some(3), None, Some(7), Some(7), Some(1)], 0), Some(2));
    assert_eq!(first_argmax(&vec![Some(3), Some(2)], 5), None);
    assert_eq!(first_argmax(&vec![], 0), None);
    assert_eq!(first_argmax(&vec![None, Some(-4)], -10), Some(1));
}

#[test]
fn dispel_scores_and_target() {
    let mut poison = aura(AuraType::MovementSpeedSlow);
    poison.is_cleansable_poison = true;
    assert_eq!(best_dispel_score(&vec![debuff(AuraType::Root), debuff(AuraType::Polymorph)], false), 100);
    assert_eq!(best_dispel_score(&vec![poison], false), -1);
    assert_eq!(best_dispel_score(&vec![poison], true), 50);
    assert_eq!(best_dispel_score(&vec![aura(AuraType::Polymorph)], false), -1);
    let c = ctx(
        arena(),
        vec![(1, vec![debuff(AuraType::Fear)]), (2, vec![debuff(AuraType::Polymorph)])],
        2,
    );
    assert_eq!(select_dispel_target(&c, 1, &vec![1, 2], false, 50), Some(2));
    assert_eq!(select_dispel_target(&c, 1, &vec![1], false, 50), Some(1));
    assert_eq!(select_dispel_target(&c, 1, &vec![1], false, 95), None);
    assert_eq!(
        decide_dispel(&c, 1, false, false, true, true, &vec![1, 2], false, 90),
        DispelDecision::Cast(2)
    );
    assert_eq!(
        decide_dispel(&c, 1, true, false, true, true, &vec![1, 2], false, 90),
        DispelDecision::SilencedOrLocked
    );
    assert_eq!(
        decide_dispel(&c, 1, false, true, false, false, &vec![1, 2], false, 90),
        DispelDecision::InsufficientMana
    );
    assert_eq!(
        decide_dispel(&c, 1, false, false, true, true, &vec![], false, 90),
        DispelDecision::NoValidTarget
    );
}

#[test]
fn purge_prefers_value_then_the_healer() {
    let c = ctx(
        arena(),
        vec![
            (3, vec![buff(AuraType::Absorb), buff(AuraType::MaxHealthIncrease)]),
            (4, vec![buff(AuraType::MaxHealthIncrease), buff(AuraType::Absorb)]),
            (6, vec![buff(AuraType::HealingOverTime)]),
        ],
        1,
    );
    // Tie at 100 between the Rogue and the Priest: the healer wins.
    assert_eq!(
        select_purge_target(&c, 1, &vec![3, 4, 6]),
        Some(PurgeChoice { target: 4, aura: AuraType::Absorb })
    );
    assert_eq!(
        select_purge_target(&c, 1, &vec![3, 6]),
        Some(PurgeChoice { target: 3, aura: AuraType::Absorb })
    );
    assert_eq!(
        select_purge_target(&c, 1, &vec![6]),
        Some(PurgeChoice { target: 6, aura: AuraType::HealingOverTime })
    );
    let cheap = ctx(arena(), vec![(3, vec![buff(AuraType::AttackPowerIncrease)])], 1);
    assert_eq!(select_purge_target(&cheap, 1, &vec![3]), None);
}

#[test]
fn freezing_trap_prefers_the_enemy_healer() {
    let c = ctx(arena(), vec![], 1);
    assert_eq!(c.freezing_trap_candidate(3), 4);
    let mut units = arena();
    units[3].is_alive = false;
    units[5].is_alive = false;
    let c = ctx(units, vec![], 1);
    assert_eq!(c.freezing_trap_candidate(3), 3);
}

#[test]
fn attacker_mix_counts_pets_as_melee() {
    let mut units = arena();
    units[2].target = Some(1); // Rogue on our Mage
    units[4].target = Some(1); // Felhunter on our Mage
    units[3].target = Some(1); // enemy Priest wanding our Mage
    units[5].target = Some(2); // Shaman on our Priest
    let c = ctx(units, vec![], 1);
    let mix = c.attacker_mix_on(1, 1);
    assert_eq!((mix.melee, mix.ranged), (2, 1));
    let mix = c.attacker_mix_on(2, 1);
    assert_eq!((mix.melee, mix.ranged), (0, 1));
    assert_eq!(c.attacker_mix_on(3, 2).total(), 0);
}

#[test]
fn polymorph_candidates_skip_held_immune_and_dr_immune_units() {
    let c = ctx(
        arena(),
        vec![
            (3, vec![aura(AuraType::Root)]),
            (4, vec![aura(AuraType::Incapacitate)]),
        ],
        1,
    );
    let ids: Vec<u64> = c.polymorph_candidates(&vec![]).iter().map(|i| i.entity).collect();
    assert_eq!(ids, vec![4, 6], "Root holds the Rogue; Incapacitate does not block; pets excluded");
    let ids: Vec<u64> = c.polymorph_candidates(&vec![6]).iter().map(|i| i.entity).collect();
    assert_eq!(ids, vec![4]);
    let c = ctx(arena(), vec![(4, vec![aura(AuraType::DamageImmunity)])], 1);
    let ids: Vec<u64> = c.polymorph_candidates(&vec![]).iter().map(|i| i.entity).collect();
    assert_eq!(ids, vec![3, 6]);
}
