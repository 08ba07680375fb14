use arena_ai::aura::AuraType;
use arena_ai::context::{AuraInfo, CombatContext, CombatantInfo, EntityAuras};
use arena_ai::kiting::{
    dps_tick, mage_kite_entry, mage_kite_sustain, melee_within, nearest_melee_threat, DpsTick, KiterFacts, KiterMove,
};
use arena_ai::postures::DpsPosture;
use arena_ai::roster::CharacterClass;

fn unit(entity: u64, team: u8, class: CharacterClass) -> CombatantInfo {
    CombatantInfo {
        entity,
        team,
        slot: 0,
        class,
        is_alive: true,
        stealthed: false,
        target: None,
        is_pet: false,
        pet_type: None,
        pet: None,
    }
}

fn aura(effect_type: AuraType, caster: Option<u64>) -> AuraInfo {
    AuraInfo {
        effect_type,
        caster,
        breaks_on_any_damage: false,
        can_be_dispelled: false,
        can_be_purged: false,
        is_cleansable_poison: false,
        named: None,
    }
}

fn ctx(combatants: Vec<CombatantInfo>, auras: Vec<(u64, Vec<AuraInfo>)>, me: u64) -> CombatContext {
    CombatContext {
        combatants,
        active_auras: auras.into_iter().map(|(entity, auras)| EntityAuras { entity, auras }).collect(),
        dispels_on_cooldown: Vec::new(),
        self_entity: me,
    }
}

/// Team 1: Mage (1), Priest (2). Team 2: Warrior (3), Paladin (4), Rogue (5,
/// stealthed).
fn arena() -> Vec<CombatantInfo> {
    let mut rogue = unit(5, 2, CharacterClass::Rogue);
    rogue.stealthed = true;
    vec![
        unit(1, 1, CharacterClass::Mage),
        unit(2, 1, CharacterClass::Priest),
        unit(3, 2, CharacterClass::Warrior),
        unit(4, 2, CharacterClass::Paladin),
        rogue,
    ]
}

#[test]
fn mage_entry_needs_its_own_impair_in_melee_range() {
    let mine = ctx(arena(), vec![(3, vec![aura(AuraType::Root, Some(1))])], 1);
    assert!(mage_kite_entry(&mine, 1, &vec![3]));
    assert!(!mage_kite_entry(&mine, 1, &vec![4]), "the rooted enemy is not in melee range");
    let theirs = ctx(arena(), vec![(3, vec![aura(AuraType::Root, Some(2))])], 1);
    assert!(!mage_kite_entry(&theirs, 1, &vec![3]), "a teammate's root does not count");
}

#[test]
fn mage_sustain_root_anywhere_slow_in_ring() {
    let rooted = ctx(arena(), vec![(3, vec![aura(AuraType::Root, Some(1))])], 1);
    assert!(mage_kite_sustain(&rooted, 1, &vec![]));
    let slowed = ctx(arena(), vec![(3, vec![aura(AuraType::MovementSpeedSlow, Some(1))])], 1);
    assert!(mage_kite_sustain(&slowed, 1, &vec![3]));
    assert!(!mage_kite_sustain(&slowed, 1, &vec![4]), "a slowed enemy kited out of the ring");
}

#[test]
fn hunter_kites_warriors_and_rogues_only() {
    let c = ctx(arena(), vec![], 1);
    assert!(melee_within(&c, 1, &vec![3]));
    assert!(!melee_within(&c, 1, &vec![4]), "the Paladin is not a kite threat");
    assert!(!melee_within(&c, 1, &vec![5]), "a stealthed Rogue is invisible");
    assert!(!melee_within(&c, 1, &vec![2]), "an ally");
    assert_eq!(nearest_melee_threat(&c, 1, &vec![4, 5, 3]), Some(3));
    assert_eq!(nearest_melee_threat(&c, 1, &vec![4, 5]), None);
}

fn facts() -> KiterFacts {
    KiterFacts {
        hold_active: false,
        sustain: false,
        entry_trigger: false,
        seeking: false,
        chase_armed: false,
        directive_live: false,
    }
}

#[test]
fn engage_with_a_clear_line_drops_the_directive() {
    let t = dps_tick(DpsPosture::Engage, &KiterFacts { directive_live: true, ..facts() });
    assert_eq!(t, DpsTick { next: DpsPosture::Engage, transitioned: false, movement: KiterMove::ClearDirective });
}

#[test]
fn engage_seeking_holds_then_chases() {
    let seeking = KiterFacts { seeking: true, directive_live: true, ..facts() };
    assert_eq!(dps_tick(DpsPosture::Engage, &seeking).movement, KiterMove::Hold);
    let expired = KiterFacts { directive_live: false, ..seeking };
    assert_eq!(dps_tick(DpsPosture::Engage, &expired).movement, KiterMove::ScoreDirection);
    let armed = KiterFacts { chase_armed: true, ..expired };
    assert_eq!(dps_tick(DpsPosture::Engage, &armed).movement, KiterMove::ChaseTarget);
}

#[test]
fn kite_entry_and_exit() {
    let enter = dps_tick(DpsPosture::Engage, &KiterFacts { entry_trigger: true, directive_live: true, ..facts() });
    assert_eq!(enter, DpsTick { next: DpsPosture::Kite, transitioned: true, movement: KiterMove::ScoreDirection });
    let hold = dps_tick(DpsPosture::Kite, &KiterFacts { hold_active: true, directive_live: true, ..facts() });
    assert_eq!(hold, DpsTick { next: DpsPosture::Kite, transitioned: false, movement: KiterMove::Hold });
    let exit = dps_tick(DpsPosture::Kite, &KiterFacts { seeking: true, chase_armed: true, ..facts() });
    assert_eq!(exit, DpsTick { next: DpsPosture::Engage, transitioned: true, movement: KiterMove::ChaseTarget });
}

#[test]
fn kite_threat_is_warrior_and_rogue_only() {
    assert!(CharacterClass::Warrior.is_kite_threat(), "Warrior is a kite threat");
    assert!(CharacterClass::Rogue.is_kite_threat(), "Rogue is a kite threat");
    for ranged in [
        CharacterClass::Mage,
        CharacterClass::Warlock,
        CharacterClass::Priest,
        CharacterClass::Paladin,
        CharacterClass::Hunter,
    ] {
        assert!(
            !ranged.is_kite_threat(),
            "{:?} must NOT be a kite threat — the Hunter holds and shoots, it does not flee",
            ranged
        );
    }
}
