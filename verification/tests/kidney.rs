use arena_ai::aura::AuraType;
use arena_ai::context::{AuraInfo, CombatContext, CombatantInfo, EntityAuras};
use arena_ai::kidney::{plan_kidney_shot, CastFacts, KidneyHoldReason, KidneyInputs, KidneyPlan};
use arena_ai::roster::CharacterClass;

fn unit(entity: u64, team: u8, class: CharacterClass) -> CombatantInfo {
    CombatantInfo {
        entity,
        team,
        slot: 0,
        class,
        is_alive: true,
        stealthed: false,
        target: None,
        is_pet: false,
        pet_type: None,
        pet: None,
    }
}

/// Rogue (1) on team 1; enemy Warrior (2) and Priest (3).
fn ctx(auras: Vec<EntityAuras>) -> CombatContext {
    CombatContext {
        combatants: vec![
            unit(1, 1, CharacterClass::Rogue),
            unit(2, 2, CharacterClass::Warrior),
            unit(3, 2, CharacterClass::Priest),
        ],
        active_auras: auras,
        dispels_on_cooldown: vec![],
        self_entity: 1,
    }
}

fn inputs() -> KidneyInputs {
    KidneyInputs {
        kill_target: Some(2),
        cc_target: Some(3),
        kill_in_melee: true,
        opener_stun: None,
        kidney_on_cooldown: false,
        kidney_affordable: true,
        kick_on_cooldown: false,
    }
}

fn casting(entity: u64) -> CastFacts {
    CastFacts { entity, casting: true, lockout_covers_cast: false, lockout: None }
}

#[test]
fn opener_extend_stacks_onto_an_expiring_cheap_shot() {
    let c = ctx(vec![]);
    let i = KidneyInputs { opener_stun: Some(true), ..inputs() };
    assert_eq!(plan_kidney_shot(&c, &i, &vec![2, 3], &vec![]), KidneyPlan::Fire { target: 2, stacking: true });
    let i = KidneyInputs { opener_stun: Some(false), ..inputs() };
    assert_eq!(
        plan_kidney_shot(&c, &i, &vec![2, 3], &vec![]),
        KidneyPlan::Pool(KidneyHoldReason::PoolForOpener)
    );
    assert_eq!(KidneyHoldReason::PoolForOpener.note(), "pooling Kidney to extend opener Cheap Shot");
}

#[test]
fn non_casters_are_stunned_aggressively() {
    let c = ctx(vec![]);
    let i = KidneyInputs { cc_target: None, ..inputs() };
    assert_eq!(plan_kidney_shot(&c, &i, &vec![2], &vec![]), KidneyPlan::Fire { target: 2, stacking: false });
    assert_eq!(plan_kidney_shot(&c, &i, &vec![], &vec![]), KidneyPlan::NoTarget);
}

#[test]
fn casters_get_the_kick_hold_kidney_chain() {
    let c = ctx(vec![]);
    // Casting, Kick ready: hold.
    assert_eq!(
        plan_kidney_shot(&c, &inputs(), &vec![2, 3], &vec![casting(3)]),
        KidneyPlan::Hold(KidneyHoldReason::KickWillInterrupt)
    );
    // Casting, Kick on cooldown: stun.
    let no_kick = KidneyInputs { kick_on_cooldown: true, ..inputs() };
    assert_eq!(
        plan_kidney_shot(&c, &no_kick, &vec![2, 3], &vec![casting(3)]),
        KidneyPlan::Fire { target: 3, stacking: false }
    );
    // Casting into a lockout that covers it: hold.
    let covered = CastFacts { lockout_covers_cast: true, lockout: Some(false), ..casting(3) };
    assert_eq!(
        plan_kidney_shot(&c, &no_kick, &vec![2, 3], &vec![covered]),
        KidneyPlan::Hold(KidneyHoldReason::LockoutCoversCast)
    );
    // Not casting, lockout lapsing: stun into it.
    let lapsing = CastFacts { entity: 3, casting: false, lockout_covers_cast: false, lockout: Some(true) };
    assert_eq!(
        plan_kidney_shot(&c, &inputs(), &vec![2, 3], &vec![lapsing]),
        KidneyPlan::Fire { target: 3, stacking: false }
    );
    // Not casting, lockout still denying: pool when short of energy, else hold.
    let active = CastFacts { lockout: Some(false), ..lapsing };
    let poor = KidneyInputs { kidney_affordable: false, ..inputs() };
    assert_eq!(
        plan_kidney_shot(&c, &poor, &vec![2, 3], &vec![active]),
        KidneyPlan::Pool(KidneyHoldReason::PoolForLockout)
    );
    assert_eq!(
        plan_kidney_shot(&c, &inputs(), &vec![2, 3], &vec![active]),
        KidneyPlan::Hold(KidneyHoldReason::LockoutStillActive)
    );
    // No lockout, not casting: stun proactively.
    assert_eq!(
        plan_kidney_shot(&c, &inputs(), &vec![2, 3], &vec![]),
        KidneyPlan::Fire { target: 3, stacking: false }
    );
}

#[test]
fn immune_cc_target_falls_back_to_the_kill_target() {
    let shield = AuraInfo {
        effect_type: AuraType::DamageImmunity,
        caster: None,
        breaks_on_any_damage: false,
        can_be_dispelled: false,
        can_be_purged: false,
        is_cleansable_poison: false,
        named: None,
    };
    let c = ctx(vec![EntityAuras { entity: 3, auras: vec![shield] }]);
    assert_eq!(
        plan_kidney_shot(&c, &inputs(), &vec![2, 3], &vec![casting(3)]),
        KidneyPlan::Fire { target: 2, stacking: false }
    );
}

