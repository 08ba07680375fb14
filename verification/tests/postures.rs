use arena_ai::postures::{
    chase_binding, ChaseBinding,
    enter_posture, enter_shaman_posture, next_kite_posture, next_paladin_posture, next_priest_posture,
    next_shaman_posture, paladin_pressure_trigger, rotation_hoj_allowed, DpsPosture, HealerPostureState,
    HealerTick, HunterDipPlan, Posture,
};

fn quiet() -> HealerTick {
    HealerTick {
        trigger: false,
        focused: false,
        escape_committed: false,
        hold_expired: true,
        escape_window: false,
        dip_should_abort: false,
        dip_entry: None,
    }
}

#[test]
fn escape_holds_for_the_whole_window() {
    let t = HealerTick { escape_committed: true, trigger: false, ..quiet() };
    assert_eq!(next_priest_posture(Posture::Escape, &t), Posture::Escape);
    assert_eq!(next_paladin_posture(Posture::Escape, &t), Posture::Escape);
    assert_eq!(next_shaman_posture(Posture::Escape, &t), Posture::Escape);
    // Window over: pressured if still threatened, else free.
    let still = HealerTick { trigger: true, ..quiet() };
    assert_eq!(next_priest_posture(Posture::Escape, &still), Posture::Pressured);
    assert_eq!(next_priest_posture(Posture::Escape, &quiet()), Posture::Free);
}

#[test]
fn pressured_hysteresis_and_escape_upgrade() {
    let held = HealerTick { hold_expired: false, ..quiet() };
    assert_eq!(next_priest_posture(Posture::Pressured, &held), Posture::Pressured);
    assert_eq!(next_priest_posture(Posture::Pressured, &quiet()), Posture::Free);
    let window = HealerTick { trigger: true, escape_window: true, ..quiet() };
    assert_eq!(next_priest_posture(Posture::Pressured, &window), Posture::Escape);
    assert_eq!(next_shaman_posture(Posture::Pressured, &window), Posture::Escape);
    // A window without a live trigger is never computed, so no escape.
    let stale = HealerTick { escape_window: true, hold_expired: false, ..quiet() };
    assert_eq!(next_priest_posture(Posture::Pressured, &stale), Posture::Pressured);
}

#[test]
fn dip_preemption_differs_between_priest_and_paladin() {
    // Healing-heavy trigger without being focused: the Priest abandons the
    // dip, the Paladin keeps it.
    let heavy = HealerTick { trigger: true, focused: false, ..quiet() };
    assert_eq!(next_priest_posture(Posture::Dip, &heavy), Posture::Pressured);
    assert_eq!(next_paladin_posture(Posture::Dip, &heavy), Posture::Dip);
    let focused = HealerTick { trigger: true, focused: true, dip_should_abort: true, ..quiet() };
    assert_eq!(next_paladin_posture(Posture::Dip, &focused), Posture::Pressured);
    let abort = HealerTick { dip_should_abort: true, ..quiet() };
    assert_eq!(next_priest_posture(Posture::Dip, &abort), Posture::Free);
    assert_eq!(next_paladin_posture(Posture::Dip, &abort), Posture::Free);
    assert_eq!(next_priest_posture(Posture::Dip, &quiet()), Posture::Dip);
}

#[test]
fn free_takes_pressure_before_a_dip() {
    let both = HealerTick { trigger: true, dip_entry: Some(42), ..quiet() };
    assert_eq!(next_priest_posture(Posture::Free, &both), Posture::Pressured);
    let dip = HealerTick { dip_entry: Some(42), ..quiet() };
    assert_eq!(next_priest_posture(Posture::Free, &dip), Posture::Dip);
    assert_eq!(next_paladin_posture(Posture::Free, &dip), Posture::Dip);
    // The Shaman never dips.
    assert_eq!(next_shaman_posture(Posture::Free, &dip), Posture::Free);
    assert_eq!(next_priest_posture(Posture::Free, &quiet()), Posture::Free);
}

#[test]
fn paladin_trigger_needs_a_teammate() {
    assert!(paladin_pressure_trigger(true, false, false, true));
    assert!(paladin_pressure_trigger(false, true, true, true));
    assert!(!paladin_pressure_trigger(false, true, false, true));
    assert!(!paladin_pressure_trigger(true, true, true, false));
}

#[test]
fn transition_bookkeeping() {
    let free = HealerPostureState { posture: Posture::Free, anchor: Some(5), dip_target: None };
    let dip = enter_posture(free, Posture::Dip, Some(9));
    assert_eq!(dip, HealerPostureState { posture: Posture::Dip, anchor: None, dip_target: Some(9) });
    let pressured = enter_posture(dip, Posture::Pressured, None);
    assert_eq!(pressured, HealerPostureState { posture: Posture::Pressured, anchor: None, dip_target: None });
    let anchored = HealerPostureState { posture: Posture::Pressured, anchor: Some(3), dip_target: None };
    let escaping = enter_posture(anchored, Posture::Escape, None);
    assert_eq!(escaping, HealerPostureState { posture: Posture::Escape, anchor: Some(3), dip_target: None });
    let back = enter_posture(escaping, Posture::Free, None);
    assert_eq!(back, HealerPostureState { posture: Posture::Free, anchor: None, dip_target: None });
    // Staying put changes nothing.
    assert_eq!(enter_posture(anchored, Posture::Pressured, Some(1)), anchored);
    let shaman = enter_shaman_posture(anchored, Posture::Free);
    assert_eq!(shaman.anchor, None);
    assert_eq!(enter_shaman_posture(anchored, Posture::Escape).anchor, Some(3));
}

#[test]
fn hoj_reservation() {
    assert!(rotation_hoj_allowed(Posture::Free, false));
    assert!(!rotation_hoj_allowed(Posture::Free, true));
    assert!(!rotation_hoj_allowed(Posture::Dip, true));
    assert!(rotation_hoj_allowed(Posture::Pressured, true));
    assert!(rotation_hoj_allowed(Posture::Escape, true));
}

#[test]
fn kite_machine() {
    assert_eq!(next_kite_posture(DpsPosture::Kite, true, false, false), DpsPosture::Kite);
    assert_eq!(next_kite_posture(DpsPosture::Kite, false, true, false), DpsPosture::Kite);
    assert_eq!(next_kite_posture(DpsPosture::Kite, false, false, true), DpsPosture::Engage);
    assert_eq!(next_kite_posture(DpsPosture::Engage, false, false, true), DpsPosture::Kite);
    assert_eq!(next_kite_posture(DpsPosture::Engage, true, true, false), DpsPosture::Engage);
}

#[test]
fn hunter_dip_plan_movement_ownership() {
    assert!(!HunterDipPlan::Rotation.owns_movement());
    assert!(HunterDipPlan::Walking.owns_movement());
    assert!(HunterDipPlan::DipCast { target: 7 }.owns_movement());
    assert_eq!(HunterDipPlan::default(), HunterDipPlan::Rotation);
}

#[test]
fn chase_binding_resets_on_swap_and_death() {
    assert_eq!(chase_binding(None, Some(7)), ChaseBinding { bound: Some(7), keep_accumulated: false });
    assert_eq!(chase_binding(Some(7), Some(7)), ChaseBinding { bound: Some(7), keep_accumulated: true });
    assert_eq!(chase_binding(Some(7), Some(9)), ChaseBinding { bound: Some(9), keep_accumulated: false });
    assert_eq!(chase_binding(Some(7), None), ChaseBinding { bound: None, keep_accumulated: false });
}
