//! Movement-posture state machines.
//!
//! Healers (Priest, Paladin, Shaman) run FREE / PRESSURED / ESCAPE / DIP;
//! DPS kiters (Mage, Hunter) run ENGAGE / KITE. Each tick the caller reduces
//! the world to the handful of facts a transition reads — is the pressure
//! trigger live, has the committed escape window or the pressured hold run
//! out, is an escape window or a dip target available — and these functions
//! decide the next posture and the discrete bookkeeping that goes with a
//! transition. The healers' pressure trigger and the discrete choices of
//! the PRESSURED tick (its threat set, wand target and movement) are here
//! too.
use vstd::prelude::*;
use crate::context::{CombatContext, CombatantInfo, contains_id, lemma_filter_step};

verus! {

/// A healer's movement posture.
#[derive(Clone, Copy, Debug, PartialEq, Eq, Structural)]
pub enum Posture {
    /// Formation duties; no threat close enough to matter.
    Free,
    /// Targeted by a close or closing threat: retreat and heal from safety.
    Pressured,
    /// Every proximate attacker is impaired: use the window to gain distance.
    Escape,
    /// Offensive walk toward the enemy healer to land a crowd control.
    Dip,
}

/// What a healer observes this tick, reduced to the facts a transition reads.
#[derive(Clone, Copy, Debug, PartialEq, Eq, Structural)]
pub struct HealerTick {
    /// The PRESSURED trigger is live this tick.
    pub trigger: bool,
    /// Targeted by a close or closing visible threat (the Paladin's dip
    /// preemption reads this rather than the full trigger).
    pub focused: bool,
    /// The committed ESCAPE window has not run out yet.
    pub escape_committed: bool,
    /// The PRESSURED hysteresis hold has run out.
    pub hold_expired: bool,
    /// Every proximate visible threat is impaired long enough to be worth an
    /// escape.
    pub escape_window: bool,
    /// A live dip has hit one of its abort conditions.
    pub dip_should_abort: bool,
    /// The dip target a FREE healer could walk toward, if any.
    pub dip_entry: Option<u64>,
}

/// The Priest's transition table. Becoming pressured preempts a dip.
pub open spec fn spec_next_priest_posture(prev: Posture, t: HealerTick) -> Posture {
    match prev {
        Posture::Escape => if t.escape_committed {
            Posture::Escape
        } else if t.trigger {
            Posture::Pressured
        } else {
            Posture::Free
        },
        Posture::Pressured => if !t.trigger && t.hold_expired {
            Posture::Free
        } else if t.trigger && t.escape_window {
            Posture::Escape
        } else {
            Posture::Pressured
        },
        Posture::Dip => if t.trigger {
            Posture::Pressured
        } else if t.dip_should_abort {
            Posture::Free
        } else {
            Posture::Dip
        },
        Posture::Free => if t.trigger {
            Posture::Pressured
        } else if t.dip_entry is Some {
            Posture::Dip
        } else {
            Posture::Free
        },
    }
}

/// The Paladin's transition table. Only becoming *focused* preempts a dip;
/// being healing-heavy alone does not.
pub open spec fn spec_next_paladin_posture(prev: Posture, t: HealerTick) -> Posture {
    match prev {
        Posture::Dip => if t.focused {
            Posture::Pressured
        } else if t.dip_should_abort {
            Posture::Free
        } else {
            Posture::Dip
        },
        _ => spec_next_priest_posture(prev, t),
    }
}

/// The Shaman's transition table: the healer machine without a dip.
pub open spec fn spec_next_shaman_posture(prev: Posture, t: HealerTick) -> Posture {
    match prev {
        Posture::Escape | Posture::Pressured => spec_next_priest_posture(prev, t),
        _ => if t.trigger {
            Posture::Pressured
        } else {
            Posture::Free
        },
    }
}

/// Next Priest posture: ESCAPE is committed for its whole window, PRESSURED
/// relaxes only once the trigger is gone and the hold has run out, a live
/// trigger upgrades PRESSURED to ESCAPE when a window exists, pressure
/// preempts a dip unconditionally, and a FREE Priest takes pressure first,
/// then a dip opportunity.
pub fn next_priest_posture(prev: Posture, t: &HealerTick) -> (r: Posture)
    ensures
        r == spec_next_priest_posture(prev, *t),
{
    match prev {
        Posture::Escape => {
            if t.escape_committed {
                Posture::Escape
            } else if t.trigger {
                Posture::Pressured
            } else {
                Posture::Free
            }
        },
        Posture::Pressured => {
            if !t.trigger && t.hold_expired {
                Posture::Free
            } else if t.trigger && t.escape_window {
                Posture::Escape
            } else {
                Posture::Pressured
            }
        },
        Posture::Dip => {
            if t.trigger {
                Posture::Pressured
            } else if t.dip_should_abort {
                Posture::Free
            } else {
                Posture::Dip
            }
        },
        Posture::Free => {
            if t.trigger {
                Posture::Pressured
            } else if t.dip_entry.is_some() {
                Posture::Dip
            } else {
                Posture::Free
            }
        },
    }
}

/// Next Paladin posture: as the Priest's, except that a dip is preempted by
/// becoming focused, not by the wider pressure trigger.
pub fn next_paladin_posture(prev: Posture, t: &HealerTick) -> (r: Posture)
    ensures
        r == spec_next_paladin_posture(prev, *t),
{
    match prev {
        Posture::Dip => {
            if t.focused {
                Posture::Pressured
            } else if t.dip_should_abort {
                Posture::Free
            } else {
                Posture::Dip
            }
        },
        _ => next_priest_posture(prev, t),
    }
}

/// Next Shaman posture: FREE / PRESSURED / ESCAPE with no dip.
pub fn next_shaman_posture(prev: Posture, t: &HealerTick) -> (r: Posture)
    ensures
        r == spec_next_shaman_posture(prev, *t),
{
    match prev {
        Posture::Escape | Posture::Pressured => next_priest_posture(prev, t),
        _ => {
            if t.trigger {
                Posture::Pressured
            } else {
                Posture::Free
            }
        },
    }
}

/// The Paladin's PRESSURED trigger as a formula.
pub open spec fn spec_paladin_pressure_trigger(
    focused: bool,
    team_hurting: bool,
    melee_pressure: bool,
    has_teammate: bool,
) -> bool {
    (focused || (team_hurting && melee_pressure)) && has_teammate
}

/// The Paladin's PRESSURED trigger: focused, or healing-heavy (the team is
/// hurting AND a melee or pet is in the Paladin's face) — and only when there
/// is a teammate to retreat for.
pub fn paladin_pressure_trigger(
    focused: bool,
    team_hurting: bool,
    melee_pressure: bool,
    has_teammate: bool,
) -> (r: bool)
    ensures
        r == spec_paladin_pressure_trigger(focused, team_hurting, melee_pressure, has_teammate),
{
    let healing_heavy = team_hurting && melee_pressure;
    (focused || healing_heavy) && has_teammate
}

/// The discrete part of a healer's persistent posture state: the posture, the
/// sticky ally anchor and the dip target.
#[derive(Clone, Copy, Debug, PartialEq, Eq, Structural)]
pub struct HealerPostureState {
    pub posture: Posture,
    pub anchor: Option<u64>,
    pub dip_target: Option<u64>,
}

/// The bookkeeping a dip-capable healer (Priest, Paladin) does when it
/// changes posture: entering PRESSURED drops any dip target, entering ESCAPE
/// keeps anchor and dip state, entering a DIP adopts the dip target and drops
/// the anchor, and returning to FREE drops both. Staying put changes nothing.
pub open spec fn spec_enter_posture(
    state: HealerPostureState,
    next: Posture,
    dip_entry: Option<u64>,
) -> HealerPostureState {
    if next == state.posture {
        state
    } else {
        match next {
            Posture::Pressured => HealerPostureState { posture: next, anchor: state.anchor, dip_target: None },
            Posture::Escape => HealerPostureState { posture: next, ..state },
            Posture::Dip => HealerPostureState { posture: next, anchor: None, dip_target: dip_entry },
            Posture::Free => HealerPostureState { posture: next, anchor: None, dip_target: None },
        }
    }
}

/// Apply a dip-capable healer's transition bookkeeping.
pub fn enter_posture(state: HealerPostureState, next: Posture, dip_entry: Option<u64>) -> (r:
    HealerPostureState)
    ensures
        r == spec_enter_posture(state, next, dip_entry),
{
    if next == state.posture {
        return state;
    }
    match next {
        Posture::Pressured => HealerPostureState { posture: next, anchor: state.anchor, dip_target: None },
        Posture::Escape => HealerPostureState { posture: next, ..state },
        Posture::Dip => HealerPostureState { posture: next, anchor: None, dip_target: dip_entry },
        Posture::Free => HealerPostureState { posture: next, anchor: None, dip_target: None },
    }
}

/// The Shaman's bookkeeping: entering PRESSURED or ESCAPE keeps the anchor;
/// any other transition drops it.
pub open spec fn spec_enter_shaman_posture(state: HealerPostureState, next: Posture) -> HealerPostureState {
    if next == state.posture {
        state
    } else if next == Posture::Pressured || next == Posture::Escape {
        HealerPostureState { posture: next, ..state }
    } else {
        HealerPostureState { posture: next, anchor: None, ..state }
    }
}

/// Apply the Shaman's transition bookkeeping.
pub fn enter_shaman_posture(state: HealerPostureState, next: Posture) -> (r: HealerPostureState)
    ensures
        r == spec_enter_shaman_posture(state, next),
{
    if next == state.posture {
        return state;
    }
    match next {
        Posture::Pressured | Posture::Escape => HealerPostureState { posture: next, ..state },
        _ => HealerPostureState { posture: next, anchor: None, ..state },
    }
}

/// Pure Hammer of Justice reservation predicate: rotation HoJ is allowed
/// unless a living enemy healer exists AND the Paladin is not under pressure.
/// PRESSURED and ESCAPE release the reservation; FREE and DIP keep it.
pub fn rotation_hoj_allowed(posture: Posture, enemy_healer_alive: bool) -> (r: bool)
    ensures
        r == (!enemy_healer_alive || posture == Posture::Pressured || posture == Posture::Escape),
{
    !enemy_healer_alive || matches!(posture, Posture::Pressured | Posture::Escape)
}

/// A DPS kiter's movement posture.
#[derive(Clone, Copy, Debug, PartialEq, Eq, Structural)]
pub enum DpsPosture {
    Engage,
    Kite,
}

/// The kite transition table shared by the Mage and the Hunter.
pub open spec fn spec_next_kite_posture(
    prev: DpsPosture,
    hold_active: bool,
    sustain: bool,
    entry_trigger: bool,
) -> DpsPosture {
    if prev == DpsPosture::Kite && (hold_active || sustain) {
        DpsPosture::Kite
    } else if prev == DpsPosture::Kite {
        DpsPosture::Engage
    } else if entry_trigger {
        DpsPosture::Kite
    } else {
        DpsPosture::Engage
    }
}

/// Next kiter posture: KITE holds through its hysteresis window and while
/// the sustain condition lasts, then drops to ENGAGE; ENGAGE flips to KITE on
/// the entry trigger.
pub fn next_kite_posture(prev: DpsPosture, hold_active: bool, sustain: bool, entry_trigger: bool) -> (r:
    DpsPosture)
    ensures
        r == spec_next_kite_posture(prev, hold_active, sustain, entry_trigger),
{
    match prev {
        DpsPosture::Kite => {
            if hold_active || sustain {
                DpsPosture::Kite
            } else {
                DpsPosture::Engage
            }
        },
        DpsPosture::Engage => {
            if entry_trigger {
                DpsPosture::Kite
            } else {
                DpsPosture::Engage
            }
        },
    }
}

/// Plan handed from the Hunter's Freezing Trap dip to its ability pass.
#[derive(Clone, Copy, Debug, PartialEq, Eq, Structural)]
pub enum HunterDipPlan {
    /// No dip — run the normal ENGAGE/KITE machine and rotation.
    Rotation,
    /// Dip live, walking toward the target; the dip owns movement.
    Walking,
    /// Arrived within throw range: place Freezing Trap on `target` now.
    DipCast { target: u64 },
}

impl Default for HunterDipPlan {
    fn default() -> (r: Self)
        ensures
            r == HunterDipPlan::Rotation,
    {
        HunterDipPlan::Rotation
    }
}

impl HunterDipPlan {
    /// Does the dip own movement this frame (so the caller skips the
    /// ENGAGE/KITE evaluation)?
    pub fn owns_movement(self) -> (r: bool)
        ensures
            r == !(self is Rotation),
    {
        matches!(self, HunterDipPlan::Walking | HunterDipPlan::DipCast { .. })
    }
}


/// How the occlusion bucket's binding moves this frame: with no living kill
/// target the bucket resets and unbinds; otherwise it binds to the kill
/// target and keeps its accumulated fill only if it was already bound to
/// that same target (a swap, or a first bind, starts from empty).
#[derive(Clone, Copy, Debug, PartialEq, Eq, Structural)]
pub struct ChaseBinding {
    pub bound: Option<u64>,
    pub keep_accumulated: bool,
}

pub open spec fn spec_chase_binding(prev_target: Option<u64>, kill_target: Option<u64>) -> ChaseBinding {
    match kill_target {
        None => ChaseBinding { bound: None, keep_accumulated: false },
        Some(t) => ChaseBinding { bound: Some(t), keep_accumulated: prev_target == Some(t) },
    }
}

/// The binding step of the occlusion leaky bucket.
pub fn chase_binding(prev_target: Option<u64>, kill_target: Option<u64>) -> (r: ChaseBinding)
    ensures
        r == spec_chase_binding(prev_target, kill_target),
{
    match kill_target {
        None => ChaseBinding { bound: None, keep_accumulated: false },
        Some(t) => ChaseBinding { bound: Some(t), keep_accumulated: prev_target == Some(t) },
    }
}

/// A target swap always empties the bucket, and the bucket is always bound
/// to the current kill target.
pub proof fn lemma_chase_binding_resets_on_swap(prev: Option<u64>, kill: Option<u64>)
    ensures
        spec_chase_binding(prev, kill).bound == kill,
        spec_chase_binding(prev, kill).keep_accumulated ==> (kill is Some && prev == kill),
        prev != kill ==> !spec_chase_binding(prev, kill).keep_accumulated,
{
}

// ---------------------------------------------------------------------------
// Laws of the healer machines
// ---------------------------------------------------------------------------

/// ESCAPE is committed for its whole window: no healer leaves ESCAPE while the
/// window is still running.
pub proof fn lemma_escape_is_committed(t: HealerTick)
    requires
        t.escape_committed,
    ensures
        spec_next_priest_posture(Posture::Escape, t) == Posture::Escape,
        spec_next_paladin_posture(Posture::Escape, t) == Posture::Escape,
        spec_next_shaman_posture(Posture::Escape, t) == Posture::Escape,
{
}

/// ESCAPE is entered only from PRESSURED, and only while the trigger is live
/// and a window exists.
pub proof fn lemma_escape_entered_only_from_pressured(prev: Posture, t: HealerTick)
    ensures
        (spec_next_priest_posture(prev, t) == Posture::Escape && prev != Posture::Escape)
            ==> (prev == Posture::Pressured && t.trigger && t.escape_window),
        (spec_next_paladin_posture(prev, t) == Posture::Escape && prev != Posture::Escape)
            ==> (prev == Posture::Pressured && t.trigger && t.escape_window),
        (spec_next_shaman_posture(prev, t) == Posture::Escape && prev != Posture::Escape)
            ==> (prev == Posture::Pressured && t.trigger && t.escape_window),
{
}

/// A dip starts only from FREE, with no pressure, toward an available target;
/// the Shaman never dips.
pub proof fn lemma_dip_entered_only_from_free(prev: Posture, t: HealerTick)
    ensures
        (spec_next_priest_posture(prev, t) == Posture::Dip && prev != Posture::Dip) ==> (prev
            == Posture::Free && !t.trigger && t.dip_entry is Some),
        (spec_next_paladin_posture(prev, t) == Posture::Dip && prev != Posture::Dip) ==> (prev
            == Posture::Free && !t.trigger && t.dip_entry is Some),
        prev != Posture::Dip ==> spec_next_shaman_posture(prev, t) != Posture::Dip,
{
}

/// Pressure preempts a dip unconditionally: the Priest on the trigger, the
/// Paladin on being focused — never through an abort to FREE.
pub proof fn lemma_pressure_preempts_dip(t: HealerTick)
    ensures
        t.trigger ==> spec_next_priest_posture(Posture::Dip, t) == Posture::Pressured,
        t.focused ==> spec_next_paladin_posture(Posture::Dip, t) == Posture::Pressured,
{
}

/// PRESSURED hysteresis: while the hold runs, a pressured healer neither
/// relaxes to FREE nor starts a dip, whatever the trigger does.
pub proof fn lemma_pressured_hold(t: HealerTick)
    requires
        !t.hold_expired,
    ensures
        spec_next_priest_posture(Posture::Pressured, t) == Posture::Pressured
            || spec_next_priest_posture(Posture::Pressured, t) == Posture::Escape,
        spec_next_paladin_posture(Posture::Pressured, t) == spec_next_priest_posture(
            Posture::Pressured,
            t,
        ),
        spec_next_shaman_posture(Posture::Pressured, t) == spec_next_priest_posture(
            Posture::Pressured,
            t,
        ),
{
}

/// PRESSURED relaxes only once the trigger is gone: while the trigger is
/// live a pressured healer stays PRESSURED, moving to ESCAPE exactly when an
/// escape window exists; once the trigger is gone it stays PRESSURED until
/// the hold runs out and then relaxes to FREE.
pub proof fn lemma_pressured_exits_only_without_trigger(t: HealerTick)
    ensures
        t.trigger ==> (spec_next_priest_posture(Posture::Pressured, t) == Posture::Escape <==> t.escape_window),
        t.trigger ==> (spec_next_priest_posture(Posture::Pressured, t) == Posture::Pressured <==> !t.escape_window),
        t.trigger ==> spec_next_priest_posture(Posture::Pressured, t) != Posture::Free,
        t.trigger ==> spec_next_paladin_posture(Posture::Pressured, t) != Posture::Free,
        t.trigger ==> spec_next_shaman_posture(Posture::Pressured, t) != Posture::Free,
        (!t.trigger && t.hold_expired) ==> spec_next_priest_posture(Posture::Pressured, t) == Posture::Free,
        (!t.trigger && !t.hold_expired) ==> spec_next_priest_posture(Posture::Pressured, t) == Posture::Pressured,
        spec_next_paladin_posture(Posture::Pressured, t) == spec_next_priest_posture(Posture::Pressured, t),
        spec_next_shaman_posture(Posture::Pressured, t) == spec_next_priest_posture(Posture::Pressured, t),
{
}

/// Once its window has run out, ESCAPE returns to PRESSURED while the
/// trigger is live and to FREE otherwise — for every healer.
pub proof fn lemma_escape_exit(t: HealerTick)
    requires
        !t.escape_committed,
    ensures
        t.trigger ==> spec_next_priest_posture(Posture::Escape, t) == Posture::Pressured,
        !t.trigger ==> spec_next_priest_posture(Posture::Escape, t) == Posture::Free,
        spec_next_paladin_posture(Posture::Escape, t) == spec_next_priest_posture(Posture::Escape, t),
        spec_next_shaman_posture(Posture::Escape, t) == spec_next_priest_posture(Posture::Escape, t),
{
}

/// An unpressured dip continues until an abort condition, which returns it to
/// FREE; a FREE healer without pressure dips exactly when a dip target is
/// available (the Shaman never dips and stays FREE).
pub proof fn lemma_dip_continues_until_abort(t: HealerTick)
    ensures
        !t.trigger ==> (spec_next_priest_posture(Posture::Dip, t) == Posture::Free <==> t.dip_should_abort),
        !t.trigger ==> (spec_next_priest_posture(Posture::Dip, t) == Posture::Dip <==> !t.dip_should_abort),
        !t.focused ==> (spec_next_paladin_posture(Posture::Dip, t) == Posture::Free <==> t.dip_should_abort),
        !t.focused ==> (spec_next_paladin_posture(Posture::Dip, t) == Posture::Dip <==> !t.dip_should_abort),
        !t.trigger ==> (spec_next_priest_posture(Posture::Free, t) == Posture::Dip <==> t.dip_entry is Some),
        !t.trigger ==> (spec_next_paladin_posture(Posture::Free, t) == Posture::Dip <==> t.dip_entry is Some),
        !t.trigger ==> (spec_next_priest_posture(Posture::Free, t) == Posture::Free <==> t.dip_entry is None),
        !t.trigger ==> spec_next_shaman_posture(Posture::Free, t) == Posture::Free,
{
}

/// A FREE healer takes pressure before any dip opportunity.
pub proof fn lemma_free_takes_pressure_first(t: HealerTick)
    requires
        t.trigger,
    ensures
        spec_next_priest_posture(Posture::Free, t) == Posture::Pressured,
        spec_next_paladin_posture(Posture::Free, t) == Posture::Pressured,
        spec_next_shaman_posture(Posture::Free, t) == Posture::Pressured,
{
}

/// Once the pressure is gone and every timer has run out, a healer outside a
/// dip settles to FREE (or starts a dip) within one tick, and stays put when
/// the world is quiet.
pub proof fn lemma_quiet_settles_to_free(prev: Posture, t: HealerTick)
    requires
        !t.trigger,
        !t.focused,
        !t.escape_committed,
        t.hold_expired,
        t.dip_entry is None,
        prev != Posture::Dip,
    ensures
        spec_next_priest_posture(prev, t) == Posture::Free,
        spec_next_paladin_posture(prev, t) == Posture::Free,
        spec_next_shaman_posture(prev, t) == Posture::Free,
{
}

/// Without a teammate the Paladin's trigger never fires, and a team that is
/// hurting with no melee in the Paladin's face does not fire it either.
pub proof fn lemma_paladin_pressure_needs_teammate(focused: bool, hurting: bool, melee: bool)
    ensures
        !spec_paladin_pressure_trigger(focused, hurting, melee, false),
        !spec_paladin_pressure_trigger(false, hurting, false, true),
{
}

/// Transition bookkeeping along the Priest and Paladin machines: a dip target
/// is held exactly while dipping, a dip never keeps an anchor, and a fresh dip
/// adopts the target it was entered for.
pub proof fn lemma_dip_target_only_while_dipping(state: HealerPostureState, t: HealerTick)
    requires
        state.posture != Posture::Dip ==> state.dip_target is None,
        state.posture == Posture::Dip ==> state.anchor is None,
    ensures
        ({
            let next = spec_next_priest_posture(state.posture, t);
            let s2 = spec_enter_posture(state, next, t.dip_entry);
            &&& s2.posture == next
            &&& next != Posture::Dip ==> s2.dip_target is None
            &&& next == Posture::Dip ==> s2.anchor is None
            &&& (next == Posture::Dip && state.posture != Posture::Dip) ==> s2.dip_target
                == t.dip_entry
        }),
        ({
            let next = spec_next_paladin_posture(state.posture, t);
            let s2 = spec_enter_posture(state, next, t.dip_entry);
            &&& s2.posture == next
            &&& next != Posture::Dip ==> s2.dip_target is None
            &&& next == Posture::Dip ==> s2.anchor is None
            &&& (next == Posture::Dip && state.posture != Posture::Dip) ==> s2.dip_target
                == t.dip_entry
        }),
{
}

/// The Hammer of Justice reservation only ever holds for an unpressured
/// Paladin facing a living enemy healer.
pub proof fn lemma_hoj_reserved_only_when_unpressured(posture: Posture, enemy_healer_alive: bool)
    ensures
        !(!enemy_healer_alive || posture == Posture::Pressured || posture == Posture::Escape) ==> (
        enemy_healer_alive && (posture == Posture::Free || posture == Posture::Dip)),
{
}

// ---------------------------------------------------------------------------
// Laws of the kite machine
// ---------------------------------------------------------------------------

/// KITE hysteresis: a kiter never leaves KITE while its hold is active or its
/// sustain condition holds, and leaves it as soon as both are gone.
pub proof fn lemma_kite_hysteresis(hold_active: bool, sustain: bool, entry_trigger: bool)
    ensures
        (hold_active || sustain) ==> spec_next_kite_posture(
            DpsPosture::Kite,
            hold_active,
            sustain,
            entry_trigger,
        ) == DpsPosture::Kite,
        (!hold_active && !sustain) ==> spec_next_kite_posture(
            DpsPosture::Kite,
            hold_active,
            sustain,
            entry_trigger,
        ) == DpsPosture::Engage,
{
}

/// ENGAGE becomes KITE exactly on the entry trigger; the hold and sustain
/// conditions never start a kite.
pub proof fn lemma_kite_entry_needs_trigger(hold_active: bool, sustain: bool, entry_trigger: bool)
    ensures
        (spec_next_kite_posture(DpsPosture::Engage, hold_active, sustain, entry_trigger)
            == DpsPosture::Kite) <==> entry_trigger,
{
}

// ---------------------------------------------------------------------------
// The healers' pressure trigger
// ---------------------------------------------------------------------------

/// A unit targeting the healer is a pressure threat when it stands within
/// the danger radius, or within the wider intent radius while it attacks in
/// melee (a melee class or any pet) or is closing in.
pub open spec fn pressure_threat(
    in_danger: Seq<u64>,
    in_intent: Seq<u64>,
    closing: Seq<u64>,
) -> spec_fn(CombatantInfo) -> bool {
    |t: CombatantInfo|
        in_danger.contains(t.entity) || (in_intent.contains(t.entity) && (t.is_pet
            || t.class.spec_is_melee() || closing.contains(t.entity)))
}

pub open spec fn spec_compound_pressure_trigger(
    ctx: CombatContext,
    me: u64,
    in_danger: Seq<u64>,
    in_intent: Seq<u64>,
    closing: Seq<u64>,
) -> bool {
    exists|k: int|
        0 <= k < ctx.spec_enemies_targeting(me).len() && pressure_threat(in_danger, in_intent, closing)(
            #[trigger] ctx.spec_enemies_targeting(me)[k],
        )
}

/// The Priest's and Shaman's PRESSURED trigger: some visible enemy targeting
/// the healer is a pressure threat. `in_danger` and `in_intent` list the
/// units within the danger and intent radii; `closing` those pursuing from
/// beyond their preferred range.
pub fn compound_pressure_trigger(
    ctx: &CombatContext,
    me: u64,
    in_danger: &Vec<u64>,
    in_intent: &Vec<u64>,
    closing: &Vec<u64>,
) -> (r: bool)
    ensures
        r == spec_compound_pressure_trigger(*ctx, me, in_danger@, in_intent@, closing@),
{
    let threats = ctx.enemies_targeting(me);
    let ghost p = pressure_threat(in_danger@, in_intent@, closing@);
    let mut k: usize = 0;
    while k < threats.len()
        invariant
            p == pressure_threat(in_danger@, in_intent@, closing@),
            threats@ == ctx.spec_enemies_targeting(me),
            0 <= k <= threats@.len(),
            forall|j: int| 0 <= j < k ==> !p(#[trigger] threats@[j]),
        decreases threats.len() - k,
    {
        let t = threats[k];
        if contains_id(in_danger, t.entity) || (contains_id(in_intent, t.entity) && (t.is_pet
            || t.class.is_melee() || contains_id(closing, t.entity))) {
            assert(p(threats@[k as int]));
            return true;
        }
        k = k + 1;
    }
    false
}

/// Pressure needs attention: nobody targeting the healer, no trigger; and a
/// melee attacker targeting it inside the intent radius always triggers.
pub proof fn lemma_pressure_needs_attention(
    ctx: CombatContext,
    me: u64,
    in_danger: Seq<u64>,
    in_intent: Seq<u64>,
    closing: Seq<u64>,
    k: int,
)
    ensures
        ctx.spec_enemies_targeting(me).len() == 0 ==> !spec_compound_pressure_trigger(
            ctx,
            me,
            in_danger,
            in_intent,
            closing,
        ),
        (0 <= k < ctx.spec_enemies_targeting(me).len() && in_intent.contains(
            ctx.spec_enemies_targeting(me)[k].entity,
        ) && (ctx.spec_enemies_targeting(me)[k].is_pet || ctx.spec_enemies_targeting(
            me,
        )[k].class.spec_is_melee())) ==> spec_compound_pressure_trigger(ctx, me, in_danger, in_intent, closing),
{
    if 0 <= k < ctx.spec_enemies_targeting(me).len() {
        assert(pressure_threat(in_danger, in_intent, closing)(ctx.spec_enemies_targeting(me)[k])
            == (in_danger.contains(ctx.spec_enemies_targeting(me)[k].entity) || (in_intent.contains(
            ctx.spec_enemies_targeting(me)[k].entity,
        ) && (ctx.spec_enemies_targeting(me)[k].is_pet || ctx.spec_enemies_targeting(
            me,
        )[k].class.spec_is_melee() || closing.contains(ctx.spec_enemies_targeting(me)[k].entity)))));
    }
}

// ---------------------------------------------------------------------------
// The PRESSURED tick
// ---------------------------------------------------------------------------

/// A healer's PRESSURED threat: a visible alive enemy (pets included) that
/// targets it, or that stands within the threat radius (`within`).
pub open spec fn pressured_threat_pred(ctx: CombatContext, me: u64, my_team: u8, within: Seq<u64>) -> spec_fn(
    CombatantInfo,
) -> bool {
    |c: CombatantInfo|
        ctx.targeting_pred(me, my_team)(c) || ctx.proximity_pred(me, my_team, within)(c)
}

pub open spec fn spec_pressured_threats(ctx: CombatContext, me: u64, within: Seq<u64>) -> Seq<CombatantInfo> {
    match ctx.spec_info(me) {
        Some(i) => ctx.combatants@.filter(pressured_threat_pred(ctx, me, i.team, within)),
        None => Seq::empty(),
    }
}

/// The threats a PRESSURED healer retreats from, in entity order: the
/// visible enemies targeting it together with those in its face, whoever
/// they target. Empty when `me` is not in the snapshot.
pub fn pressured_threats(ctx: &CombatContext, me: u64, within: &Vec<u64>) -> (r: Vec<CombatantInfo>)
    ensures
        r@ == spec_pressured_threats(*ctx, me, within@),
{
    let my_team = match ctx.info(me) {
        Some(i) => i.team,
        None => {
            return Vec::new();
        },
    };
    let ghost p = pressured_threat_pred(*ctx, me, my_team, within@);
    let mut r: Vec<CombatantInfo> = Vec::new();
    let mut i: usize = 0;
    while i < ctx.combatants.len()
        invariant
            p == pressured_threat_pred(*ctx, me, my_team, within@),
            ctx.spec_info(me) matches Some(info) && info.team == my_team,
            0 <= i <= ctx.combatants@.len(),
            r@ == ctx.combatants@.subrange(0, i as int).filter(p),
        decreases ctx.combatants.len() - i,
    {
        let c = ctx.combatants[i];
        proof {
            lemma_filter_step(ctx.combatants@, i as int, p);
        }
        let enemy = c.team != my_team && c.is_alive && ctx.visible_to(me, &c);
        if enemy && (c.target == Some(me) || contains_id(within, c.entity)) {
            r.push(c);
        }
        i = i + 1;
    }
    assert(ctx.combatants@.subrange(0, ctx.combatants@.len() as int) =~= ctx.combatants@);
    r
}

/// The wand target a PRESSURED healer may still shoot while retreating: its
/// kill target, if alive and not itself one of the threats (a threat is
/// already weighed as something to move away from).
pub open spec fn spec_wand_target(ctx: CombatContext, kill_target: Option<u64>, threats: Seq<CombatantInfo>) -> Option<
    u64,
> {
    match kill_target {
        Some(t) => if (exists|k: int| 0 <= k < threats.len() && (#[trigger] threats[k]).entity == t) {
            None
        } else {
            match ctx.spec_info(t) {
                Some(i) => if i.is_alive {
                    Some(t)
                } else {
                    None
                },
                None => None,
            }
        },
        None => None,
    }
}

/// The kill target, unless it is one of the threats or dead.
pub fn wand_target(ctx: &CombatContext, kill_target: Option<u64>, threats: &Vec<CombatantInfo>) -> (r: Option<u64>)
    ensures
        r == spec_wand_target(*ctx, kill_target, threats@),
{
    let t = match kill_target {
        Some(t) => t,
        None => {
            return None;
        },
    };
    let mut k: usize = 0;
    while k < threats.len()
        invariant
            kill_target == Some(t),
            0 <= k <= threats@.len(),
            forall|j: int| 0 <= j < k ==> (#[trigger] threats@[j]).entity != t,
        decreases threats.len() - k,
    {
        if threats[k].entity == t {
            assert(threats@[k as int].entity == t);
            return None;
        }
        k = k + 1;
    }
    match ctx.info(t) {
        Some(i) => {
            if i.is_alive {
                Some(t)
            } else {
                None
            }
        },
        None => None,
    }
}

/// The movement a PRESSURED tick issues.
#[derive(Clone, Copy, Debug, PartialEq, Eq, Structural)]
pub enum PressuredMove {
    /// The committed window still runs: keep the current directive.
    Hold,
    /// Every threat is at or beyond the fallback band: stand and heal.
    HoldPosition,
    /// The team plan picks the spot (cover) to occupy.
    TeamSpot,
    /// Score the compass and retreat along the best direction.
    ScoreDirection,
}

pub open spec fn spec_pressured_move(
    transitioned: bool,
    window_open: bool,
    band_clear: bool,
    team_plan: bool,
) -> PressuredMove {
    if window_open && !transitioned {
        PressuredMove::Hold
    } else if band_clear {
        PressuredMove::HoldPosition
    } else if team_plan {
        PressuredMove::TeamSpot
    } else {
        PressuredMove::ScoreDirection
    }
}

/// The PRESSURED tick's choice: keep a live commitment (unless the posture
/// just changed), stand still when a fallback band is held (`band_clear`:
/// the class has one and every threat is at or beyond it), take the team
/// plan's spot when one is in force, and otherwise retreat along the best
/// scored direction.
pub fn pressured_move(transitioned: bool, window_open: bool, band_clear: bool, team_plan: bool) -> (r:
    PressuredMove)
    ensures
        r == spec_pressured_move(transitioned, window_open, band_clear, team_plan),
{
    if window_open && !transitioned {
        PressuredMove::Hold
    } else if band_clear {
        PressuredMove::HoldPosition
    } else if team_plan {
        PressuredMove::TeamSpot
    } else {
        PressuredMove::ScoreDirection
    }
}

/// The threat set is exactly the visible enemies that target the healer or
/// stand within the radius; the wand never aims at one of them.
pub proof fn lemma_pressured_threats(
    ctx: CombatContext,
    me: u64,
    within: Seq<u64>,
    kill_target: Option<u64>,
    k: int,
)
    requires
        ctx.spec_info(me) is Some,
    ensures
        ({
            let ts = spec_pressured_threats(ctx, me, within);
            let team = ctx.spec_info(me)->0.team;
            &&& 0 <= k < ts.len() ==> (ctx.targeting_pred(me, team)(ts[k]) || ctx.proximity_pred(
                me,
                team,
                within,
            )(ts[k]))
            &&& 0 <= k < ts.len() ==> spec_wand_target(ctx, Some(ts[k].entity), ts) is None
        }),
{
    let team = ctx.spec_info(me)->0.team;
    let p = pressured_threat_pred(ctx, me, team, within);
    if 0 <= k < spec_pressured_threats(ctx, me, within).len() {
        ctx.combatants@.lemma_filter_pred(p, k);
    }
}

/// A PRESSURED tick keeps a live commitment only when the posture did not
/// just change; otherwise it stands still exactly when the band is clear,
/// and takes the team spot only when the band is not clear.
pub proof fn lemma_pressured_move(transitioned: bool, window_open: bool, band_clear: bool, team_plan: bool)
    ensures
        ({
            let m = spec_pressured_move(transitioned, window_open, band_clear, team_plan);
            &&& (m == PressuredMove::Hold) <==> (window_open && !transitioned)
            &&& !(window_open && !transitioned) ==> ((m == PressuredMove::HoldPosition) <==> band_clear)
            &&& m == PressuredMove::TeamSpot ==> team_plan && !band_clear
            &&& m == PressuredMove::ScoreDirection ==> !team_plan && !band_clear
        }),
{
}

} // verus!
