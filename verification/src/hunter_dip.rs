//! The Hunter's Freezing Trap dip: walk to an off-target enemy — a healer
//! when one qualifies — and trap it, so the incapacitate lands on the unit
//! the team is not killing.
//!
//! Distances stay with the caller, which hands in the enemies within reach,
//! nearest first (ties in entity order), and the units within point-blank
//! plant range.
use vstd::prelude::*;
use crate::aura::AuraType;
use crate::context::{
    CombatContext, contains_id, enemy_pred, first_where, lemma_first_where, lemma_first_where_satisfies,
};
use crate::postures::HunterDipPlan;

verus! {

/// A unit a Freezing Trap may be aimed at: a living, visible, non-pet enemy
/// of `my_team` in the snapshot, not damage-immune, not immune to
/// incapacitates by diminishing returns (`incap_dr_immune` lists those), and
/// not carrying a DoT of ours that would break the trap at once.
pub open spec fn spec_dip_target_eligible(
    ctx: CombatContext,
    my_team: u8,
    target: u64,
    incap_dr_immune: Seq<u64>,
) -> bool {
    match ctx.spec_info(target) {
        Some(i) => i.team != my_team && i.is_alive && !i.stealthed && !i.is_pet
            && !ctx.spec_entity_has_aura(target, AuraType::DamageImmunity) && !incap_dr_immune.contains(
            target,
        ) && !ctx.spec_has_friendly_dots_on_target(target),
        None => false,
    }
}

/// Can Freezing Trap be aimed at `target`?
pub fn dip_target_eligible(ctx: &CombatContext, my_team: u8, target: u64, incap_dr_immune: &Vec<u64>) -> (r:
    bool)
    ensures
        r == spec_dip_target_eligible(*ctx, my_team, target, incap_dr_immune@),
{
    match ctx.info(target) {
        Some(i) => i.team != my_team && i.is_alive && !i.stealthed && !i.is_pet && !ctx.entity_is_immune(target)
            && !contains_id(incap_dr_immune, target) && !ctx.has_friendly_dots_on_target(target),
        None => false,
    }
}

/// An off-target dip candidate: an alive non-pet enemy, outside the focus
/// set, that Freezing Trap may be aimed at.
pub open spec fn candidate_pred(
    ctx: CombatContext,
    my_team: u8,
    focused: Seq<u64>,
    incap_dr_immune: Seq<u64>,
) -> spec_fn(u64) -> bool {
    |e: u64|
        ctx.spec_info(e) matches Some(i) && enemy_pred(ctx.spec_my_team())(i) && !focused.contains(e)
            && spec_dip_target_eligible(ctx, my_team, e, incap_dr_immune)
}

pub open spec fn healer_candidate_pred(
    ctx: CombatContext,
    my_team: u8,
    focused: Seq<u64>,
    incap_dr_immune: Seq<u64>,
) -> spec_fn(u64) -> bool {
    |e: u64|
        candidate_pred(ctx, my_team, focused, incap_dr_immune)(e) && ctx.spec_info(e)->0.class.spec_is_healer()
}

/// The best off-target candidate within reach: the nearest healer, else the
/// nearest candidate at all.
pub open spec fn spec_dip_target_candidate(
    ctx: CombatContext,
    my_team: u8,
    reachable: Seq<u64>,
    focused: Seq<u64>,
    incap_dr_immune: Seq<u64>,
) -> Option<u64> {
    match first_where(reachable, healer_candidate_pred(ctx, my_team, focused, incap_dr_immune)) {
        Some(e) => Some(e),
        None => first_where(reachable, candidate_pred(ctx, my_team, focused, incap_dr_immune)),
    }
}

fn is_candidate(
    ctx: &CombatContext,
    my_team: u8,
    e: u64,
    focused: &Vec<u64>,
    incap_dr_immune: &Vec<u64>,
) -> (r: bool)
    ensures
        r == candidate_pred(*ctx, my_team, focused@, incap_dr_immune@)(e),
{
    let my = match ctx.self_info() {
        Some(i) => i.team,
        None => 0,
    };
    match ctx.info(e) {
        Some(i) => i.team != my && i.is_alive && !i.is_pet && !contains_id(focused, e) && dip_target_eligible(
            ctx,
            my_team,
            e,
            incap_dr_immune,
        ),
        None => false,
    }
}

/// The off-target enemy a dip walks to: among the enemies within reach
/// (`reachable`, nearest first), not in the focus set `focused` and trap
/// eligible, healers first, then the nearest.
pub fn dip_target_candidate(
    ctx: &CombatContext,
    my_team: u8,
    reachable: &Vec<u64>,
    focused: &Vec<u64>,
    incap_dr_immune: &Vec<u64>,
) -> (r: Option<u64>)
    ensures
        r == spec_dip_target_candidate(*ctx, my_team, reachable@, focused@, incap_dr_immune@),
{
    let ghost ph = healer_candidate_pred(*ctx, my_team, focused@, incap_dr_immune@);
    let ghost pc = candidate_pred(*ctx, my_team, focused@, incap_dr_immune@);
    let mut i: usize = 0;
    while i < reachable.len()
        invariant
            ph == healer_candidate_pred(*ctx, my_team, focused@, incap_dr_immune@),
            0 <= i <= reachable@.len(),
            forall|j: int| 0 <= j < i ==> !ph(#[trigger] reachable@[j]),
        decreases reachable.len() - i,
    {
        let e = reachable[i];
        if is_candidate(ctx, my_team, e, focused, incap_dr_immune) {
            let healer = match ctx.info(e) {
                Some(info) => info.class.is_healer(),
                None => false,
            };
            if healer {
                proof {
                    lemma_first_where(reachable@, ph, i as int);
                }
                return Some(e);
            }
        }
        i = i + 1;
    }
    proof {
        lemma_first_where(reachable@, ph, i as int);
    }
    let mut k: usize = 0;
    while k < reachable.len()
        invariant
            pc == candidate_pred(*ctx, my_team, focused@, incap_dr_immune@),
            first_where(reachable@, ph) is None,
            ph == healer_candidate_pred(*ctx, my_team, focused@, incap_dr_immune@),
            0 <= k <= reachable@.len(),
            forall|j: int| 0 <= j < k ==> !pc(#[trigger] reachable@[j]),
        decreases reachable.len() - k,
    {
        let e = reachable[k];
        if is_candidate(ctx, my_team, e, focused, incap_dr_immune) {
            proof {
                lemma_first_where(reachable@, pc, k as int);
            }
            return Some(e);
        }
        k = k + 1;
    }
    proof {
        lemma_first_where(reachable@, pc, k as int);
    }
    None
}

/// The units a dip must leave alone: the team's kill targets and the
/// Hunter's own.
pub open spec fn spec_dip_focus(ctx: CombatContext, me: u64, own_target: Option<u64>) -> Seq<u64> {
    match own_target {
        Some(o) => ctx.spec_team_focus(me).push(o),
        None => ctx.spec_team_focus(me),
    }
}

fn dip_focus(ctx: &CombatContext, me: u64, own_target: Option<u64>) -> (r: Vec<u64>)
    ensures
        r@ == spec_dip_focus(*ctx, me, own_target),
{
    let mut f = ctx.team_focus(me);
    if let Some(o) = own_target {
        f.push(o);
    }
    f
}

/// The off-target candidate for a trap dropped without a walk: no reach
/// limit (`by_distance` lists every enemy, nearest first), the team's kill
/// targets and the Hunter's own excluded.
pub open spec fn spec_opportunistic_off_target(
    ctx: CombatContext,
    me: u64,
    my_team: u8,
    own_target: Option<u64>,
    by_distance: Seq<u64>,
    incap_dr_immune: Seq<u64>,
) -> Option<u64> {
    spec_dip_target_candidate(ctx, my_team, by_distance, spec_dip_focus(ctx, me, own_target), incap_dr_immune)
}

/// The opportunistic Freezing Trap's off-target.
pub fn opportunistic_off_target(
    ctx: &CombatContext,
    me: u64,
    my_team: u8,
    own_target: Option<u64>,
    by_distance: &Vec<u64>,
    incap_dr_immune: &Vec<u64>,
) -> (r: Option<u64>)
    ensures
        r == spec_opportunistic_off_target(*ctx, me, my_team, own_target, by_distance@, incap_dr_immune@),
{
    let focused = dip_focus(ctx, me, own_target);
    dip_target_candidate(ctx, my_team, by_distance, &focused, incap_dr_immune)
}

/// This tick's step of the dip machine.
#[derive(Clone, Copy, Debug, PartialEq, Eq, Structural)]
pub enum HunterDipStep {
    /// No dip: the normal ENGAGE/KITE machine and rotation run.
    Rotation,
    /// The live dip on `target` is abandoned: its state clears and the walk
    /// is cancelled.
    Abort { target: u64 },
    /// Arrived point-blank: place the trap on `target` now.
    Cast { target: u64 },
    /// Keep walking toward `target`.
    Continue { target: u64 },
    /// Start a dip toward `target`.
    Enter { target: u64 },
}

impl HunterDipStep {
    /// The plan handed to the ability pass.
    pub fn plan(self) -> (r: HunterDipPlan)
        ensures
            r == match self {
                HunterDipStep::Cast { target } => HunterDipPlan::DipCast { target },
                HunterDipStep::Continue { .. } | HunterDipStep::Enter { .. } => HunterDipPlan::Walking,
                _ => HunterDipPlan::Rotation,
            },
    {
        match self {
            HunterDipStep::Cast { target } => HunterDipPlan::DipCast { target },
            HunterDipStep::Continue { .. } | HunterDipStep::Enter { .. } => HunterDipPlan::Walking,
            _ => HunterDipPlan::Rotation,
        }
    }
}

/// What the Hunter knows about its dip this tick.
#[derive(Clone, Copy, Debug, PartialEq, Eq, Structural)]
pub struct HunterDipFacts {
    /// Dips are configured (a positive budget) and the kite state exists.
    pub enabled: bool,
    /// The target of the dip in progress, while its budget lasts.
    pub live_dip: Option<u64>,
    /// Freezing Trap passes its pre-cast checks.
    pub trap_ready: bool,
}

pub open spec fn spec_evaluate_hunter_dip(
    ctx: CombatContext,
    me: u64,
    my_team: u8,
    own_target: Option<u64>,
    f: HunterDipFacts,
    reachable: Seq<u64>,
    plant_close: Seq<u64>,
    incap_dr_immune: Seq<u64>,
) -> HunterDipStep {
    if !f.enabled {
        HunterDipStep::Rotation
    } else {
        match f.live_dip {
            Some(t) => if ctx.spec_focused_by_threat(me) || !f.trap_ready || !spec_dip_target_eligible(
                ctx,
                my_team,
                t,
                incap_dr_immune,
            ) {
                HunterDipStep::Abort { target: t }
            } else if plant_close.contains(t) {
                HunterDipStep::Cast { target: t }
            } else {
                HunterDipStep::Continue { target: t }
            },
            None => if ctx.spec_focused_by_threat(me) || !f.trap_ready {
                HunterDipStep::Rotation
            } else {
                match spec_dip_target_candidate(
                    ctx,
                    my_team,
                    reachable,
                    spec_dip_focus(ctx, me, own_target),
                    incap_dr_immune,
                ) {
                    None => HunterDipStep::Rotation,
                    Some(t) => if plant_close.contains(t) {
                        HunterDipStep::Rotation
                    } else {
                        HunterDipStep::Enter { target: t }
                    },
                }
            },
        }
    }
}

/// The Hunter's dip, evaluated before the ENGAGE/KITE machine. A live dip
/// aborts when the Hunter draws a damage threat, the trap stops being
/// castable or the target stops being trap-eligible; it casts on arrival
/// within plant range and keeps walking otherwise. A new dip starts only
/// when the Hunter is not focused and the trap is ready, toward the best
/// off-target candidate within reach — unless that one is already
/// point-blank, where the ability pass drops the trap without a walk.
pub fn evaluate_hunter_dip(
    ctx: &CombatContext,
    me: u64,
    my_team: u8,
    own_target: Option<u64>,
    f: HunterDipFacts,
    reachable: &Vec<u64>,
    plant_close: &Vec<u64>,
    incap_dr_immune: &Vec<u64>,
) -> (r: HunterDipStep)
    ensures
        r == spec_evaluate_hunter_dip(
            *ctx,
            me,
            my_team,
            own_target,
            f,
            reachable@,
            plant_close@,
            incap_dr_immune@,
        ),
{
    if !f.enabled {
        return HunterDipStep::Rotation;
    }
    if let Some(t) = f.live_dip {
        if ctx.focused_by_threat(me) || !f.trap_ready || !dip_target_eligible(ctx, my_team, t, incap_dr_immune) {
            return HunterDipStep::Abort { target: t };
        }
        if contains_id(plant_close, t) {
            return HunterDipStep::Cast { target: t };
        }
        return HunterDipStep::Continue { target: t };
    }
    if ctx.focused_by_threat(me) || !f.trap_ready {
        return HunterDipStep::Rotation;
    }
    let focused = dip_focus(ctx, me, own_target);
    match dip_target_candidate(ctx, my_team, reachable, &focused, incap_dr_immune) {
        None => HunterDipStep::Rotation,
        Some(t) => {
            if contains_id(plant_close, t) {
                HunterDipStep::Rotation
            } else {
                HunterDipStep::Enter { target: t }
            }
        },
    }
}

/// A dip never walks to a kill target: the unit it enters on is outside the
/// team's focus and is not the Hunter's own target; it is an alive, visible,
/// non-pet enemy that the trap may be aimed at. No dip starts while the
/// Hunter is focused by a damage threat or the trap is not ready, and the
/// trap is cast only on the live dip's own target.
pub proof fn lemma_dip_spares_kill_targets(
    ctx: CombatContext,
    me: u64,
    my_team: u8,
    own_target: Option<u64>,
    f: HunterDipFacts,
    reachable: Seq<u64>,
    plant_close: Seq<u64>,
    incap_dr_immune: Seq<u64>,
)
    ensures
        ({
            let step = spec_evaluate_hunter_dip(
                ctx,
                me,
                my_team,
                own_target,
                f,
                reachable,
                plant_close,
                incap_dr_immune,
            );
            &&& step matches HunterDipStep::Enter { target } ==> {
                &&& own_target != Some(target)
                &&& !ctx.spec_team_focus(me).contains(target)
                &&& spec_dip_target_eligible(ctx, my_team, target, incap_dr_immune)
                &&& !ctx.spec_focused_by_threat(me) && f.trap_ready
                &&& reachable.contains(target) && !plant_close.contains(target)
            }
            &&& step matches HunterDipStep::Cast { target } ==> f.live_dip == Some(target)
                && plant_close.contains(target) && spec_dip_target_eligible(ctx, my_team, target, incap_dr_immune)
                && f.trap_ready
        }),
{
    let focused = spec_dip_focus(ctx, me, own_target);
    let ph = healer_candidate_pred(ctx, my_team, focused, incap_dr_immune);
    let pc = candidate_pred(ctx, my_team, focused, incap_dr_immune);
    lemma_first_where_satisfies(reachable, ph);
    lemma_first_where_satisfies(reachable, pc);
    if let Some(o) = own_target {
        assert(focused[focused.len() - 1] == o);
        assert forall|x: u64| ctx.spec_team_focus(me).contains(x) implies focused.contains(x) by {
            let j = choose|j: int| 0 <= j < ctx.spec_team_focus(me).len() && ctx.spec_team_focus(me)[j] == x;
            assert(focused[j] == x);
        }
    }
}

/// Healers first: whenever some enemy within reach is a healer candidate,
/// the dip candidate is a healer.
pub proof fn lemma_dip_prefers_healers(
    ctx: CombatContext,
    my_team: u8,
    reachable: Seq<u64>,
    focused: Seq<u64>,
    incap_dr_immune: Seq<u64>,
    k: int,
)
    requires
        0 <= k < reachable.len(),
        healer_candidate_pred(ctx, my_team, focused, incap_dr_immune)(reachable[k]),
    ensures
        spec_dip_target_candidate(ctx, my_team, reachable, focused, incap_dr_immune) matches Some(e)
            && ctx.spec_info(e) matches Some(i) && i.class.spec_is_healer(),
{
    let ph = healer_candidate_pred(ctx, my_team, focused, incap_dr_immune);
    lemma_first_where_satisfies(reachable, ph);
    lemma_first_where_none(reachable, ph, k);
}

proof fn lemma_first_where_none<A>(s: Seq<A>, p: spec_fn(A) -> bool, k: int)
    requires
        0 <= k < s.len(),
        p(s[k]),
    ensures
        first_where(s, p) is Some,
    decreases s.len(),
{
    if !p(s[0]) {
        assert(s.drop_first()[k - 1] == s[k]);
        lemma_first_where_none(s.drop_first(), p, k - 1);
    }
}

} // verus!
