//! The Priest's offensive dip: a walk to the enemy healer to land Psychic Scream
//! on it, taken only while no teammate needs the Priest at home.
//!
//! Distances and health fractions stay with the caller, which hands in the
//! enemies within reach, nearest first (ties in entity order), the weakest
//! teammate and whether its health is below the threshold.
use vstd::prelude::*;
use crate::aura::AuraType;
use crate::context::{
    CombatContext, CombatantInfo, contains_id, enemy_pred, first_where, lemma_first_where,
    lemma_first_where_satisfies, lemma_filter_step, some_aura, crowd_control_aura,
};

verus! {

/// A unit Psychic Scream may land on: a living, visible, non-pet enemy of
/// `my_team` in the snapshot, neither damage-immune nor immune to fears by
/// diminishing returns (`dr_immune` lists those).
pub open spec fn spec_scream_dip_target_eligible(ctx: CombatContext, my_team: u8, target: u64, dr_immune: Seq<u64>) -> bool {
    match ctx.spec_info(target) {
        Some(i) => i.team != my_team && i.is_alive && !i.stealthed && !i.is_pet
            && !ctx.spec_entity_has_aura(target, AuraType::DamageImmunity) && !dr_immune.contains(target),
        None => false,
    }
}

/// Can Psychic Scream land on `target`?
pub fn scream_dip_target_eligible(ctx: &CombatContext, my_team: u8, target: u64, dr_immune: &Vec<u64>) -> (r: bool)
    ensures
        r == spec_scream_dip_target_eligible(*ctx, my_team, target, dr_immune@),
{
    match ctx.info(target) {
        Some(i) => i.team != my_team && i.is_alive && !i.stealthed && !i.is_pet && !ctx.entity_is_immune(target)
            && !contains_id(dr_immune, target),
        None => false,
    }
}

/// An alive non-pet enemy healer that Psychic Scream may land on.
pub open spec fn scream_candidate_pred(ctx: CombatContext, my_team: u8, dr_immune: Seq<u64>) -> spec_fn(u64) -> bool {
    |e: u64|
        ctx.spec_info(e) matches Some(i) && enemy_pred(ctx.spec_my_team())(i) && i.class.spec_is_healer()
            && spec_scream_dip_target_eligible(ctx, my_team, e, dr_immune)
}

/// The nearest eligible enemy healer within reach.
pub open spec fn spec_scream_dip_target_candidate(
    ctx: CombatContext,
    my_team: u8,
    reachable: Seq<u64>,
    dr_immune: Seq<u64>,
) -> Option<u64> {
    first_where(reachable, scream_candidate_pred(ctx, my_team, dr_immune))
}

/// The dip target: the nearest enemy healer within reach (`reachable`,
/// nearest first) that Psychic Scream may land on; none, no dip.
pub fn scream_dip_target_candidate(ctx: &CombatContext, my_team: u8, reachable: &Vec<u64>, dr_immune: &Vec<u64>) -> (r: Option<
    u64,
>)
    ensures
        r == spec_scream_dip_target_candidate(*ctx, my_team, reachable@, dr_immune@),
{
    let ghost p = scream_candidate_pred(*ctx, my_team, dr_immune@);
    let my = match ctx.self_info() {
        Some(i) => i.team,
        None => 0,
    };
    let mut k: usize = 0;
    while k < reachable.len()
        invariant
            p == scream_candidate_pred(*ctx, my_team, dr_immune@),
            my == ctx.spec_my_team(),
            0 <= k <= reachable@.len(),
            forall|j: int| 0 <= j < k ==> !p(#[trigger] reachable@[j]),
        decreases reachable.len() - k,
    {
        let e = reachable[k];
        let ok = match ctx.info(e) {
            Some(i) => i.team != my && i.is_alive && !i.is_pet && i.class.is_healer() && scream_dip_target_eligible(
                ctx,
                my_team,
                e,
                dr_immune,
            ),
            None => false,
        };
        if ok {
            proof {
                lemma_first_where(reachable@, p, k as int);
            }
            return Some(e);
        }
        k = k + 1;
    }
    proof {
        lemma_first_where(reachable@, p, k as int);
    }
    None
}

/// A live dip is abandoned when it has no target, its budget is spent, the
/// target stopped being eligible, or a teammate's health dived below the
/// urgency threshold (`teammate_dived`).
pub open spec fn spec_scream_dip_should_abort(
    ctx: CombatContext,
    my_team: u8,
    dip_target: Option<u64>,
    budget_spent: bool,
    teammate_dived: bool,
    dr_immune: Seq<u64>,
) -> bool {
    match dip_target {
        None => true,
        Some(t) => budget_spent || !spec_scream_dip_target_eligible(ctx, my_team, t, dr_immune) || teammate_dived,
    }
}

/// Should the live dip be abandoned?
pub fn scream_dip_should_abort(
    ctx: &CombatContext,
    my_team: u8,
    dip_target: Option<u64>,
    budget_spent: bool,
    teammate_dived: bool,
    dr_immune: &Vec<u64>,
) -> (r: bool)
    ensures
        r == spec_scream_dip_should_abort(*ctx, my_team, dip_target, budget_spent, teammate_dived, dr_immune@),
{
    match dip_target {
        None => true,
        Some(t) => budget_spent || !scream_dip_target_eligible(ctx, my_team, t, dr_immune) || teammate_dived,
    }
}

/// Where a FREE Priest would dip: nowhere unless Psychic Scream is ready and the
/// weakest teammate (`weakest_teammate`, with `weakest_hurt` telling whether
/// its health is below the threshold) is neither hurt nor crowd-controlled;
/// otherwise the dip target candidate.
pub open spec fn spec_evaluate_scream_dip_entry(
    ctx: CombatContext,
    my_team: u8,
    ready: bool,
    weakest_teammate: Option<u64>,
    weakest_hurt: bool,
    reachable: Seq<u64>,
    dr_immune: Seq<u64>,
) -> Option<u64> {
    if !ready {
        None
    } else if weakest_teammate matches Some(t) && (weakest_hurt || some_aura(
        ctx.spec_auras(t),
        crowd_control_aura(),
    )) {
        None
    } else {
        spec_scream_dip_target_candidate(ctx, my_team, reachable, dr_immune)
    }
}

/// The dip entry check of a FREE Priest.
pub fn evaluate_scream_dip_entry(
    ctx: &CombatContext,
    my_team: u8,
    ready: bool,
    weakest_teammate: Option<u64>,
    weakest_hurt: bool,
    reachable: &Vec<u64>,
    dr_immune: &Vec<u64>,
) -> (r: Option<u64>)
    ensures
        r == spec_evaluate_scream_dip_entry(*ctx, my_team, ready, weakest_teammate, weakest_hurt, reachable@, dr_immune@),
{
    if !ready {
        return None;
    }
    if let Some(t) = weakest_teammate {
        if weakest_hurt || ctx.is_ccd(t) {
            return None;
        }
    }
    scream_dip_target_candidate(ctx, my_team, reachable, dr_immune)
}

/// A dip only ever starts toward an alive, visible, non-pet enemy healer
/// that Psychic Scream may land on, and never while Psychic Scream is not ready or the
/// weakest teammate is hurt or crowd-controlled; such a target never makes
/// the dip abort on eligibility grounds.
pub proof fn lemma_scream_dip_entry_sound(
    ctx: CombatContext,
    my_team: u8,
    ready: bool,
    weakest_teammate: Option<u64>,
    weakest_hurt: bool,
    reachable: Seq<u64>,
    dr_immune: Seq<u64>,
)
    ensures
        spec_evaluate_scream_dip_entry(ctx, my_team, ready, weakest_teammate, weakest_hurt, reachable, dr_immune) matches Some(t)
            ==> {
            &&& ready
            &&& reachable.contains(t)
            &&& spec_scream_dip_target_eligible(ctx, my_team, t, dr_immune)
            &&& ctx.spec_info(t) matches Some(i) && i.class.spec_is_healer()
            &&& !spec_scream_dip_should_abort(ctx, my_team, Some(t), false, false, dr_immune)
            &&& weakest_teammate matches Some(w) ==> !weakest_hurt && !some_aura(
                ctx.spec_auras(w),
                crowd_control_aura(),
            )
        },
{
    lemma_first_where_satisfies(reachable, scream_candidate_pred(ctx, my_team, dr_immune));
}

/// Psychic Scream fears the visible enemies within its radius that are
/// neither damage-immune nor immune to fears by diminishing returns.
pub open spec fn fearable(ctx: CombatContext, fear_dr_immune: Seq<u64>) -> spec_fn(CombatantInfo) -> bool {
    |c: CombatantInfo|
        !ctx.spec_entity_has_aura(c.entity, AuraType::DamageImmunity) && !fear_dr_immune.contains(c.entity)
}

pub open spec fn spec_scream_targets(
    ctx: CombatContext,
    me: u64,
    within: Seq<u64>,
    fear_dr_immune: Seq<u64>,
) -> Seq<CombatantInfo> {
    ctx.spec_visible_enemies_within(me, within).filter(fearable(ctx, fear_dr_immune))
}

/// The units a Psychic Scream from `me` would fear, in entity order:
/// visible enemies (pets included) within the radius (`within`), less the
/// immune ones.
pub fn scream_targets(ctx: &CombatContext, me: u64, within: &Vec<u64>, fear_dr_immune: &Vec<u64>) -> (r: Vec<
    CombatantInfo,
>)
    ensures
        r@ == spec_scream_targets(*ctx, me, within@, fear_dr_immune@),
{
    let near = ctx.visible_enemies_within(me, within);
    let ghost p = fearable(*ctx, fear_dr_immune@);
    let mut r: Vec<CombatantInfo> = Vec::new();
    let mut i: usize = 0;
    while i < near.len()
        invariant
            p == fearable(*ctx, fear_dr_immune@),
            0 <= i <= near@.len(),
            r@ == near@.subrange(0, i as int).filter(p),
        decreases near.len() - i,
    {
        let c = near[i];
        proof {
            lemma_filter_step(near@, i as int, p);
        }
        if !ctx.entity_is_immune(c.entity) && !contains_id(fear_dr_immune, c.entity) {
            r.push(c);
        }
        i = i + 1;
    }
    assert(near@.subrange(0, near@.len() as int) =~= near@);
    r
}

/// A live dip is abandoned as soon as its target can no longer be hit —
/// gone from the snapshot, dead, stealthed, a pet, an ally, damage-immune or
/// diminished to immunity — or its budget is spent or a teammate's health
/// dives; and it goes on while none of these holds.
pub proof fn lemma_scream_dip_should_abort_laws(
    ctx: CombatContext,
    my_team: u8,
    t: u64,
    budget_spent: bool,
    teammate_dived: bool,
    dr_immune: Seq<u64>,
)
    ensures
        spec_scream_dip_should_abort(ctx, my_team, None, budget_spent, teammate_dived, dr_immune),
        budget_spent ==> spec_scream_dip_should_abort(ctx, my_team, Some(t), budget_spent, teammate_dived, dr_immune),
        teammate_dived ==> spec_scream_dip_should_abort(ctx, my_team, Some(t), budget_spent, teammate_dived, dr_immune),
        ctx.spec_entity_has_aura(t, AuraType::DamageImmunity) ==> spec_scream_dip_should_abort(
            ctx,
            my_team,
            Some(t),
            budget_spent,
            teammate_dived,
            dr_immune,
        ),
        dr_immune.contains(t) ==> spec_scream_dip_should_abort(ctx, my_team, Some(t), budget_spent, teammate_dived, dr_immune),
        (match ctx.spec_info(t) {
            Some(i) => !i.is_alive || i.stealthed || i.is_pet || i.team == my_team,
            None => true,
        }) ==> spec_scream_dip_should_abort(ctx, my_team, Some(t), budget_spent, teammate_dived, dr_immune),
        (ctx.spec_info(t) matches Some(i) && i.is_alive && !i.stealthed && !i.is_pet && i.team != my_team
            && !ctx.spec_entity_has_aura(t, AuraType::DamageImmunity) && !dr_immune.contains(t) && !budget_spent
            && !teammate_dived) ==> !spec_scream_dip_should_abort(ctx, my_team, Some(t), budget_spent, teammate_dived, dr_immune),
{
}

} // verus!
