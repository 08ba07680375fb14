//! The Rogue's Kidney Shot plan: opener-extend on the kill target, the
//! Kick → hold → Kidney chain against casters, and aggressive opportunistic
//! stuns against everyone else.
use vstd::prelude::*;
use crate::aura::AuraType;
use crate::context::{CombatContext, contains_id, find_by};

verus! {

/// Why Kidney Shot is held (or pooled for) this tick.
#[derive(Clone, Copy, Debug, PartialEq, Eq, Structural)]
pub enum KidneyHoldReason {
    /// Pooling energy to chain onto the expiring opener Cheap Shot.
    PoolForOpener,
    /// The active school lockout already covers the cast in progress.
    LockoutCoversCast,
    /// Kick is ready and will interrupt this cast for free.
    KickWillInterrupt,
    /// Pooling energy to chain onto the expiring school lockout.
    PoolForLockout,
    /// The school lockout is still denying.
    LockoutStillActive,
}

impl KidneyHoldReason {
    pub open spec fn spec_note(self) -> Seq<char> {
        match self {
            KidneyHoldReason::PoolForOpener => "pooling Kidney to extend opener Cheap Shot"@,
            KidneyHoldReason::LockoutCoversCast => "Kidney held: school lockout already covers this cast"@,
            KidneyHoldReason::KickWillInterrupt => "Kidney held: Kick will interrupt this cast"@,
            KidneyHoldReason::PoolForLockout => "pooling Kidney to extend school lockout"@,
            KidneyHoldReason::LockoutStillActive => "Kidney held: school lockout still active"@,
        }
    }

    /// The note the decision trace carries for this hold.
    pub fn note(&self) -> (r: &'static str)
        ensures
            r@ == self.spec_note(),
    {
        match self {
            KidneyHoldReason::PoolForOpener => "pooling Kidney to extend opener Cheap Shot",
            KidneyHoldReason::LockoutCoversCast => "Kidney held: school lockout already covers this cast",
            KidneyHoldReason::KickWillInterrupt => "Kidney held: Kick will interrupt this cast",
            KidneyHoldReason::PoolForLockout => "pooling Kidney to extend school lockout",
            KidneyHoldReason::LockoutStillActive => "Kidney held: school lockout still active",
        }
    }
}

/// What to do with Kidney Shot this tick.
#[derive(Clone, Copy, Debug, PartialEq, Eq, Structural)]
pub enum KidneyPlan {
    /// No valid melee Kidney Shot target this tick.
    NoTarget,
    /// Hold the stun but keep doing Sinister Strike damage.
    Hold(KidneyHoldReason),
    /// Hold the stun and suppress Sinister Strike to pool energy.
    Pool(KidneyHoldReason),
    /// Fire Kidney Shot on `target`. `stacking` marks the opener-extend,
    /// which deliberately stacks onto an expiring Cheap Shot.
    Fire { target: u64, stacking: bool },
}

/// What the caller observed about one potential Kidney Shot target's casting.
#[derive(Clone, Copy, Debug, PartialEq, Eq, Structural)]
pub struct CastFacts {
    pub entity: u64,
    /// The target is casting or channelling right now.
    pub casting: bool,
    /// A school lockout is active on the target and covers the school being
    /// cast.
    pub lockout_covers_cast: bool,
    /// A school lockout is active on the target: `Some(lapsing)`, where
    /// `lapsing` means its remaining time is within the chain buffer.
    pub lockout: Option<bool>,
}

/// What the Rogue observed about itself and its kill target this tick.
#[derive(Clone, Copy, Debug, PartialEq, Eq, Structural)]
pub struct KidneyInputs {
    pub kill_target: Option<u64>,
    pub cc_target: Option<u64>,
    /// The kill target is within melee range.
    pub kill_in_melee: bool,
    /// This Rogue's own stun on the kill target: `Some(expiring)` when it has
    /// one, `expiring` meaning it ends within the chain buffer.
    pub opener_stun: Option<bool>,
    pub kidney_on_cooldown: bool,
    /// Energy covers Kidney Shot's cost.
    pub kidney_affordable: bool,
    pub kick_on_cooldown: bool,
}

pub open spec fn facts_key() -> spec_fn(CastFacts) -> u64 {
    |f: CastFacts| f.entity
}

/// The casting facts of `e`; a target without facts is not casting and has
/// no lockout.
pub open spec fn facts_of(facts: Seq<CastFacts>, e: u64) -> CastFacts {
    match find_by(facts, facts_key(), e) {
        Some(f) => f,
        None => CastFacts { entity: e, casting: false, lockout_covers_cast: false, lockout: None },
    }
}

/// The Kidney Shot plan as a decision table.
pub open spec fn spec_plan_kidney_shot(
    ctx: CombatContext,
    i: KidneyInputs,
    in_melee_range: Seq<u64>,
    facts: Seq<CastFacts>,
) -> KidneyPlan {
    let opener_case = i.kill_target is Some && ctx.spec_info(i.kill_target->0) is Some
        && i.kill_in_melee && !ctx.spec_entity_has_aura(i.kill_target->0, AuraType::DamageImmunity)
        && !i.kidney_on_cooldown && i.opener_stun is Some;
    if opener_case {
        if i.opener_stun->0 {
            KidneyPlan::Fire { target: i.kill_target->0, stacking: true }
        } else {
            KidneyPlan::Pool(KidneyHoldReason::PoolForOpener)
        }
    } else {
        let chosen = if i.cc_target is Some && ctx.melee_cc_ok(i.cc_target->0, in_melee_range) {
            i.cc_target
        } else if i.kill_target is Some && ctx.melee_cc_ok(i.kill_target->0, in_melee_range) {
            i.kill_target
        } else {
            None
        };
        match chosen {
            None => KidneyPlan::NoTarget,
            Some(t) => {
                let f = facts_of(facts, t);
                let kick_ready = !i.kick_on_cooldown && in_melee_range.contains(t);
                if !ctx.spec_info(t)->0.class.spec_is_spellcaster() {
                    KidneyPlan::Fire { target: t, stacking: false }
                } else if f.casting {
                    if f.lockout_covers_cast {
                        KidneyPlan::Hold(KidneyHoldReason::LockoutCoversCast)
                    } else if kick_ready {
                        KidneyPlan::Hold(KidneyHoldReason::KickWillInterrupt)
                    } else {
                        KidneyPlan::Fire { target: t, stacking: false }
                    }
                } else {
                    match f.lockout {
                        Some(lapsing) => if lapsing {
                            KidneyPlan::Fire { target: t, stacking: false }
                        } else if !i.kidney_on_cooldown && !i.kidney_affordable {
                            KidneyPlan::Pool(KidneyHoldReason::PoolForLockout)
                        } else {
                            KidneyPlan::Hold(KidneyHoldReason::LockoutStillActive)
                        },
                        None => KidneyPlan::Fire { target: t, stacking: false },
                    }
                }
            },
        }
    }
}

fn facts_for(facts: &Vec<CastFacts>, e: u64) -> (r: CastFacts)
    ensures
        r == facts_of(facts@, e),
{
    let mut k: usize = 0;
    while k < facts.len()
        invariant
            0 <= k <= facts@.len(),
            forall|j: int| 0 <= j < k ==> (#[trigger] facts@[j]).entity != e,
        decreases facts.len() - k,
    {
        if facts[k].entity == e {
            proof {
                crate::context::lemma_find_by_first(facts@, facts_key(), e, k as int);
            }
            return facts[k];
        }
        k = k + 1;
    }
    proof {
        crate::context::lemma_find_by_first(facts@, facts_key(), e, k as int);
    }
    CastFacts { entity: e, casting: false, lockout_covers_cast: false, lockout: None }
}

/// Decide what to do with Kidney Shot this tick:
/// 1. opener-extend — chain onto this Rogue's own expiring stun on the kill
///    target (pool energy until it is about to expire);
/// 2. otherwise pick the melee CC target (the CC target if reachable, else
///    the kill target);
/// 3. a non-caster is stunned aggressively;
/// 4. a caster that is casting: hold if the lockout already covers the cast
///    or Kick will interrupt it, else stun;
/// 5. a caster not casting: stun into a lapsing lockout, pool or hold while
///    the lockout still denies, and stun proactively when there is none.
pub fn plan_kidney_shot(
    ctx: &CombatContext,
    i: &KidneyInputs,
    in_melee_range: &Vec<u64>,
    facts: &Vec<CastFacts>,
) -> (r: KidneyPlan)
    ensures
        r == spec_plan_kidney_shot(*ctx, *i, in_melee_range@, facts@),
{
    if let Some(kill) = i.kill_target {
        if ctx.info(kill).is_some() && i.kill_in_melee && !ctx.entity_is_immune(kill)
            && !i.kidney_on_cooldown {
            if let Some(expiring) = i.opener_stun {
                if expiring {
                    return KidneyPlan::Fire { target: kill, stacking: true };
                }
                return KidneyPlan::Pool(KidneyHoldReason::PoolForOpener);
            }
        }
    }
    let tgt = match ctx.select_melee_cc_target(i.cc_target, i.kill_target, in_melee_range) {
        Some(t) => t,
        None => {
            return KidneyPlan::NoTarget;
        },
    };
    let tgt_class = match ctx.info(tgt) {
        Some(info) => info.class,
        None => {
            return KidneyPlan::NoTarget;
        },
    };
    if !tgt_class.is_spellcaster() {
        return KidneyPlan::Fire { target: tgt, stacking: false };
    }
    let f = facts_for(facts, tgt);
    let kick_ready = !i.kick_on_cooldown && contains_id(in_melee_range, tgt);
    if f.casting {
        if f.lockout_covers_cast {
            return KidneyPlan::Hold(KidneyHoldReason::LockoutCoversCast);
        }
        if kick_ready {
            return KidneyPlan::Hold(KidneyHoldReason::KickWillInterrupt);
        }
        return KidneyPlan::Fire { target: tgt, stacking: false };
    }
    if let Some(lapsing) = f.lockout {
        if lapsing {
            return KidneyPlan::Fire { target: tgt, stacking: false };
        }
        if !i.kidney_on_cooldown && !i.kidney_affordable {
            return KidneyPlan::Pool(KidneyHoldReason::PoolForLockout);
        }
        return KidneyPlan::Hold(KidneyHoldReason::LockoutStillActive);
    }
    KidneyPlan::Fire { target: tgt, stacking: false }
}

/// Kidney Shot is never double-spent on a cast Kick will catch, never fired
/// into a cast the lockout already covers, and only the opener-extend stacks
/// onto an existing stun — on the kill target.
pub proof fn lemma_kidney_never_wastes_the_stun(
    ctx: CombatContext,
    i: KidneyInputs,
    in_melee_range: Seq<u64>,
    facts: Seq<CastFacts>,
)
    ensures
        spec_plan_kidney_shot(ctx, i, in_melee_range, facts) matches KidneyPlan::Fire {
            target,
            stacking,
        } ==> {
            &&& stacking ==> i.kill_target == Some(target) && i.opener_stun == Some(true)
            &&& (!stacking && ctx.spec_info(target) is Some && ctx.spec_info(
                target,
            )->0.class.spec_is_spellcaster() && facts_of(facts, target).casting) ==> (
            !facts_of(facts, target).lockout_covers_cast && !(!i.kick_on_cooldown
                && in_melee_range.contains(target)))
            &&& !stacking ==> ctx.melee_cc_ok(target, in_melee_range)
        },
{
}

/// The opener-extend — stacking Kidney Shot onto this Rogue's own expiring
/// stun, or pooling energy for it — happens only on a kill target in the
/// snapshot, within melee range, not immune, with Kidney Shot off cooldown
/// and this Rogue's stun on it; any other Fire is not stacking and lands on
/// a reachable, non-immune target in melee range.
pub proof fn lemma_opener_extend_needs_melee(
    ctx: CombatContext,
    i: KidneyInputs,
    in_melee_range: Seq<u64>,
    facts: Seq<CastFacts>,
)
    ensures
        ({
            let r = spec_plan_kidney_shot(ctx, i, in_melee_range, facts);
            &&& (r matches KidneyPlan::Fire { stacking: true, .. } || r == KidneyPlan::Pool(
                KidneyHoldReason::PoolForOpener,
            )) ==> {
                &&& i.kill_in_melee
                &&& i.kill_target matches Some(k) && ctx.spec_info(k) is Some
                    && !ctx.spec_entity_has_aura(k, AuraType::DamageImmunity)
                &&& !i.kidney_on_cooldown
                &&& i.opener_stun is Some
            }
            &&& r matches KidneyPlan::Fire { target, stacking: false } ==> in_melee_range.contains(target)
                && !ctx.spec_entity_has_aura(target, AuraType::DamageImmunity) && ctx.spec_info(target) is Some
            &&& !i.kill_in_melee ==> !(r matches KidneyPlan::Fire { stacking: true, .. })
        }),
{
}

} // verus!
