//! The DPS kiters' ENGAGE / KITE machine: what triggers and sustains KITE,
//! and which movement the tick issues.
//!
//! Distances stay with the caller, which hands in the units within the
//! relevant radius (melee range, the kite ring, the closing radius) or all
//! units nearest first.
use vstd::prelude::*;
use crate::aura::AuraType;
use crate::context::{AuraInfo, CombatContext, CombatantInfo, contains_id, first_where, lemma_first_where, some_aura};
use crate::postures::{DpsPosture, spec_next_kite_posture, next_kite_posture};

verus! {

/// The team of `me`, or 255 when it is missing from the snapshot.
pub open spec fn spec_self_team(ctx: CombatContext, me: u64) -> u8 {
    match ctx.spec_info(me) {
        Some(i) => i.team,
        None => 255,
    }
}

fn self_team(ctx: &CombatContext, me: u64) -> (r: u8)
    ensures
        r == spec_self_team(*ctx, me),
{
    match ctx.info(me) {
        Some(i) => i.team,
        None => 255,
    }
}

/// An aura of type `t` that `me` applied.
pub open spec fn owned(me: u64, t: AuraType) -> spec_fn(AuraInfo) -> bool {
    |a: AuraInfo| a.caster == Some(me) && a.effect_type == t
}

pub open spec fn spec_owned_aura(ctx: CombatContext, me: u64, e: u64, t: AuraType) -> bool {
    some_aura(ctx.spec_auras(e), owned(me, t))
}

fn owned_aura(ctx: &CombatContext, me: u64, e: u64, t: AuraType) -> (r: bool)
    ensures
        r == spec_owned_aura(*ctx, me, e, t),
{
    match ctx.auras_index(e) {
        None => false,
        Some(ix) => {
            let auras = &ctx.active_auras[ix].auras;
            let ghost p = owned(me, t);
            let mut k: usize = 0;
            while k < auras.len()
                invariant
                    p == owned(me, t),
                    ctx.spec_auras(e) == Some(auras@),
                    0 <= k <= auras@.len(),
                    forall|j: int| 0 <= j < k ==> !p(#[trigger] auras@[j]),
                decreases auras.len() - k,
            {
                if auras[k].caster == Some(me) && auras[k].effect_type == t {
                    assert(p(auras@[k as int]));
                    return true;
                }
                k = k + 1;
            }
            false
        },
    }
}

/// A living non-pet unit of another team than `me`'s.
pub open spec fn kite_enemy(ctx: CombatContext, me: u64, c: CombatantInfo) -> bool {
    !c.is_pet && c.team != spec_self_team(ctx, me) && c.is_alive
}

/// KITE entry (Mage): some enemy within melee range carries a root or slow
/// that this Mage applied.
pub open spec fn spec_mage_kite_entry(ctx: CombatContext, me: u64, in_melee: Seq<u64>) -> bool {
    exists|k: int|
        0 <= k < ctx.combatants@.len() && kite_enemy(ctx, me, #[trigger] ctx.combatants@[k])
            && in_melee.contains(ctx.combatants@[k].entity) && (spec_owned_aura(
            ctx,
            me,
            ctx.combatants@[k].entity,
            AuraType::Root,
        ) || spec_owned_aura(ctx, me, ctx.combatants@[k].entity, AuraType::MovementSpeedSlow))
}

/// Aura-gated KITE entry (Mage): an enemy in melee range (`in_melee`) is
/// rooted or slowed by this Mage.
pub fn mage_kite_entry(ctx: &CombatContext, me: u64, in_melee: &Vec<u64>) -> (r: bool)
    ensures
        r == spec_mage_kite_entry(*ctx, me, in_melee@),
{
    let team = self_team(ctx, me);
    let mut i: usize = 0;
    while i < ctx.combatants.len()
        invariant
            team == spec_self_team(*ctx, me),
            0 <= i <= ctx.combatants@.len(),
            forall|j: int|
                0 <= j < i ==> !(kite_enemy(*ctx, me, #[trigger] ctx.combatants@[j]) && in_melee@.contains(
                    ctx.combatants@[j].entity,
                ) && (spec_owned_aura(*ctx, me, ctx.combatants@[j].entity, AuraType::Root)
                    || spec_owned_aura(*ctx, me, ctx.combatants@[j].entity, AuraType::MovementSpeedSlow))),
        decreases ctx.combatants.len() - i,
    {
        let c = ctx.combatants[i];
        if !c.is_pet && c.team != team && c.is_alive && contains_id(in_melee, c.entity) && (owned_aura(
            ctx,
            me,
            c.entity,
            AuraType::Root,
        ) || owned_aura(ctx, me, c.entity, AuraType::MovementSpeedSlow)) {
            return true;
        }
        i = i + 1;
    }
    false
}

/// KITE sustain (Mage): some enemy is rooted by this Mage at any range, or
/// slowed by it within the kite ring.
pub open spec fn spec_mage_kite_sustain(ctx: CombatContext, me: u64, in_ring: Seq<u64>) -> bool {
    exists|k: int|
        0 <= k < ctx.combatants@.len() && kite_enemy(ctx, me, #[trigger] ctx.combatants@[k]) && (
        spec_owned_aura(ctx, me, ctx.combatants@[k].entity, AuraType::Root) || (spec_owned_aura(
            ctx,
            me,
            ctx.combatants@[k].entity,
            AuraType::MovementSpeedSlow,
        ) && in_ring.contains(ctx.combatants@[k].entity)))
}

/// Aura-gated KITE sustain (Mage): a rooted enemy at any range, or a slowed
/// one still within the kite ring (`in_ring`) — Frostbolt's slow never
/// breaks, so without the ring it would pin KITE on a kited-away enemy.
pub fn mage_kite_sustain(ctx: &CombatContext, me: u64, in_ring: &Vec<u64>) -> (r: bool)
    ensures
        r == spec_mage_kite_sustain(*ctx, me, in_ring@),
{
    let team = self_team(ctx, me);
    let mut i: usize = 0;
    while i < ctx.combatants.len()
        invariant
            team == spec_self_team(*ctx, me),
            0 <= i <= ctx.combatants@.len(),
            forall|j: int|
                0 <= j < i ==> !(kite_enemy(*ctx, me, #[trigger] ctx.combatants@[j]) && (spec_owned_aura(
                    *ctx,
                    me,
                    ctx.combatants@[j].entity,
                    AuraType::Root,
                ) || (spec_owned_aura(*ctx, me, ctx.combatants@[j].entity, AuraType::MovementSpeedSlow)
                    && in_ring@.contains(ctx.combatants@[j].entity)))),
        decreases ctx.combatants.len() - i,
    {
        let c = ctx.combatants[i];
        if !c.is_pet && c.team != team && c.is_alive && (owned_aura(ctx, me, c.entity, AuraType::Root) || (
        owned_aura(ctx, me, c.entity, AuraType::MovementSpeedSlow) && contains_id(in_ring, c.entity))) {
            return true;
        }
        i = i + 1;
    }
    false
}

/// A visible melee kite threat (Warrior, Rogue) of another team.
pub open spec fn kite_threat(ctx: CombatContext, me: u64, c: CombatantInfo) -> bool {
    kite_enemy(ctx, me, c) && !c.stealthed && c.class.spec_is_kite_threat()
}

pub open spec fn spec_melee_within(ctx: CombatContext, me: u64, within: Seq<u64>) -> bool {
    exists|k: int|
        0 <= k < ctx.combatants@.len() && kite_threat(ctx, me, #[trigger] ctx.combatants@[k])
            && within.contains(ctx.combatants@[k].entity)
}

/// Proximity-gated KITE entry and sustain (Hunter): a visible melee kite
/// threat is within the radius (`within`). Ranged classes, the Paladin,
/// pets and stealthed units do not count.
pub fn melee_within(ctx: &CombatContext, me: u64, within: &Vec<u64>) -> (r: bool)
    ensures
        r == spec_melee_within(*ctx, me, within@),
{
    let team = self_team(ctx, me);
    let mut i: usize = 0;
    while i < ctx.combatants.len()
        invariant
            team == spec_self_team(*ctx, me),
            0 <= i <= ctx.combatants@.len(),
            forall|j: int|
                0 <= j < i ==> !(kite_threat(*ctx, me, #[trigger] ctx.combatants@[j]) && within@.contains(
                    ctx.combatants@[j].entity,
                )),
        decreases ctx.combatants.len() - i,
    {
        let c = ctx.combatants[i];
        if !c.is_pet && c.team != team && c.is_alive && !c.stealthed && c.class.is_kite_threat()
            && contains_id(within, c.entity) {
            return true;
        }
        i = i + 1;
    }
    false
}

pub open spec fn threat_entity_pred(ctx: CombatContext, me: u64) -> spec_fn(u64) -> bool {
    |e: u64| ctx.spec_info(e) matches Some(c) && kite_threat(ctx, me, c)
}

/// The nearest visible melee kite threat: the first of `nearest_first`
/// (units nearest first, ties in entity order) that is one.
pub open spec fn spec_nearest_melee_threat(ctx: CombatContext, me: u64, nearest_first: Seq<u64>) -> Option<u64> {
    first_where(nearest_first, threat_entity_pred(ctx, me))
}

/// The Hunter's preferred Frost Trap peel anchor: the nearest visible melee
/// kite threat.
pub fn nearest_melee_threat(ctx: &CombatContext, me: u64, nearest_first: &Vec<u64>) -> (r: Option<u64>)
    ensures
        r == spec_nearest_melee_threat(*ctx, me, nearest_first@),
{
    let team = self_team(ctx, me);
    let ghost p = threat_entity_pred(*ctx, me);
    let mut k: usize = 0;
    while k < nearest_first.len()
        invariant
            p == threat_entity_pred(*ctx, me),
            team == spec_self_team(*ctx, me),
            0 <= k <= nearest_first@.len(),
            forall|j: int| 0 <= j < k ==> !p(#[trigger] nearest_first@[j]),
        decreases nearest_first.len() - k,
    {
        let e = nearest_first[k];
        let hit = match ctx.info(e) {
            Some(c) => !c.is_pet && c.team != team && c.is_alive && !c.stealthed && c.class.is_kite_threat(),
            None => false,
        };
        if hit {
            proof {
                lemma_first_where(nearest_first@, p, k as int);
            }
            return Some(e);
        }
        k = k + 1;
    }
    proof {
        lemma_first_where(nearest_first@, p, k as int);
    }
    None
}

// ---------------------------------------------------------------------------
// The kiter's tick
// ---------------------------------------------------------------------------

/// The movement a kiter's tick issues.
#[derive(Clone, Copy, Debug, PartialEq, Eq, Structural)]
pub enum KiterMove {
    /// ENGAGE with a clear line to the kill target: drop any walk directive
    /// and let the legacy range logic steer.
    ClearDirective,
    /// Keep the current directive: its commitment window still runs.
    Hold,
    /// ENGAGE, occluded long enough: walk to the kill target's position.
    ChaseTarget,
    /// Score the compass and walk the best direction (seeking a line in
    /// ENGAGE, fleeing in KITE).
    ScoreDirection,
}

/// What the kiter measured this tick.
#[derive(Clone, Copy, Debug, PartialEq, Eq, Structural)]
pub struct KiterFacts {
    /// KITE's hysteresis hold still runs.
    pub hold_active: bool,
    /// The class's KITE sustain condition holds.
    pub sustain: bool,
    /// The class's KITE entry trigger fires.
    pub entry_trigger: bool,
    /// The kill target is alive, in range and occluded: seek a line.
    pub seeking: bool,
    /// The occlusion bucket has filled past the chase timeout.
    pub chase_armed: bool,
    /// A walk directive exists whose commitment and lifetime both still run.
    pub directive_live: bool,
}

/// The kiter's tick: the next posture, whether it changed, and the movement.
#[derive(Clone, Copy, Debug, PartialEq, Eq, Structural)]
pub struct DpsTick {
    pub next: DpsPosture,
    pub transitioned: bool,
    pub movement: KiterMove,
}

pub open spec fn spec_dps_tick(prev: DpsPosture, f: KiterFacts) -> DpsTick {
    let next = spec_next_kite_posture(prev, f.hold_active, f.sustain, f.entry_trigger);
    let transitioned = next != prev;
    let recommit = transitioned || !f.directive_live;
    let movement = if next == DpsPosture::Engage {
        if !f.seeking {
            KiterMove::ClearDirective
        } else if !recommit {
            KiterMove::Hold
        } else if f.chase_armed {
            KiterMove::ChaseTarget
        } else {
            KiterMove::ScoreDirection
        }
    } else if !recommit {
        KiterMove::Hold
    } else {
        KiterMove::ScoreDirection
    };
    DpsTick { next, transitioned, movement }
}

/// One tick of the ENGAGE/KITE machine shared by the Mage and the Hunter.
/// In ENGAGE with a clear line the walk directive is dropped; otherwise a
/// live commitment is held unless the posture just changed; a seeking
/// ENGAGE chases the kill target once the occlusion bucket is armed and
/// scores directions before that; KITE scores flight directions.
pub fn dps_tick(prev: DpsPosture, f: &KiterFacts) -> (r: DpsTick)
    ensures
        r == spec_dps_tick(prev, *f),
{
    let next = next_kite_posture(prev, f.hold_active, f.sustain, f.entry_trigger);
    let transitioned = next != prev;
    let recommit = transitioned || !f.directive_live;
    let movement = match next {
        DpsPosture::Engage => {
            if !f.seeking {
                KiterMove::ClearDirective
            } else if !recommit {
                KiterMove::Hold
            } else if f.chase_armed {
                KiterMove::ChaseTarget
            } else {
                KiterMove::ScoreDirection
            }
        },
        DpsPosture::Kite => {
            if !recommit {
                KiterMove::Hold
            } else {
                KiterMove::ScoreDirection
            }
        },
    };
    DpsTick { next, transitioned, movement }
}

/// KITE never chases and never drops its directive for a clear line; a
/// chase needs ENGAGE, a blocked line and an armed bucket; a posture change
/// always plans a fresh movement rather than holding the old one.
pub proof fn lemma_dps_tick_laws(prev: DpsPosture, f: KiterFacts)
    ensures
        ({
            let t = spec_dps_tick(prev, f);
            &&& t.next == DpsPosture::Kite ==> t.movement != KiterMove::ChaseTarget && t.movement
                != KiterMove::ClearDirective
            &&& t.movement == KiterMove::ChaseTarget ==> t.next == DpsPosture::Engage && f.seeking
                && f.chase_armed
            &&& t.transitioned ==> t.movement != KiterMove::Hold
            &&& (t.next == DpsPosture::Engage && !f.seeking) ==> t.movement == KiterMove::ClearDirective
        }),
{
}

/// A Mage whose kite entry fires on a melee-range enemy also has its kite
/// sustained while that enemy stays within the ring: entry implies sustain
/// whenever melee range lies inside the kite ring.
pub proof fn lemma_mage_entry_implies_sustain(ctx: CombatContext, me: u64, in_melee: Seq<u64>, in_ring: Seq<u64>)
    requires
        forall|e: u64| in_melee.contains(e) ==> in_ring.contains(e),
        spec_mage_kite_entry(ctx, me, in_melee),
    ensures
        spec_mage_kite_sustain(ctx, me, in_ring),
{
    let k = choose|k: int|
        0 <= k < ctx.combatants@.len() && kite_enemy(ctx, me, #[trigger] ctx.combatants@[k])
            && in_melee.contains(ctx.combatants@[k].entity) && (spec_owned_aura(
            ctx,
            me,
            ctx.combatants@[k].entity,
            AuraType::Root,
        ) || spec_owned_aura(ctx, me, ctx.combatants@[k].entity, AuraType::MovementSpeedSlow));
    assert(in_ring.contains(ctx.combatants@[k].entity));
}

} // verus!
