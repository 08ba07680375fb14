//! The per-class ability priority ladders.
//!
//! Each class's decision pass walks a fixed ladder of abilities and stops at
//! the first one whose attempt lands. What the ladder itself decides —
//! whether a decision happens at all this tick, which rungs are open, and
//! in what order they are tried — is computed here as the plan: the
//! sequence of attempts, in order. Whether an attempt lands is settled by
//! the rung's own checks: its discrete guards and target choice (the
//! `guards` module, the dispel and purge selections, the Kidney Shot plan,
//! the pre-cast guard) and its cooldown, resource, range and line-of-sight
//! checks, which read the floating-point state the caller holds.
//!
//! A plan of `None` means no decision this tick (global cooldown running,
//! the deciding unit or its required target missing). `Some` of an empty
//! plan means a decision with nothing to attempt.
use vstd::prelude::*;
use crate::aura::AuraType;
use crate::context::{
    CombatContext, some_aura, denies_actions_aura, enemy_pred, contains_id, first_where, lemma_first_where,
};
use crate::postures::{HunterDipPlan, Posture, rotation_hoj_allowed};
use crate::roster::CharacterClass;
use crate::kidney::KidneyPlan;

verus! {

/// `seq![x]` when `c` holds, else nothing.
pub open spec fn step_if<T>(c: bool, x: T) -> Seq<T> {
    if c {
        seq![x]
    } else {
        Seq::empty()
    }
}

fn push_if<T: Copy>(v: &mut Vec<T>, c: bool, x: T)
    ensures
        final(v)@ == old(v)@ + step_if(c, x),
{
    if c {
        v.push(x);
    }
    proof {
        assert(v@ =~= old(v)@ + step_if(c, x));
    }
}

fn push_step<T: Copy>(v: &mut Vec<T>, x: T)
    ensures
        final(v)@ == old(v)@ + seq![x],
{
    v.push(x);
    proof {
        assert(v@ =~= old(v)@ + seq![x]);
    }
}

/// Entity `e` is in the snapshot and alive.
pub open spec fn spec_alive(ctx: CombatContext, e: u64) -> bool {
    match ctx.spec_info(e) {
        Some(i) => i.is_alive,
        None => false,
    }
}

fn alive_in(ctx: &CombatContext, e: u64) -> (r: bool)
    ensures
        r == spec_alive(*ctx, e),
{
    match ctx.info(e) {
        Some(i) => i.is_alive,
        None => false,
    }
}

// ---------------------------------------------------------------------------
// Hunter
// ---------------------------------------------------------------------------

/// The band the nearest visible enemy's distance puts the Hunter in.
#[derive(Clone, Copy, Debug, PartialEq, Eq, Structural)]
pub enum RangeBand {
    /// Under 8 yards: escape first.
    DeadZone,
    /// 8 to 20 yards: kite with instants.
    Closing,
    /// 20 yards or more (or no enemy in sight): the full rotation.
    Safe,
}

/// One rung of the Hunter's ladder.
#[derive(Clone, Copy, Debug, PartialEq, Eq, Structural)]
pub enum HunterStep {
    /// Freezing Trap on the dip target the committed walk has reached.
    DipFreezingTrap { target: u64 },
    Disengage,
    /// Frost Trap dropped at the Hunter's own feet.
    FrostTrapAtFeet,
    ConcussiveShot { target: u64 },
    /// Frost Trap midway to the nearest melee threat (or nearest enemy).
    FrostTrapPeel,
    AimedShot,
    ArcaneShot,
    SerpentSting,
    /// Freezing Trap on the off-target enemy's position.
    FreezingTrapOnOffTarget { target: u64 },
    /// Freezing Trap midway to the trap candidate.
    FreezingTrapMidway { target: u64 },
}

/// What the Hunter measured this tick, reduced to the ladder's gates.
#[derive(Clone, Copy, Debug, PartialEq, Eq, Structural)]
pub struct HunterFacts {
    /// The global cooldown is running.
    pub on_gcd: bool,
    pub band: RangeBand,
    /// The kill target is at Aimed Shot's minimum range (20 yards) or beyond.
    pub target_far: bool,
    /// The Concussive Shot target the slow heuristics picked, if any.
    pub concussive_target: Option<u64>,
    /// The opportunistic off-target enemy (a healer when one qualifies), if
    /// there is one.
    pub off_target: Option<u64>,
    /// That enemy is within plant range and no other enemy stands close
    /// enough to the landing to trigger the trap first.
    pub off_target_trap_clean: bool,
}

/// The enemy healer is held by a control that denies actions, and it is not
/// the kill target: burst lands inside the window.
pub open spec fn spec_burst_window(ctx: CombatContext, target: u64) -> bool {
    match ctx.spec_enemy_healer() {
        Some(h) => some_aura(ctx.spec_auras(h), denies_actions_aura()) && h != target,
        None => false,
    }
}

pub open spec fn spec_hunter_dip_step(ctx: CombatContext, dip: HunterDipPlan) -> Seq<HunterStep> {
    match dip {
        HunterDipPlan::DipCast { target } => step_if(
            spec_alive(ctx, target),
            HunterStep::DipFreezingTrap { target },
        ),
        _ => Seq::empty(),
    }
}

pub open spec fn spec_concussive_step(f: HunterFacts) -> Seq<HunterStep> {
    match f.concussive_target {
        Some(c) => seq![HunterStep::ConcussiveShot { target: c }],
        None => Seq::empty(),
    }
}

/// The Freezing Trap rung of the safe-range rotation: on the off-target
/// enemy when it lands cleanly, else (no off-target enemy) midway to the
/// trap candidate — never onto a unit our own DoTs would free at once.
pub open spec fn spec_freezing_step(ctx: CombatContext, target: u64, f: HunterFacts) -> Seq<HunterStep> {
    match f.off_target {
        Some(h) => step_if(
            f.off_target_trap_clean && !ctx.spec_has_friendly_dots_on_target(h),
            HunterStep::FreezingTrapOnOffTarget { target: h },
        ),
        None => {
            let c = match ctx.spec_enemy_healer() {
                Some(h) => h,
                None => target,
            };
            step_if(
                spec_alive(ctx, c) && !ctx.spec_has_friendly_dots_on_target(c),
                HunterStep::FreezingTrapMidway { target: c },
            )
        },
    }
}

pub open spec fn spec_hunter_band_steps(ctx: CombatContext, target: u64, f: HunterFacts) -> Seq<HunterStep> {
    match f.band {
        RangeBand::DeadZone => step_if(
            !ctx.spec_entity_has_aura(ctx.self_entity, AuraType::Root),
            HunterStep::Disengage,
        ) + seq![HunterStep::FrostTrapAtFeet],
        RangeBand::Closing => spec_concussive_step(f) + seq![HunterStep::FrostTrapPeel]
            + seq![HunterStep::ArcaneShot],
        RangeBand::Safe => step_if(
            spec_burst_window(ctx, target) && f.target_far,
            HunterStep::AimedShot,
        ) + spec_concussive_step(f) + seq![HunterStep::SerpentSting] + spec_freezing_step(
            ctx,
            target,
            f,
        ) + step_if(f.target_far, HunterStep::AimedShot) + seq![HunterStep::ArcaneShot],
    }
}

/// The Hunter's ladder this tick.
pub open spec fn spec_hunter_plan(
    ctx: CombatContext,
    target: Option<u64>,
    dip: HunterDipPlan,
    f: HunterFacts,
) -> Option<Seq<HunterStep>> {
    match target {
        None => None,
        Some(t) => if f.on_gcd || !spec_alive(ctx, t) || ctx.spec_info(ctx.self_entity) is None {
            None
        } else if ctx.spec_entity_has_aura(t, AuraType::DamageImmunity) {
            Some(Seq::empty())
        } else {
            Some(spec_hunter_dip_step(ctx, dip) + spec_hunter_band_steps(ctx, t, f))
        },
    }
}

/// The Hunter's ladder: a live Freezing Trap dip arrival first; then, by the
/// nearest enemy's band, Disengage (not while rooted) and a Frost Trap at the
/// feet in the dead zone; Concussive Shot, a Frost Trap peel and Arcane Shot
/// while closing; and at safe range Aimed Shot first inside a burst window,
/// Concussive Shot, Serpent Sting, Freezing Trap, Aimed Shot (at 20 yards or
/// more) and Arcane Shot. No decision without a living target or on the
/// global cooldown; nothing to attempt on a damage-immune target.
pub fn hunter_plan(
    ctx: &CombatContext,
    target: Option<u64>,
    dip: HunterDipPlan,
    f: &HunterFacts,
) -> (r: Option<Vec<HunterStep>>)
    ensures
        r matches Some(v) ==> spec_hunter_plan(*ctx, target, dip, *f) == Some(v@),
        r is None ==> spec_hunter_plan(*ctx, target, dip, *f) is None,
{
    let t = match target {
        Some(t) => t,
        None => {
            return None;
        },
    };
    if f.on_gcd || !alive_in(ctx, t) || ctx.self_info().is_none() {
        return None;
    }
    if ctx.entity_is_immune(t) {
        return Some(Vec::new());
    }
    let mut v: Vec<HunterStep> = Vec::new();
    if let HunterDipPlan::DipCast { target: d } = dip {
        push_if(&mut v, alive_in(ctx, d), HunterStep::DipFreezingTrap { target: d });
    }
    let ghost head = v@;
    assert(head =~= spec_hunter_dip_step(*ctx, dip));
    match f.band {
        RangeBand::DeadZone => {
            push_if(&mut v, !ctx.has_aura(AuraType::Root), HunterStep::Disengage);
            push_step(&mut v, HunterStep::FrostTrapAtFeet);
        },
        RangeBand::Closing => {
            if let Some(c) = f.concussive_target {
                push_step(&mut v, HunterStep::ConcussiveShot { target: c });
            }
            push_step(&mut v, HunterStep::FrostTrapPeel);
            push_step(&mut v, HunterStep::ArcaneShot);
        },
        RangeBand::Safe => {
            let burst = match ctx.enemy_healer() {
                Some(h) => ctx.enemy_healer_is_cced() && h != t,
                None => false,
            };
            push_if(&mut v, burst && f.target_far, HunterStep::AimedShot);
            if let Some(c) = f.concussive_target {
                push_step(&mut v, HunterStep::ConcussiveShot { target: c });
            }
            push_step(&mut v, HunterStep::SerpentSting);
            match f.off_target {
                Some(h) => {
                    push_if(
                        &mut v,
                        f.off_target_trap_clean && !ctx.has_friendly_dots_on_target(h),
                        HunterStep::FreezingTrapOnOffTarget { target: h },
                    );
                },
                None => {
                    let c = ctx.freezing_trap_candidate(t);
                    push_if(
                        &mut v,
                        alive_in(ctx, c) && !ctx.has_friendly_dots_on_target(c),
                        HunterStep::FreezingTrapMidway { target: c },
                    );
                },
            }
            push_if(&mut v, f.target_far, HunterStep::AimedShot);
            push_step(&mut v, HunterStep::ArcaneShot);
        },
    }
    assert(v@ =~= head + spec_hunter_band_steps(*ctx, t, *f));
    Some(v)
}

/// The shape of each band's tail of the plan: while closing, Concussive
/// Shot (when there is a target for it) comes right before the Frost Trap
/// peel, and Arcane Shot ends the plan; in the dead zone Disengage (unless
/// rooted) comes right before the Frost Trap at the feet, which ends it; at
/// safe range Arcane Shot ends the plan, right after Aimed Shot when the
/// kill target is far enough. A live dip arrival always comes first.
pub proof fn lemma_hunter_band_shape(ctx: CombatContext, target: Option<u64>, dip: HunterDipPlan, f: HunterFacts)
    requires
        spec_hunter_plan(ctx, target, dip, f) matches Some(p) && p.len() > 0,
    ensures
        ({
            let p = spec_hunter_plan(ctx, target, dip, f)->0;
            let n = p.len() as int;
            &&& f.band == RangeBand::Closing ==> p[n - 1] == HunterStep::ArcaneShot && p[n - 2]
                == HunterStep::FrostTrapPeel
            &&& f.band == RangeBand::Closing ==> (f.concussive_target matches Some(c) ==> n >= 3 && p[n
                - 3] == HunterStep::ConcussiveShot { target: c })
            &&& (f.band == RangeBand::Closing && f.concussive_target is None) ==> n <= 3 && (n == 3 ==> p[0]
                is DipFreezingTrap)
            &&& f.band == RangeBand::DeadZone ==> p[n - 1] == HunterStep::FrostTrapAtFeet
            &&& (f.band == RangeBand::DeadZone && !ctx.spec_entity_has_aura(ctx.self_entity, AuraType::Root))
                ==> n >= 2 && p[n - 2] == HunterStep::Disengage
            &&& f.band == RangeBand::Safe ==> p[n - 1] == HunterStep::ArcaneShot
            &&& (f.band == RangeBand::Safe && f.target_far) ==> n >= 2 && p[n - 2] == HunterStep::AimedShot
            &&& dip matches HunterDipPlan::DipCast { target: d } ==> (spec_alive(ctx, d) ==> p[0]
                == HunterStep::DipFreezingTrap { target: d })
        }),
{
    let p = spec_hunter_plan(ctx, target, dip, f)->0;
    let t = target->0;
    let d = spec_hunter_dip_step(ctx, dip);
    let b = spec_hunter_band_steps(ctx, t, f);
    assert(p == d + b);
    assert(b.len() >= 1);
    let n = p.len() as int;
    assert(p[n - 1] == b[b.len() - 1]);
    if b.len() >= 2 {
        assert(p[n - 2] == b[b.len() - 2]);
    }
    if b.len() >= 3 {
        assert(p[n - 3] == b[b.len() - 3]);
    }
    if d.len() > 0 {
        assert(p[0] == d[0]);
    }
    match f.band {
        RangeBand::Safe => {
            let tail = step_if(f.target_far, HunterStep::AimedShot) + seq![HunterStep::ArcaneShot];
            let pre = step_if(spec_burst_window(ctx, t) && f.target_far, HunterStep::AimedShot)
                + spec_concussive_step(f) + seq![HunterStep::SerpentSting] + spec_freezing_step(ctx, t, f);
            assert(b =~= pre + tail);
            assert(b[b.len() - 1] == tail[tail.len() - 1]);
            if f.target_far {
                assert(b[b.len() - 2] == tail[0]);
            }
        },
        _ => {},
    }
}

pub open spec fn is_freezing_trap(s: HunterStep) -> bool {
    s is FreezingTrapOnOffTarget || s is FreezingTrapMidway
}

/// Serpent Sting belongs to the safe-range rotation alone — with melee
/// closing, every global cooldown goes to the kiting toolkit — and there it
/// sits above Freezing Trap, so the trap always sees the sting already
/// applied.
pub proof fn lemma_hunter_sting_placement(
    ctx: CombatContext,
    target: Option<u64>,
    dip: HunterDipPlan,
    f: HunterFacts,
    i: int,
    j: int,
)
    requires
        spec_hunter_plan(ctx, target, dip, f) matches Some(p) && 0 <= i < p.len() && p[i]
            == HunterStep::SerpentSting,
    ensures
        f.band == RangeBand::Safe,
        spec_hunter_plan(ctx, target, dip, f) matches Some(p) && (0 <= j < p.len()
            && is_freezing_trap(p[j]) ==> i < j),
{
    let p = spec_hunter_plan(ctx, target, dip, f)->0;
    let t = target->0;
    let d = spec_hunter_dip_step(ctx, dip);
    let b = spec_hunter_band_steps(ctx, t, f);
    let c = spec_concussive_step(f);
    assert(p == d + b);
    assert(forall|m: int| 0 <= m < d.len() ==> d[m] is DipFreezingTrap);
    assert(forall|n: int| 0 <= n < c.len() ==> c[n] is ConcussiveShot);
    if f.band == RangeBand::Safe {
        let a = step_if(spec_burst_window(ctx, t) && f.target_far, HunterStep::AimedShot);
        let fr = spec_freezing_step(ctx, t, f);
        let tail = step_if(f.target_far, HunterStep::AimedShot) + seq![HunterStep::ArcaneShot];
        assert(forall|n: int| 0 <= n < fr.len() ==> is_freezing_trap(fr[n]));
        assert(forall|n: int| 0 <= n < a.len() ==> a[n] == HunterStep::AimedShot);
        assert(forall|n: int| 0 <= n < tail.len() ==> tail[n] == HunterStep::AimedShot || tail[n] == HunterStep::ArcaneShot);
        assert(b == a + c + seq![HunterStep::SerpentSting] + fr + tail);
        lemma_sting_layout(d, a, c, fr, tail, i, j);
    } else if i >= d.len() {
        assert(p[i] == b[i - d.len()]);
    }
}

/// The shape of the safe-range plan: Serpent Sting sits once, after the
/// dip, burst and Concussive rungs and before every Freezing Trap.
proof fn lemma_sting_layout(
    d: Seq<HunterStep>,
    a: Seq<HunterStep>,
    c: Seq<HunterStep>,
    fr: Seq<HunterStep>,
    tail: Seq<HunterStep>,
    i: int,
    j: int,
)
    requires
        forall|n: int| 0 <= n < d.len() ==> d[n] is DipFreezingTrap,
        forall|n: int| 0 <= n < a.len() ==> a[n] == HunterStep::AimedShot,
        forall|n: int| 0 <= n < c.len() ==> c[n] is ConcussiveShot,
        forall|n: int| 0 <= n < fr.len() ==> is_freezing_trap(fr[n]),
        forall|n: int| 0 <= n < tail.len() ==> tail[n] == HunterStep::AimedShot || tail[n] == HunterStep::ArcaneShot,
        0 <= i < (d + (a + c + seq![HunterStep::SerpentSting] + fr + tail)).len(),
        (d + (a + c + seq![HunterStep::SerpentSting] + fr + tail))[i] == HunterStep::SerpentSting,
    ensures
        0 <= j < (d + (a + c + seq![HunterStep::SerpentSting] + fr + tail)).len() && is_freezing_trap(
            (d + (a + c + seq![HunterStep::SerpentSting] + fr + tail))[j],
        ) ==> i < j,
{
    let pre = d + a + c;
    let rest = fr + tail;
    let p = d + (a + c + seq![HunterStep::SerpentSting] + fr + tail);
    assert(p =~= pre + seq![HunterStep::SerpentSting] + rest);
    assert forall|n: int| 0 <= n < pre.len() implies pre[n] != HunterStep::SerpentSting && !is_freezing_trap(pre[n]) by {
        if n < d.len() {
            assert(pre[n] == d[n]);
        } else if n < d.len() + a.len() {
            assert(pre[n] == a[n - d.len()]);
        } else {
            assert(pre[n] == c[n - d.len() - a.len()]);
        }
    }
    assert forall|n: int| 0 <= n < rest.len() implies rest[n] != HunterStep::SerpentSting by {
        if n < fr.len() {
            assert(rest[n] == fr[n]);
        } else {
            assert(rest[n] == tail[n - fr.len()]);
        }
    }
    lemma_only_at(pre, HunterStep::SerpentSting, rest, i);
    if 0 <= j < p.len() && is_freezing_trap(p[j]) && j <= pre.len() {
        if j < pre.len() {
            assert(p[j] == pre[j]);
        }
    }
}

/// In `x + [e] + y`, where neither `x` nor `y` holds `e`, the only position
/// of `e` is just past `x`.
proof fn lemma_only_at<T>(x: Seq<T>, e: T, y: Seq<T>, i: int)
    requires
        forall|n: int| 0 <= n < x.len() ==> x[n] != e,
        forall|n: int| 0 <= n < y.len() ==> y[n] != e,
        0 <= i < x.len() + 1 + y.len(),
        (x + seq![e] + y)[i] == e,
    ensures
        i == x.len(),
{
    let s = x + seq![e] + y;
    if i < x.len() {
        assert(s[i] == x[i]);
    } else if i > x.len() {
        assert(s[i] == y[i - x.len() - 1]);
    }
}

/// Aimed Shot is only attempted at safe range on a kill target 20 yards or
/// more away; Disengage never while rooted; a damage-immune target gets no
/// attempt at all.
pub proof fn lemma_hunter_gates(
    ctx: CombatContext,
    target: Option<u64>,
    dip: HunterDipPlan,
    f: HunterFacts,
    k: int,
)
    requires
        spec_hunter_plan(ctx, target, dip, f) matches Some(p) && 0 <= k < p.len(),
    ensures
        ({
            let p = spec_hunter_plan(ctx, target, dip, f)->0;
            &&& p[k] == HunterStep::AimedShot ==> f.band == RangeBand::Safe && f.target_far
            &&& p[k] == HunterStep::Disengage ==> !ctx.spec_entity_has_aura(
                ctx.self_entity,
                AuraType::Root,
            )
            &&& !ctx.spec_entity_has_aura(target->0, AuraType::DamageImmunity)
        }),
{
    let p = spec_hunter_plan(ctx, target, dip, f)->0;
    let t = target->0;
    let d = spec_hunter_dip_step(ctx, dip);
    let b = spec_hunter_band_steps(ctx, t, f);
    assert(p == d + b);
    assert(forall|m: int| 0 <= m < d.len() ==> d[m] is DipFreezingTrap);
    if k >= d.len() {
        let m = k - d.len();
        assert(p[k] == b[m]);
        match f.band {
            RangeBand::DeadZone => {},
            RangeBand::Closing => {
                let c = spec_concussive_step(f);
                assert(forall|n: int| 0 <= n < c.len() ==> c[n] is ConcussiveShot);
            },
            RangeBand::Safe => {
                let c = spec_concussive_step(f);
                let fr = spec_freezing_step(ctx, t, f);
                assert(forall|n: int| 0 <= n < c.len() ==> c[n] is ConcussiveShot);
                assert(forall|n: int| 0 <= n < fr.len() ==> is_freezing_trap(fr[n]));
            },
        }
    }
}

/// The non-dip Freezing Trap never goes onto a unit our team has DoT'd: the
/// first tick would break the incapacitate.
pub proof fn lemma_hunter_trap_spares_dotted_targets(
    ctx: CombatContext,
    target: Option<u64>,
    dip: HunterDipPlan,
    f: HunterFacts,
    k: int,
)
    requires
        spec_hunter_plan(ctx, target, dip, f) matches Some(p) && 0 <= k < p.len(),
    ensures
        ({
            let s = spec_hunter_plan(ctx, target, dip, f)->0[k];
            &&& s matches HunterStep::FreezingTrapOnOffTarget { target: o } ==> !ctx.spec_has_friendly_dots_on_target(o)
            &&& s matches HunterStep::FreezingTrapMidway { target: c } ==> !ctx.spec_has_friendly_dots_on_target(c) && spec_alive(ctx, c)
        }),
{
    let p = spec_hunter_plan(ctx, target, dip, f)->0;
    let t = target->0;
    let d = spec_hunter_dip_step(ctx, dip);
    let b = spec_hunter_band_steps(ctx, t, f);
    assert(p == d + b);
    assert(forall|m: int| 0 <= m < d.len() ==> d[m] is DipFreezingTrap);
    if k >= d.len() && f.band == RangeBand::Safe {
        let a = step_if(spec_burst_window(ctx, t) && f.target_far, HunterStep::AimedShot);
        let c = spec_concussive_step(f);
        let fr = spec_freezing_step(ctx, t, f);
        let tail = step_if(f.target_far, HunterStep::AimedShot) + seq![HunterStep::ArcaneShot];
        let pre = a + c + seq![HunterStep::SerpentSting];
        assert(b =~= pre + fr + tail);
        assert(forall|n: int| 0 <= n < c.len() ==> c[n] is ConcussiveShot);
        assert(forall|n: int| 0 <= n < pre.len() ==> !is_freezing_trap(#[trigger] pre[n]));
        assert(forall|n: int| 0 <= n < tail.len() ==> !is_freezing_trap(#[trigger] tail[n]));
    } else if k >= d.len() {
        let c = spec_concussive_step(f);
        assert(forall|n: int| 0 <= n < c.len() ==> c[n] is ConcussiveShot);
    }
}

/// Inside a burst window at safe range, with no dip arrival pending, Aimed
/// Shot is the very first attempt.
pub proof fn lemma_hunter_burst_leads(
    ctx: CombatContext,
    target: Option<u64>,
    dip: HunterDipPlan,
    f: HunterFacts,
)
    requires
        spec_hunter_plan(ctx, target, dip, f) matches Some(p) && p.len() > 0,
        f.band == RangeBand::Safe,
        f.target_far,
        spec_burst_window(ctx, target->0),
        !(dip is DipCast),
    ensures
        spec_hunter_plan(ctx, target, dip, f)->0[0] == HunterStep::AimedShot,
{
    let t = target->0;
    assert(spec_hunter_dip_step(ctx, dip) =~= Seq::<HunterStep>::empty());
}

// ---------------------------------------------------------------------------
// Warlock
// ---------------------------------------------------------------------------

/// One rung of the Warlock's ladder.
#[derive(Clone, Copy, Debug, PartialEq, Eq, Structural)]
pub enum WarlockStep {
    UnstableAffliction,
    Corruption,
    /// Curses on every enemy that lacks one.
    SpreadCurses,
    Immolate,
    Fear { target: u64 },
    DrainLife,
    ShadowBolt,
}

/// What the Warlock measured this tick, reduced to the ladder's gates.
#[derive(Clone, Copy, Debug, PartialEq, Eq, Structural)]
pub struct WarlockFacts {
    /// The global cooldown is running.
    pub on_gcd: bool,
    /// Slowed and beyond its preferred range: a cast or channel would be
    /// interrupted by the chase.
    pub being_kited: bool,
    /// The Fear target is immune to fears by diminishing returns.
    pub fear_target_dr_immune: bool,
}

/// Some alive enemy (pets aside) is a Priest or a Paladin: a magic DoT may
/// be dispelled, so Unstable Affliction goes out first.
pub open spec fn spec_enemy_has_dispeller(ctx: CombatContext) -> bool {
    let enemies = ctx.combatants@.filter(enemy_pred(ctx.spec_my_team()));
    exists|k: int|
        0 <= k < enemies.len() && (#[trigger] enemies[k].class == CharacterClass::Priest
            || enemies[k].class == CharacterClass::Paladin)
}

fn enemy_has_dispeller(ctx: &CombatContext) -> (r: bool)
    ensures
        r == spec_enemy_has_dispeller(*ctx),
{
    let enemies = ctx.alive_enemies();
    let mut k: usize = 0;
    while k < enemies.len()
        invariant
            enemies@ == ctx.combatants@.filter(enemy_pred(ctx.spec_my_team())),
            0 <= k <= enemies@.len(),
            forall|j: int|
                0 <= j < k ==> !(#[trigger] enemies@[j].class == CharacterClass::Priest
                    || enemies@[j].class == CharacterClass::Paladin),
        decreases enemies.len() - k,
    {
        let c = enemies[k].class;
        if matches!(c, CharacterClass::Priest | CharacterClass::Paladin) {
            return true;
        }
        k = k + 1;
    }
    false
}

pub open spec fn spec_warlock_steps(
    ctx: CombatContext,
    t: u64,
    cc_target: Option<u64>,
    f: WarlockFacts,
) -> Seq<WarlockStep> {
    let immune = ctx.spec_entity_has_aura(t, AuraType::DamageImmunity);
    let ua_first = spec_enemy_has_dispeller(ctx) && !immune;
    let cast_ok = !immune && !f.being_kited;
    let ft = match cc_target {
        Some(c) => c,
        None => t,
    };
    step_if(ua_first, WarlockStep::UnstableAffliction) + step_if(!immune, WarlockStep::Corruption)
        + step_if(!immune && !ua_first, WarlockStep::UnstableAffliction)
        + seq![WarlockStep::SpreadCurses] + step_if(cast_ok, WarlockStep::Immolate) + step_if(
        !ctx.spec_entity_has_aura(ft, AuraType::DamageImmunity) && !f.fear_target_dr_immune
            && ctx.spec_info(ft) is Some,
        WarlockStep::Fear { target: ft },
    ) + step_if(cast_ok, WarlockStep::DrainLife) + step_if(cast_ok, WarlockStep::ShadowBolt)
}

/// The Warlock's ladder this tick.
pub open spec fn spec_warlock_plan(
    ctx: CombatContext,
    target: Option<u64>,
    cc_target: Option<u64>,
    f: WarlockFacts,
) -> Option<Seq<WarlockStep>> {
    match target {
        None => None,
        Some(t) => if ctx.spec_info(t) is None || f.on_gcd || ctx.spec_info(ctx.self_entity) is None {
            None
        } else {
            Some(spec_warlock_steps(ctx, t, cc_target, f))
        },
    }
}

/// The Warlock's ladder: Unstable Affliction ahead of Corruption when the
/// enemy can dispel (after it otherwise), curses on every enemy, Immolate,
/// Fear on the CC target (else the kill target), Drain Life and Shadow Bolt.
/// Nothing that damages the kill target is tried while it is immune, and no
/// cast or channel while the Warlock is being kited.
pub fn warlock_plan(
    ctx: &CombatContext,
    target: Option<u64>,
    cc_target: Option<u64>,
    f: &WarlockFacts,
) -> (r: Option<Vec<WarlockStep>>)
    ensures
        r matches Some(v) ==> spec_warlock_plan(*ctx, target, cc_target, *f) == Some(v@),
        r is None ==> spec_warlock_plan(*ctx, target, cc_target, *f) is None,
{
    let t = match target {
        Some(t) => t,
        None => {
            return None;
        },
    };
    if ctx.info(t).is_none() || f.on_gcd || ctx.self_info().is_none() {
        return None;
    }
    let immune = ctx.entity_is_immune(t);
    let ua_first = enemy_has_dispeller(ctx) && !immune;
    let cast_ok = !immune && !f.being_kited;
    let ft = match cc_target {
        Some(c) => c,
        None => t,
    };
    let mut v: Vec<WarlockStep> = Vec::new();
    push_if(&mut v, ua_first, WarlockStep::UnstableAffliction);
    push_if(&mut v, !immune, WarlockStep::Corruption);
    push_if(&mut v, !immune && !ua_first, WarlockStep::UnstableAffliction);
    push_step(&mut v, WarlockStep::SpreadCurses);
    push_if(&mut v, cast_ok, WarlockStep::Immolate);
    let fear_ok = !ctx.entity_is_immune(ft) && !f.fear_target_dr_immune && ctx.info(ft).is_some();
    push_if(&mut v, fear_ok, WarlockStep::Fear { target: ft });
    push_if(&mut v, cast_ok, WarlockStep::DrainLife);
    push_if(&mut v, cast_ok, WarlockStep::ShadowBolt);
    assert(v@ =~= spec_warlock_steps(*ctx, t, cc_target, *f));
    Some(v)
}

/// Against a team that can dispel, Unstable Affliction goes out before
/// Corruption; otherwise Corruption leads. Either way the two open the
/// ladder on a target that is not immune.
pub proof fn lemma_warlock_dispeller_order(
    ctx: CombatContext,
    target: Option<u64>,
    cc_target: Option<u64>,
    f: WarlockFacts,
)
    requires
        spec_warlock_plan(ctx, target, cc_target, f) is Some,
        !ctx.spec_entity_has_aura(target->0, AuraType::DamageImmunity),
    ensures
        ({
            let p = spec_warlock_plan(ctx, target, cc_target, f)->0;
            &&& p.len() >= 2
            &&& spec_enemy_has_dispeller(ctx) ==> p[0] == WarlockStep::UnstableAffliction && p[1]
                == WarlockStep::Corruption
            &&& !spec_enemy_has_dispeller(ctx) ==> p[0] == WarlockStep::Corruption && p[1]
                == WarlockStep::UnstableAffliction
        }),
{
}

/// Unstable Affliction is tried at most once a tick; nothing that damages an
/// immune kill target is tried; no Immolate, Drain Life or Shadow Bolt while
/// kited; Fear only onto a unit in the snapshot that is neither immune nor
/// diminished to immunity.
pub proof fn lemma_warlock_gates(
    ctx: CombatContext,
    target: Option<u64>,
    cc_target: Option<u64>,
    f: WarlockFacts,
    i: int,
    j: int,
)
    requires
        spec_warlock_plan(ctx, target, cc_target, f) matches Some(p) && 0 <= i < p.len() && 0
            <= j < p.len(),
    ensures
        ({
            let p = spec_warlock_plan(ctx, target, cc_target, f)->0;
            let immune = ctx.spec_entity_has_aura(target->0, AuraType::DamageImmunity);
            &&& p[i] == WarlockStep::UnstableAffliction && p[j] == WarlockStep::UnstableAffliction
                ==> i == j
            &&& (p[i] == WarlockStep::UnstableAffliction || p[i] == WarlockStep::Corruption)
                ==> !immune
            &&& (p[i] == WarlockStep::Immolate || p[i] == WarlockStep::DrainLife || p[i]
                == WarlockStep::ShadowBolt) ==> !immune && !f.being_kited
            &&& p[i] matches WarlockStep::Fear { target: ft } ==> !ctx.spec_entity_has_aura(
                ft,
                AuraType::DamageImmunity,
            ) && !f.fear_target_dr_immune && ctx.spec_info(ft) is Some
        }),
{
    let t = target->0;
    let p = spec_warlock_steps(ctx, t, cc_target, f);
    let immune = ctx.spec_entity_has_aura(t, AuraType::DamageImmunity);
    let ua_first = spec_enemy_has_dispeller(ctx) && !immune;
    let head = step_if(ua_first, WarlockStep::UnstableAffliction) + step_if(
        !immune,
        WarlockStep::Corruption,
    ) + step_if(!immune && !ua_first, WarlockStep::UnstableAffliction);
    let rest = p.subrange(head.len() as int, p.len() as int);
    assert(p =~= head + rest);
    assert forall|n: int| 0 <= n < rest.len() implies rest[n] != WarlockStep::UnstableAffliction
        && rest[n] != WarlockStep::Corruption by {
        assert(rest[n] == p[head.len() + n]);
    }
    if i >= head.len() {
        assert(p[i] == rest[i - head.len()]);
    }
    if j >= head.len() {
        assert(p[j] == rest[j - head.len()]);
    }
}

// ---------------------------------------------------------------------------
// Paladin
// ---------------------------------------------------------------------------

/// How the Paladin's rotation may use Hammer of Justice this tick.
#[derive(Clone, Copy, Debug, PartialEq, Eq, Structural)]
pub enum HojPlan {
    /// No reservation: rotation HoJ as usual.
    Rotation,
    /// A living enemy healer exists and the Paladin is not pressured: the
    /// stun is saved for a dip.
    Reserved,
    /// Mid-dip and within range of the dip target: stun it now.
    DipCast { target: u64 },
}

pub open spec fn spec_settle_hoj_plan(ctx: CombatContext, posture: Posture, current: HojPlan) -> HojPlan {
    if current is DipCast {
        current
    } else if ctx.spec_enemy_healer() is None || posture == Posture::Pressured || posture
        == Posture::Escape {
        HojPlan::Rotation
    } else {
        HojPlan::Reserved
    }
}

/// The HoJ reservation, applied unless the dip tick already claimed the
/// cast: reserved while a living enemy healer exists and the Paladin is
/// neither pressured nor escaping.
pub fn settle_hoj_plan(ctx: &CombatContext, posture: Posture, current: HojPlan) -> (r: HojPlan)
    ensures
        r == spec_settle_hoj_plan(*ctx, posture, current),
{
    if let HojPlan::DipCast { .. } = current {
        return current;
    }
    if rotation_hoj_allowed(posture, ctx.enemy_healer().is_some()) {
        HojPlan::Rotation
    } else {
        HojPlan::Reserved
    }
}

/// One rung of the Paladin's ladder.
#[derive(Clone, Copy, Debug, PartialEq, Eq, Structural)]
pub enum PaladinStep {
    PaladinAura,
    DivineShield,
    /// Cleanse of an urgent control (Polymorph, Fear).
    UrgentCleanse,
    DipHammerOfJustice { target: u64 },
    /// Holy Shock as an emergency heal.
    HolyShockHeal,
    HammerOfJustice,
    FlashOfLight,
    HolyLight,
    /// Cleanse of anything dispellable, while the team is healthy.
    MaintenanceCleanse,
    /// Holy Shock as damage, while the team is healthy.
    HolyShockDamage,
}

pub open spec fn spec_paladin_steps(
    hoj: HojPlan,
    emergency_target: bool,
    team_healthy: bool,
) -> Seq<PaladinStep> {
    seq![PaladinStep::PaladinAura, PaladinStep::DivineShield, PaladinStep::UrgentCleanse]
        + match hoj {
        HojPlan::DipCast { target } => seq![PaladinStep::DipHammerOfJustice { target }],
        _ => Seq::empty(),
    } + step_if(emergency_target, PaladinStep::HolyShockHeal) + step_if(
        hoj is Rotation,
        PaladinStep::HammerOfJustice,
    ) + seq![PaladinStep::FlashOfLight, PaladinStep::HolyLight] + step_if(
        team_healthy,
        PaladinStep::MaintenanceCleanse,
    ) + step_if(team_healthy, PaladinStep::HolyShockDamage)
}

/// The Paladin's ladder this tick. `emergency_target`: some ally is below
/// the emergency health threshold; `team_healthy`: every ally is above the
/// healthy threshold.
pub open spec fn spec_paladin_plan(
    ctx: CombatContext,
    on_gcd: bool,
    hoj: HojPlan,
    emergency_target: bool,
    team_healthy: bool,
) -> Option<Seq<PaladinStep>> {
    if on_gcd || ctx.spec_info(ctx.self_entity) is None {
        None
    } else {
        Some(spec_paladin_steps(hoj, emergency_target, team_healthy))
    }
}

/// The Paladin's ladder: aura, Divine Shield, urgent Cleanse, the dip's
/// Hammer of Justice, Holy Shock as an emergency heal, rotation Hammer of
/// Justice (unless reserved), Flash of Light, Holy Light, then — only while
/// the team is healthy — maintenance Cleanse and Holy Shock as damage.
pub fn paladin_plan(
    ctx: &CombatContext,
    on_gcd: bool,
    hoj: HojPlan,
    emergency_target: bool,
    team_healthy: bool,
) -> (r: Option<Vec<PaladinStep>>)
    ensures
        r matches Some(v) ==> spec_paladin_plan(*ctx, on_gcd, hoj, emergency_target, team_healthy)
            == Some(v@),
        r is None ==> spec_paladin_plan(*ctx, on_gcd, hoj, emergency_target, team_healthy) is None,
{
    if on_gcd || ctx.self_info().is_none() {
        return None;
    }
    let mut v: Vec<PaladinStep> = Vec::new();
    push_step(&mut v, PaladinStep::PaladinAura);
    push_step(&mut v, PaladinStep::DivineShield);
    push_step(&mut v, PaladinStep::UrgentCleanse);
    if let HojPlan::DipCast { target } = hoj {
        push_step(&mut v, PaladinStep::DipHammerOfJustice { target });
    }
    push_if(&mut v, emergency_target, PaladinStep::HolyShockHeal);
    push_if(&mut v, matches!(hoj, HojPlan::Rotation), PaladinStep::HammerOfJustice);
    push_step(&mut v, PaladinStep::FlashOfLight);
    push_step(&mut v, PaladinStep::HolyLight);
    push_if(&mut v, team_healthy, PaladinStep::MaintenanceCleanse);
    push_if(&mut v, team_healthy, PaladinStep::HolyShockDamage);
    assert(v@ =~= spec_paladin_steps(hoj, emergency_target, team_healthy));
    Some(v)
}

pub open spec fn is_hoj(s: PaladinStep) -> bool {
    s is HammerOfJustice || s is DipHammerOfJustice
}

/// Hammer of Justice is tried at most once a tick: as the dip's stun when
/// the plan carries one, as the rotation's otherwise — and not at all while
/// it is reserved. A living enemy healer and a Paladin under no pressure
/// reserve it.
pub proof fn lemma_paladin_hoj_reservation(
    ctx: CombatContext,
    posture: Posture,
    current: HojPlan,
    emergency_target: bool,
    team_healthy: bool,
    i: int,
    j: int,
)
    ensures
        ({
            let hoj = spec_settle_hoj_plan(ctx, posture, current);
            let p = spec_paladin_steps(hoj, emergency_target, team_healthy);
            &&& (0 <= i < p.len() && 0 <= j < p.len() && is_hoj(p[i]) && is_hoj(p[j])) ==> i == j
            &&& (0 <= i < p.len() && p[i] is HammerOfJustice) ==> hoj is Rotation
            &&& (0 <= i < p.len() && p[i] is DipHammerOfJustice) ==> hoj is DipCast
            &&& (ctx.spec_enemy_healer() is Some && (posture == Posture::Free || posture
                == Posture::Dip) && !(current is DipCast)) ==> hoj is Reserved
        }),
{
    let hoj = spec_settle_hoj_plan(ctx, posture, current);
    let p = spec_paladin_steps(hoj, emergency_target, team_healthy);
    let dip = match hoj {
        HojPlan::DipCast { target } => seq![PaladinStep::DipHammerOfJustice { target }],
        _ => Seq::empty(),
    };
    let mid = dip + step_if(emergency_target, PaladinStep::HolyShockHeal) + step_if(
        hoj is Rotation,
        PaladinStep::HammerOfJustice,
    );
    let tail = seq![PaladinStep::FlashOfLight, PaladinStep::HolyLight] + step_if(
        team_healthy,
        PaladinStep::MaintenanceCleanse,
    ) + step_if(team_healthy, PaladinStep::HolyShockDamage);
    let head = seq![PaladinStep::PaladinAura, PaladinStep::DivineShield, PaladinStep::UrgentCleanse];
    assert(p =~= head + mid + tail);
    assert forall|n: int| 0 <= n < tail.len() implies !is_hoj(#[trigger] tail[n]) by {}
    if 0 <= i < p.len() {
        if i >= 3 + mid.len() {
            assert(p[i] == tail[i - 3 - mid.len()]);
        } else if i >= 3 {
            assert(p[i] == mid[i - 3]);
        }
    }
    if 0 <= j < p.len() {
        if j >= 3 + mid.len() {
            assert(p[j] == tail[j - 3 - mid.len()]);
        } else if j >= 3 {
            assert(p[j] == mid[j - 3]);
        }
    }
}

/// The emergency heal of a dying ally outranks the rotation stun: with an
/// emergency target Holy Shock (heal) is tried, and before any rotation
/// Hammer of Justice; without one it is not tried at all. The dip's stun,
/// when the dip has arrived, comes right after the urgent Cleanse, ahead of
/// every heal. The healthy-team rungs end the plan exactly when the team is
/// healthy; otherwise Holy Light does.
pub proof fn lemma_paladin_emergency_heal_first(
    hoj: HojPlan,
    emergency_target: bool,
    team_healthy: bool,
    i: int,
    j: int,
)
    ensures
        ({
            let p = spec_paladin_steps(hoj, emergency_target, team_healthy);
            let n = p.len() as int;
            &&& emergency_target <==> p.contains(PaladinStep::HolyShockHeal)
            &&& (0 <= i < n && 0 <= j < n && p[i] == PaladinStep::HolyShockHeal && p[j]
                == PaladinStep::HammerOfJustice) ==> i < j
            &&& hoj matches HojPlan::DipCast { target } ==> p[3] == PaladinStep::DipHammerOfJustice { target }
            &&& team_healthy ==> p[n - 2] == PaladinStep::MaintenanceCleanse && p[n - 1]
                == PaladinStep::HolyShockDamage
            &&& !team_healthy ==> p[n - 2] == PaladinStep::FlashOfLight && p[n - 1] == PaladinStep::HolyLight
        }),
{
    let p = spec_paladin_steps(hoj, emergency_target, team_healthy);
    let head = seq![PaladinStep::PaladinAura, PaladinStep::DivineShield, PaladinStep::UrgentCleanse];
    let dip = match hoj {
        HojPlan::DipCast { target } => seq![PaladinStep::DipHammerOfJustice { target }],
        _ => Seq::empty(),
    };
    let heal = step_if(emergency_target, PaladinStep::HolyShockHeal);
    let stun = step_if(hoj is Rotation, PaladinStep::HammerOfJustice);
    let tail = seq![PaladinStep::FlashOfLight, PaladinStep::HolyLight] + step_if(
        team_healthy,
        PaladinStep::MaintenanceCleanse,
    ) + step_if(team_healthy, PaladinStep::HolyShockDamage);
    assert(p =~= head + dip + heal + stun + tail);
    let a = head + dip;
    let hpos = a.len() as int;
    let spos = hpos + heal.len();
    let tpos = spos + stun.len();
    assert(forall|k: int| 0 <= k < a.len() ==> a[k] != PaladinStep::HolyShockHeal && a[k] != PaladinStep::HammerOfJustice) by {
        assert forall|k: int| 0 <= k < a.len() implies a[k] != PaladinStep::HolyShockHeal && a[k]
            != PaladinStep::HammerOfJustice by {
            if k < 3 {
                assert(a[k] == head[k]);
            } else {
                assert(a[k] == dip[k - 3]);
            }
        }
    }
    assert(forall|k: int| 0 <= k < tail.len() ==> tail[k] != PaladinStep::HolyShockHeal && tail[k]
        != PaladinStep::HammerOfJustice);
    assert forall|k: int| 0 <= k < p.len() && p[k] == PaladinStep::HolyShockHeal implies k == hpos by {
        if k < hpos {
            assert(p[k] == a[k]);
        } else if k >= spos && k < tpos {
            assert(p[k] == stun[k - spos]);
        } else if k >= tpos {
            assert(p[k] == tail[k - tpos]);
        }
    }
    assert forall|k: int| 0 <= k < p.len() && p[k] == PaladinStep::HammerOfJustice implies k == spos by {
        if k < hpos {
            assert(p[k] == a[k]);
        } else if k >= hpos && k < spos {
            assert(p[k] == heal[k - hpos]);
        } else if k >= tpos {
            assert(p[k] == tail[k - tpos]);
        }
    }
    if emergency_target {
        assert(p[hpos] == PaladinStep::HolyShockHeal);
    } else {
        assert(!p.contains(PaladinStep::HolyShockHeal)) by {
            if p.contains(PaladinStep::HolyShockHeal) {
                let k = choose|k: int| 0 <= k < p.len() && p[k] == PaladinStep::HolyShockHeal;
                assert(k == hpos);
                assert(p[k] == stun[0] || p[k] == tail[0] || spos < p.len());
            }
        }
    }
    let n = p.len() as int;
    assert(p[n - 1] == tail[tail.len() - 1]);
    assert(p[n - 2] == tail[tail.len() - 2]);
    if hoj is DipCast {
        assert(p[3] == dip[0]);
    }
}

/// The Paladin opens every decision with its aura, Divine Shield and the
/// urgent Cleanse: no heal, stun or dip outranks them.
pub proof fn lemma_paladin_opening(hoj: HojPlan, emergency_target: bool, team_healthy: bool)
    ensures
        spec_paladin_steps(hoj, emergency_target, team_healthy).len() >= 5,
        spec_paladin_steps(hoj, emergency_target, team_healthy)[0] == PaladinStep::PaladinAura,
        spec_paladin_steps(hoj, emergency_target, team_healthy)[1] == PaladinStep::DivineShield,
        spec_paladin_steps(hoj, emergency_target, team_healthy)[2] == PaladinStep::UrgentCleanse,
{
}

// ---------------------------------------------------------------------------
// Priest
// ---------------------------------------------------------------------------

/// How the Priest's ladder may use its dip Psychic Scream this tick.
#[derive(Clone, Copy, Debug, PartialEq, Eq, Structural)]
pub enum ScreamDipPlan {
    /// No dip cast: the defensive scream behaves as usual.
    Rotation,
    /// A living enemy healer exists and the Priest is not pressured.
    Reserved,
    /// Mid-dip and within scream radius of the dip target: scream now.
    DipCast { target: u64 },
}

/// One rung of the Priest's ladder.
#[derive(Clone, Copy, Debug, PartialEq, Eq, Structural)]
pub enum PriestStep {
    Fortitude,
    /// Dispel Magic on an urgent control (Polymorph, Fear).
    UrgentDispel,
    /// The dip's Psychic Scream on the enemy healer the walk reached.
    DipPsychicScream { target: u64 },
    /// Psychic Scream as a defensive peel under pressure.
    PsychicScream,
    PowerWordShield,
    FlashHeal,
    /// Dispel Magic on anything dispellable, while the team is healthy.
    MaintenanceDispel,
    MindBlast,
}

pub open spec fn spec_priest_steps(scream_dip: ScreamDipPlan, team_healthy: bool) -> Seq<PriestStep> {
    seq![PriestStep::Fortitude, PriestStep::UrgentDispel] + match scream_dip {
        ScreamDipPlan::DipCast { target } => seq![PriestStep::DipPsychicScream { target }],
        _ => Seq::empty(),
    } + seq![PriestStep::PsychicScream, PriestStep::PowerWordShield, PriestStep::FlashHeal]
        + step_if(team_healthy, PriestStep::MaintenanceDispel) + seq![PriestStep::MindBlast]
}

/// The Priest's ladder this tick. `team_healthy`: every ally is above the
/// healthy threshold.
pub open spec fn spec_priest_plan(
    ctx: CombatContext,
    on_gcd: bool,
    scream_dip: ScreamDipPlan,
    team_healthy: bool,
) -> Option<Seq<PriestStep>> {
    if on_gcd || ctx.spec_info(ctx.self_entity) is None {
        None
    } else {
        Some(spec_priest_steps(scream_dip, team_healthy))
    }
}

/// The Priest's ladder: Fortitude, urgent Dispel Magic, the dip's Psychic
/// Scream, the defensive Psychic Scream, Power Word: Shield, Flash Heal,
/// maintenance Dispel Magic (only while the team is healthy) and Mind Blast.
pub fn priest_plan(
    ctx: &CombatContext,
    on_gcd: bool,
    scream_dip: ScreamDipPlan,
    team_healthy: bool,
) -> (r: Option<Vec<PriestStep>>)
    ensures
        r matches Some(v) ==> spec_priest_plan(*ctx, on_gcd, scream_dip, team_healthy) == Some(v@),
        r is None ==> spec_priest_plan(*ctx, on_gcd, scream_dip, team_healthy) is None,
{
    if on_gcd || ctx.self_info().is_none() {
        return None;
    }
    let mut v: Vec<PriestStep> = Vec::new();
    push_step(&mut v, PriestStep::Fortitude);
    push_step(&mut v, PriestStep::UrgentDispel);
    if let ScreamDipPlan::DipCast { target } = scream_dip {
        push_step(&mut v, PriestStep::DipPsychicScream { target });
    }
    push_step(&mut v, PriestStep::PsychicScream);
    push_step(&mut v, PriestStep::PowerWordShield);
    push_step(&mut v, PriestStep::FlashHeal);
    push_if(&mut v, team_healthy, PriestStep::MaintenanceDispel);
    push_step(&mut v, PriestStep::MindBlast);
    assert(v@ =~= spec_priest_steps(scream_dip, team_healthy));
    Some(v)
}

/// The urgent dispel outranks the dip, and an arrived dip outranks
/// everything below it, the defensive scream first; the maintenance dispel
/// is only tried while the team is healthy.
pub proof fn lemma_priest_order(scream_dip: ScreamDipPlan, team_healthy: bool, k: int)
    ensures
        ({
            let p = spec_priest_steps(scream_dip, team_healthy);
            &&& p.len() >= 6
            &&& p[0] == PriestStep::Fortitude && p[1] == PriestStep::UrgentDispel
            &&& scream_dip matches ScreamDipPlan::DipCast { target } ==> p[2]
                == PriestStep::DipPsychicScream { target } && p[3] == PriestStep::PsychicScream
            &&& !(scream_dip is DipCast) ==> p[2] == PriestStep::PsychicScream
            &&& (0 <= k < p.len() && p[k] == PriestStep::MaintenanceDispel) ==> team_healthy
        }),
{
    let p = spec_priest_steps(scream_dip, team_healthy);
    let head = seq![PriestStep::Fortitude, PriestStep::UrgentDispel] + match scream_dip {
        ScreamDipPlan::DipCast { target } => seq![PriestStep::DipPsychicScream { target }],
        _ => Seq::empty(),
    } + seq![PriestStep::PsychicScream, PriestStep::PowerWordShield, PriestStep::FlashHeal];
    if !team_healthy && 0 <= k < p.len() {
        assert(p =~= head + seq![PriestStep::MindBlast]);
        if k < head.len() {
            assert(p[k] == head[k]);
        }
    }
}

// ---------------------------------------------------------------------------
// Mage and Shaman
// ---------------------------------------------------------------------------

/// One rung of the Mage's ladder.
#[derive(Clone, Copy, Debug, PartialEq, Eq, Structural)]
pub enum MageStep {
    IceBarrier,
    MageArmor,
    ArcaneIntellect,
    FrostNova,
    Polymorph,
    Frostbolt,
}

pub open spec fn spec_mage_plan(ctx: CombatContext, on_gcd: bool) -> Option<Seq<MageStep>> {
    if on_gcd || ctx.spec_info(ctx.self_entity) is None {
        None
    } else {
        Some(
            seq![
                MageStep::IceBarrier,
                MageStep::MageArmor,
                MageStep::ArcaneIntellect,
                MageStep::FrostNova,
                MageStep::Polymorph,
                MageStep::Frostbolt,
            ],
        )
    }
}

/// The Mage's ladder: self-shield and buffs first, then the defensive Frost
/// Nova, Polymorph on the CC target, and Frostbolt.
pub fn mage_plan(ctx: &CombatContext, on_gcd: bool) -> (r: Option<Vec<MageStep>>)
    ensures
        r matches Some(v) ==> spec_mage_plan(*ctx, on_gcd) == Some(v@),
        r is None ==> spec_mage_plan(*ctx, on_gcd) is None,
{
    if on_gcd || ctx.self_info().is_none() {
        return None;
    }
    let v = vec![
        MageStep::IceBarrier,
        MageStep::MageArmor,
        MageStep::ArcaneIntellect,
        MageStep::FrostNova,
        MageStep::Polymorph,
        MageStep::Frostbolt,
    ];
    assert(v@ =~= spec_mage_plan(*ctx, on_gcd)->0);
    Some(v)
}

/// One rung of the Shaman's ladder.
#[derive(Clone, Copy, Debug, PartialEq, Eq, Structural)]
pub enum ShamanStep {
    /// Lesser Healing Wave on an ally below the emergency threshold.
    EmergencyHealingWave,
    FrostShock,
    /// Drop or refresh an element totem.
    MaintainTotems,
    LightningBolt,
    /// Lesser Healing Wave on an injured ally below the sustain threshold.
    SustainHealingWave,
    Purge,
}

pub open spec fn spec_shaman_plan(ctx: CombatContext, on_gcd: bool) -> Option<Seq<ShamanStep>> {
    if on_gcd || ctx.spec_info(ctx.self_entity) is None {
        None
    } else {
        Some(
            seq![
                ShamanStep::EmergencyHealingWave,
                ShamanStep::FrostShock,
                ShamanStep::MaintainTotems,
                ShamanStep::LightningBolt,
                ShamanStep::SustainHealingWave,
                ShamanStep::Purge,
            ],
        )
    }
}

/// The Shaman's ladder: a dying ally is healed before anything else — totem
/// maintenance included — then Frost Shock, totems, Lightning Bolt, the
/// sustain heal and Purge.
pub fn shaman_plan(ctx: &CombatContext, on_gcd: bool) -> (r: Option<Vec<ShamanStep>>)
    ensures
        r matches Some(v) ==> spec_shaman_plan(*ctx, on_gcd) == Some(v@),
        r is None ==> spec_shaman_plan(*ctx, on_gcd) is None,
{
    if on_gcd || ctx.self_info().is_none() {
        return None;
    }
    let v = vec![
        ShamanStep::EmergencyHealingWave,
        ShamanStep::FrostShock,
        ShamanStep::MaintainTotems,
        ShamanStep::LightningBolt,
        ShamanStep::SustainHealingWave,
        ShamanStep::Purge,
    ];
    assert(v@ =~= spec_shaman_plan(*ctx, on_gcd)->0);
    Some(v)
}

/// A Frost Shock peel: a living melee or pet enemy of `my_team`, not
/// damage-immune, attacking the Shaman or one of the allies in trouble
/// (`low_allies`).
pub open spec fn peel_pred(ctx: CombatContext, me: u64, my_team: u8, low_allies: Seq<u64>) -> spec_fn(u64) -> bool {
    |e: u64|
        ctx.spec_info(e) matches Some(i) && i.team != my_team && i.is_alive && (i.is_pet
            || i.class.spec_is_melee()) && !ctx.spec_entity_has_aura(e, AuraType::DamageImmunity) && (
        i.target == Some(me) || (i.target matches Some(t) && low_allies.contains(t)))
}

pub open spec fn spec_frost_shock_target(
    ctx: CombatContext,
    me: u64,
    my_team: u8,
    kill_target: Option<u64>,
    in_range: Seq<u64>,
    low_allies: Seq<u64>,
) -> Option<u64> {
    match first_where(in_range, peel_pred(ctx, me, my_team, low_allies)) {
        Some(e) => Some(e),
        None => match kill_target {
            Some(t) => if spec_alive(ctx, t) && in_range.contains(t) && !ctx.spec_entity_has_aura(
                t,
                AuraType::DamageImmunity,
            ) {
                Some(t)
            } else {
                None
            },
            None => None,
        },
    }
}

/// Frost Shock's target: the nearest peel among the units in range
/// (`in_range`, nearest first, ties in entity order), else the kill target
/// when it is alive, in range and not immune.
pub fn frost_shock_target(
    ctx: &CombatContext,
    me: u64,
    my_team: u8,
    kill_target: Option<u64>,
    in_range: &Vec<u64>,
    low_allies: &Vec<u64>,
) -> (r: Option<u64>)
    ensures
        r == spec_frost_shock_target(*ctx, me, my_team, kill_target, in_range@, low_allies@),
{
    let ghost p = peel_pred(*ctx, me, my_team, low_allies@);
    let mut k: usize = 0;
    while k < in_range.len()
        invariant
            p == peel_pred(*ctx, me, my_team, low_allies@),
            0 <= k <= in_range@.len(),
            forall|j: int| 0 <= j < k ==> !p(#[trigger] in_range@[j]),
        decreases in_range.len() - k,
    {
        let e = in_range[k];
        let peel = match ctx.info(e) {
            Some(i) => i.team != my_team && i.is_alive && (i.is_pet || i.class.is_melee()) && !ctx.entity_is_immune(e)
                && (i.target == Some(me) || match i.target {
                Some(t) => contains_id(low_allies, t),
                None => false,
            }),
            None => false,
        };
        if peel {
            proof {
                lemma_first_where(in_range@, p, k as int);
            }
            return Some(e);
        }
        k = k + 1;
    }
    proof {
        lemma_first_where(in_range@, p, k as int);
    }
    match kill_target {
        Some(t) => {
            if alive_in(ctx, t) && contains_id(in_range, t) && !ctx.entity_is_immune(t) {
                Some(t)
            } else {
                None
            }
        },
        None => None,
    }
}

/// The Shaman's four totem elements, in upkeep order.
#[derive(Clone, Copy, Debug, PartialEq, Eq, Structural)]
pub enum TotemElement {
    Air,
    Water,
    Earth,
    Fire,
}

/// The state of one element's totem.
#[derive(Clone, Copy, Debug, PartialEq, Eq, Structural)]
pub enum TotemState {
    /// Up with time to spare: left alone.
    Healthy,
    /// Up but about to expire: refreshed only above the mana floor.
    Expiring,
    /// Not up: always dropped.
    Absent,
}

pub open spec fn totem_due(s: TotemState, above_mana_floor: bool) -> bool {
    s == TotemState::Absent || (s == TotemState::Expiring && above_mana_floor)
}

pub open spec fn spec_totem_attempts(
    air: TotemState,
    water: TotemState,
    earth: TotemState,
    fire: TotemState,
    above_mana_floor: bool,
) -> Seq<TotemElement> {
    step_if(totem_due(air, above_mana_floor), TotemElement::Air) + step_if(
        totem_due(water, above_mana_floor),
        TotemElement::Water,
    ) + step_if(totem_due(earth, above_mana_floor), TotemElement::Earth) + step_if(
        totem_due(fire, above_mana_floor),
        TotemElement::Fire,
    )
}

/// The totems the Shaman's upkeep rung tries, in order (the first that
/// lands takes the global cooldown): every absent totem, and every expiring
/// one while mana is above the refresh floor — so upkeep never starves the
/// Shaman's offense. Healthy totems are left alone.
pub fn totem_attempts(
    air: TotemState,
    water: TotemState,
    earth: TotemState,
    fire: TotemState,
    above_mana_floor: bool,
) -> (r: Vec<TotemElement>)
    ensures
        r@ == spec_totem_attempts(air, water, earth, fire, above_mana_floor),
{
    let mut v: Vec<TotemElement> = Vec::new();
    push_if(
        &mut v,
        matches!(air, TotemState::Absent) || (matches!(air, TotemState::Expiring) && above_mana_floor),
        TotemElement::Air,
    );
    push_if(
        &mut v,
        matches!(water, TotemState::Absent) || (matches!(water, TotemState::Expiring) && above_mana_floor),
        TotemElement::Water,
    );
    push_if(
        &mut v,
        matches!(earth, TotemState::Absent) || (matches!(earth, TotemState::Expiring) && above_mana_floor),
        TotemElement::Earth,
    );
    push_if(
        &mut v,
        matches!(fire, TotemState::Absent) || (matches!(fire, TotemState::Expiring) && above_mana_floor),
        TotemElement::Fire,
    );
    assert(v@ =~= spec_totem_attempts(air, water, earth, fire, above_mana_floor));
    v
}

/// Upkeep never recasts a healthy totem, always tries an absent one, and
/// refreshes an expiring one only above the mana floor.
pub proof fn lemma_totem_upkeep(
    air: TotemState,
    water: TotemState,
    earth: TotemState,
    fire: TotemState,
    above_mana_floor: bool,
)
    ensures
        ({
            let a = spec_totem_attempts(air, water, earth, fire, above_mana_floor);
            &&& a.contains(TotemElement::Air) <==> totem_due(air, above_mana_floor)
            &&& a.contains(TotemElement::Water) <==> totem_due(water, above_mana_floor)
            &&& a.contains(TotemElement::Earth) <==> totem_due(earth, above_mana_floor)
            &&& a.contains(TotemElement::Fire) <==> totem_due(fire, above_mana_floor)
        }),
{
    let a = spec_totem_attempts(air, water, earth, fire, above_mana_floor);
    let sa = step_if(totem_due(air, above_mana_floor), TotemElement::Air);
    let sw = step_if(totem_due(water, above_mana_floor), TotemElement::Water);
    let se = step_if(totem_due(earth, above_mana_floor), TotemElement::Earth);
    let sf = step_if(totem_due(fire, above_mana_floor), TotemElement::Fire);
    assert(a == sa + sw + se + sf);
    lemma_contains_concat(sa + sw + se, sf);
    lemma_contains_concat(sa + sw, se);
    lemma_contains_concat(sa, sw);
    lemma_step_contains(totem_due(air, above_mana_floor), TotemElement::Air);
    lemma_step_contains(totem_due(water, above_mana_floor), TotemElement::Water);
    lemma_step_contains(totem_due(earth, above_mana_floor), TotemElement::Earth);
    lemma_step_contains(totem_due(fire, above_mana_floor), TotemElement::Fire);
    assert((sa + sw).contains(TotemElement::Air) == (sa.contains(TotemElement::Air) || sw.contains(
        TotemElement::Air,
    )));
    assert((sa + sw + se).contains(TotemElement::Air) == ((sa + sw).contains(TotemElement::Air)
        || se.contains(TotemElement::Air)));
    assert(a.contains(TotemElement::Air) == ((sa + sw + se).contains(TotemElement::Air) || sf.contains(
        TotemElement::Air,
    )));
    assert((sa + sw).contains(TotemElement::Water) == (sa.contains(TotemElement::Water) || sw.contains(
        TotemElement::Water,
    )));
    assert((sa + sw + se).contains(TotemElement::Water) == ((sa + sw).contains(TotemElement::Water)
        || se.contains(TotemElement::Water)));
    assert(a.contains(TotemElement::Water) == ((sa + sw + se).contains(TotemElement::Water) || sf.contains(
        TotemElement::Water,
    )));
    assert((sa + sw).contains(TotemElement::Earth) == (sa.contains(TotemElement::Earth) || sw.contains(
        TotemElement::Earth,
    )));
    assert((sa + sw + se).contains(TotemElement::Earth) == ((sa + sw).contains(TotemElement::Earth)
        || se.contains(TotemElement::Earth)));
    assert(a.contains(TotemElement::Earth) == ((sa + sw + se).contains(TotemElement::Earth) || sf.contains(
        TotemElement::Earth,
    )));
    assert((sa + sw).contains(TotemElement::Fire) == (sa.contains(TotemElement::Fire) || sw.contains(
        TotemElement::Fire,
    )));
    assert((sa + sw + se).contains(TotemElement::Fire) == ((sa + sw).contains(TotemElement::Fire)
        || se.contains(TotemElement::Fire)));
    assert(a.contains(TotemElement::Fire) == ((sa + sw + se).contains(TotemElement::Fire) || sf.contains(
        TotemElement::Fire,
    )));
}

/// `step_if(c, x)` holds exactly `x`, and only when `c`.
proof fn lemma_step_contains<T>(c: bool, x: T)
    ensures
        forall|y: T| step_if(c, x).contains(y) <==> (c && y == x),
{
    if c {
        assert(step_if(c, x)[0] == x);
    }
}

proof fn lemma_contains_concat<T>(a: Seq<T>, b: Seq<T>)
    ensures
        forall|x: T| (a + b).contains(x) <==> (a.contains(x) || b.contains(x)),
{
    assert forall|x: T| (a + b).contains(x) implies (a.contains(x) || b.contains(x)) by {
        let k = choose|k: int| 0 <= k < (a + b).len() && (a + b)[k] == x;
        if k < a.len() {
            assert(a[k] == x);
        } else {
            assert(b[k - a.len()] == x);
        }
    }
    assert forall|x: T| (a.contains(x) || b.contains(x)) implies (a + b).contains(x) by {
        if a.contains(x) {
            let k = choose|k: int| 0 <= k < a.len() && a[k] == x;
            assert((a + b)[k] == x);
        } else {
            let k = choose|k: int| 0 <= k < b.len() && b[k] == x;
            assert((a + b)[a.len() + k] == x);
        }
    }
}

// ---------------------------------------------------------------------------
// Rogue
// ---------------------------------------------------------------------------

/// The opener a stealthed Rogue leads with.
#[derive(Clone, Copy, Debug, PartialEq, Eq, Structural)]
pub enum RogueOpener {
    Ambush,
    CheapShot,
}

/// One rung of the Rogue's ladder.
#[derive(Clone, Copy, Debug, PartialEq, Eq, Structural)]
pub enum RogueStep {
    Ambush,
    CheapShot,
    /// Kidney Shot on `target`; when energy alone stops it, the tick ends
    /// pooling rather than spending energy on Sinister Strike.
    KidneyShot { target: u64 },
    /// Spend nothing: pool energy for the coming Kidney Shot.
    PoolEnergy,
    SinisterStrike,
}

/// What the Rogue measured this tick, reduced to the ladder's gates.
#[derive(Clone, Copy, Debug, PartialEq, Eq, Structural)]
pub struct RogueFacts {
    /// The global cooldown is running (the stealth opener ignores it).
    pub on_gcd: bool,
    pub stealthed: bool,
    pub opener: RogueOpener,
    /// The Kidney Shot target is immune to it by diminishing returns.
    pub kidney_dr_immune: bool,
}

pub open spec fn spec_rogue_kidney_steps(ctx: CombatContext, kidney: KidneyPlan, f: RogueFacts) -> Seq<RogueStep> {
    match kidney {
        KidneyPlan::Pool(_) => seq![RogueStep::PoolEnergy],
        KidneyPlan::Fire { target, stacking } => if (ctx.spec_entity_has_aura(target, AuraType::Stun)
            && !stacking) || f.kidney_dr_immune {
            seq![RogueStep::SinisterStrike]
        } else {
            seq![RogueStep::KidneyShot { target }, RogueStep::SinisterStrike]
        },
        _ => seq![RogueStep::SinisterStrike],
    }
}

/// The Rogue's ladder this tick, given the Kidney Shot plan.
pub open spec fn spec_rogue_plan(
    ctx: CombatContext,
    target: Option<u64>,
    kidney: KidneyPlan,
    f: RogueFacts,
) -> Option<Seq<RogueStep>> {
    match target {
        None => None,
        Some(t) => if ctx.spec_info(t) is None || ctx.spec_info(ctx.self_entity) is None {
            None
        } else if ctx.spec_entity_has_aura(t, AuraType::DamageImmunity) {
            Some(Seq::empty())
        } else if f.stealthed {
            Some(
                match f.opener {
                    RogueOpener::Ambush => seq![RogueStep::Ambush],
                    RogueOpener::CheapShot => seq![RogueStep::CheapShot],
                },
            )
        } else if f.on_gcd {
            None
        } else {
            Some(spec_rogue_kidney_steps(ctx, kidney, f))
        },
    }
}

/// The Rogue's ladder: from stealth only the chosen opener, global cooldown
/// or not; otherwise the Kidney Shot plan — pool energy, or Kidney Shot
/// (not onto an existing stun unless extending the opener, not into
/// diminishing-returns immunity) ahead of Sinister Strike.
pub fn rogue_plan(
    ctx: &CombatContext,
    target: Option<u64>,
    kidney: KidneyPlan,
    f: &RogueFacts,
) -> (r: Option<Vec<RogueStep>>)
    ensures
        r matches Some(v) ==> spec_rogue_plan(*ctx, target, kidney, *f) == Some(v@),
        r is None ==> spec_rogue_plan(*ctx, target, kidney, *f) is None,
{
    let t = match target {
        Some(t) => t,
        None => {
            return None;
        },
    };
    if ctx.info(t).is_none() || ctx.self_info().is_none() {
        return None;
    }
    if ctx.entity_is_immune(t) {
        return Some(Vec::new());
    }
    if f.stealthed {
        let step = match f.opener {
            RogueOpener::Ambush => RogueStep::Ambush,
            RogueOpener::CheapShot => RogueStep::CheapShot,
        };
        let v = vec![step];
        assert(v@ =~= spec_rogue_plan(*ctx, target, kidney, *f)->0);
        return Some(v);
    }
    if f.on_gcd {
        return None;
    }
    let v = match kidney {
        KidneyPlan::Pool(_) => vec![RogueStep::PoolEnergy],
        KidneyPlan::Fire { target: k, stacking } => {
            if (ctx.entity_has_aura(k, AuraType::Stun) && !stacking) || f.kidney_dr_immune {
                vec![RogueStep::SinisterStrike]
            } else {
                vec![RogueStep::KidneyShot { target: k }, RogueStep::SinisterStrike]
            }
        },
        _ => vec![RogueStep::SinisterStrike],
    };
    assert(v@ =~= spec_rogue_kidney_steps(*ctx, kidney, *f));
    Some(v)
}

/// From stealth the opener is the only attempt; a pooling tick spends
/// nothing; Kidney Shot goes out only as the plan fires it, onto a target
/// not already stunned (the opener-extend aside) and not immune by
/// diminishing returns.
pub proof fn lemma_rogue_gates(
    ctx: CombatContext,
    target: Option<u64>,
    kidney: KidneyPlan,
    f: RogueFacts,
    k: int,
)
    requires
        spec_rogue_plan(ctx, target, kidney, f) matches Some(p) && 0 <= k < p.len(),
    ensures
        ({
            let p = spec_rogue_plan(ctx, target, kidney, f)->0;
            &&& f.stealthed ==> p.len() == 1 && (p[0] == RogueStep::Ambush || p[0]
                == RogueStep::CheapShot)
            &&& kidney is Pool && !f.stealthed ==> p == seq![RogueStep::PoolEnergy]
            &&& p[k] matches RogueStep::KidneyShot { target: kt } ==> kidney matches KidneyPlan::Fire {
                target: ft,
                stacking,
            } && ft == kt && (stacking || !ctx.spec_entity_has_aura(kt, AuraType::Stun))
                && !f.kidney_dr_immune
        }),
{
}

// ---------------------------------------------------------------------------
// Laws of the ladders' shapes
// ---------------------------------------------------------------------------

/// The Warlock's ladder around its curses: the DoT openers (two when the kill
/// target is not immune, none otherwise) precede the curses; on a target it
/// may cast at, Immolate comes right after the curses, and Drain Life then
/// Shadow Bolt end the plan; Fear on an eligible unit sits between Immolate
/// and Drain Life, and is absent on an ineligible one.
pub proof fn lemma_warlock_shape(ctx: CombatContext, target: Option<u64>, cc_target: Option<u64>, f: WarlockFacts)
    requires
        spec_warlock_plan(ctx, target, cc_target, f) is Some,
    ensures
        ({
            let p = spec_warlock_plan(ctx, target, cc_target, f)->0;
            let n = p.len() as int;
            let t = target->0;
            let immune = ctx.spec_entity_has_aura(t, AuraType::DamageImmunity);
            let cast_ok = !immune && !f.being_kited;
            let ft = match cc_target {
                Some(c) => c,
                None => t,
            };
            let fear_ok = !ctx.spec_entity_has_aura(ft, AuraType::DamageImmunity) && !f.fear_target_dr_immune
                && ctx.spec_info(ft) is Some;
            &&& !immune ==> p[2] == WarlockStep::SpreadCurses
            &&& immune ==> p[0] == WarlockStep::SpreadCurses
            &&& cast_ok ==> p[3] == WarlockStep::Immolate && p[n - 2] == WarlockStep::DrainLife && p[n - 1]
                == WarlockStep::ShadowBolt
            &&& (cast_ok && fear_ok) ==> p[4] == WarlockStep::Fear { target: ft } && n == 7
            &&& (!cast_ok && fear_ok) ==> p[n - 1] == WarlockStep::Fear { target: ft }
            &&& !fear_ok ==> !p.contains(WarlockStep::Fear { target: ft })
            &&& !cast_ok ==> !p.contains(WarlockStep::ShadowBolt) && !p.contains(WarlockStep::DrainLife)
        }),
{
    let t = target->0;
    let p = spec_warlock_steps(ctx, t, cc_target, f);
    let immune = ctx.spec_entity_has_aura(t, AuraType::DamageImmunity);
    let ua_first = spec_enemy_has_dispeller(ctx) && !immune;
    let cast_ok = !immune && !f.being_kited;
    let ft = match cc_target {
        Some(c) => c,
        None => t,
    };
    let fear_ok = !ctx.spec_entity_has_aura(ft, AuraType::DamageImmunity) && !f.fear_target_dr_immune
        && ctx.spec_info(ft) is Some;
    let a = step_if(ua_first, WarlockStep::UnstableAffliction);
    let b = step_if(!immune, WarlockStep::Corruption);
    let c = step_if(!immune && !ua_first, WarlockStep::UnstableAffliction);
    let im = step_if(cast_ok, WarlockStep::Immolate);
    let fe = step_if(fear_ok, WarlockStep::Fear { target: ft });
    let dl = step_if(cast_ok, WarlockStep::DrainLife);
    let sb = step_if(cast_ok, WarlockStep::ShadowBolt);
    assert(p == a + b + c + seq![WarlockStep::SpreadCurses] + im + fe + dl + sb);
    lemma_step_contains(ua_first, WarlockStep::UnstableAffliction);
    lemma_step_contains(!immune, WarlockStep::Corruption);
    lemma_step_contains(!immune && !ua_first, WarlockStep::UnstableAffliction);
    lemma_step_contains(cast_ok, WarlockStep::Immolate);
    lemma_step_contains(fear_ok, WarlockStep::Fear { target: ft });
    lemma_step_contains(cast_ok, WarlockStep::DrainLife);
    lemma_step_contains(cast_ok, WarlockStep::ShadowBolt);
    lemma_contains_concat(a, b);
    lemma_contains_concat(a + b, c);
    lemma_contains_concat(a + b + c, seq![WarlockStep::SpreadCurses]);
    lemma_contains_concat(a + b + c + seq![WarlockStep::SpreadCurses], im);
    lemma_contains_concat(a + b + c + seq![WarlockStep::SpreadCurses] + im, fe);
    lemma_contains_concat(a + b + c + seq![WarlockStep::SpreadCurses] + im + fe, dl);
    lemma_contains_concat(a + b + c + seq![WarlockStep::SpreadCurses] + im + fe + dl, sb);
    lemma_step_contains(true, WarlockStep::SpreadCurses);
    assert(seq![WarlockStep::SpreadCurses] == step_if(true, WarlockStep::SpreadCurses));
}

/// The Priest ends every ladder with Mind Blast, right after the
/// maintenance dispel on a healthy team and right after Flash Heal
/// otherwise; Power Word: Shield comes right before Flash Heal.
pub proof fn lemma_priest_tail(scream_dip: ScreamDipPlan, team_healthy: bool)
    ensures
        ({
            let p = spec_priest_steps(scream_dip, team_healthy);
            let n = p.len() as int;
            &&& p[n - 1] == PriestStep::MindBlast
            &&& team_healthy ==> p[n - 2] == PriestStep::MaintenanceDispel && p[n - 3]
                == PriestStep::FlashHeal && p[n - 4] == PriestStep::PowerWordShield
            &&& !team_healthy ==> p[n - 2] == PriestStep::FlashHeal && p[n - 3]
                == PriestStep::PowerWordShield
        }),
{
}

/// The Mage shields and buffs itself before anything else, peels with Frost
/// Nova before it sheeps, and ends on Frostbolt; the Shaman heals a dying
/// ally first, peels with Frost Shock before totem upkeep, nukes before its
/// sustain heal, and ends on Purge. Neither decides on the global cooldown
/// or without itself in the snapshot.
pub proof fn lemma_mage_shaman_ladders(ctx: CombatContext, on_gcd: bool)
    ensures
        (on_gcd || ctx.spec_info(ctx.self_entity) is None) ==> spec_mage_plan(ctx, on_gcd) is None
            && spec_shaman_plan(ctx, on_gcd) is None,
        spec_mage_plan(ctx, on_gcd) matches Some(p) ==> p.len() == 6 && p[0] == MageStep::IceBarrier && p[1]
            == MageStep::MageArmor && p[2] == MageStep::ArcaneIntellect && p[3] == MageStep::FrostNova && p[4]
            == MageStep::Polymorph && p[5] == MageStep::Frostbolt,
        spec_shaman_plan(ctx, on_gcd) matches Some(p) ==> p.len() == 6 && p[0]
            == ShamanStep::EmergencyHealingWave && p[1] == ShamanStep::FrostShock && p[2]
            == ShamanStep::MaintainTotems && p[3] == ShamanStep::LightningBolt && p[4]
            == ShamanStep::SustainHealingWave && p[5] == ShamanStep::Purge,
{
}

/// On the global cooldown, or with the deciding unit missing from the
/// snapshot, no class ladder decides — except the Rogue's stealth opener,
/// which ignores the global cooldown, and the Rogue's no-action decision on
/// an immune target, which comes before its cooldown check.
pub proof fn lemma_no_decision_on_gcd(
    ctx: CombatContext,
    target: Option<u64>,
    cc_target: Option<u64>,
    dip: HunterDipPlan,
    hf: HunterFacts,
    wf: WarlockFacts,
    hoj: HojPlan,
    scream_dip: ScreamDipPlan,
    kidney: KidneyPlan,
    rf: RogueFacts,
    emergency_target: bool,
    team_healthy: bool,
)
    ensures
        hf.on_gcd ==> spec_hunter_plan(ctx, target, dip, hf) is None,
        wf.on_gcd ==> spec_warlock_plan(ctx, target, cc_target, wf) is None,
        spec_paladin_plan(ctx, true, hoj, emergency_target, team_healthy) is None,
        spec_priest_plan(ctx, true, scream_dip, team_healthy) is None,
        (rf.on_gcd && !rf.stealthed && !ctx.spec_entity_has_aura(target->0, AuraType::DamageImmunity))
            ==> spec_rogue_plan(ctx, target, kidney, rf) is None,
        target is None ==> spec_hunter_plan(ctx, target, dip, hf) is None && spec_warlock_plan(
            ctx,
            target,
            cc_target,
            wf,
        ) is None && spec_rogue_plan(ctx, target, kidney, rf) is None,
        ctx.spec_info(ctx.self_entity) is None ==> spec_paladin_plan(ctx, false, hoj, emergency_target, team_healthy)
            is None && spec_priest_plan(ctx, false, scream_dip, team_healthy) is None,
{
}

/// Outside stealth and off the global cooldown, a Rogue with no Kidney Shot
/// to fire (no target, or holding it) strikes; a pooling Rogue spends
/// nothing; a fired Kidney Shot that is not blocked comes right before
/// Sinister Strike.
pub proof fn lemma_rogue_shape(ctx: CombatContext, target: Option<u64>, kidney: KidneyPlan, f: RogueFacts)
    requires
        spec_rogue_plan(ctx, target, kidney, f) is Some,
        !f.stealthed,
        !ctx.spec_entity_has_aura(target->0, AuraType::DamageImmunity),
    ensures
        ({
            let p = spec_rogue_plan(ctx, target, kidney, f)->0;
            &&& (kidney is NoTarget || kidney is Hold) ==> p == seq![RogueStep::SinisterStrike]
            &&& kidney is Pool ==> p == seq![RogueStep::PoolEnergy]
            &&& kidney matches KidneyPlan::Fire { target: k, stacking } ==> ((stacking
                || !ctx.spec_entity_has_aura(k, AuraType::Stun)) && !f.kidney_dr_immune ==> p == seq![
                RogueStep::KidneyShot { target: k },
                RogueStep::SinisterStrike,
            ])
            &&& p[p.len() - 1] == RogueStep::SinisterStrike || p == seq![RogueStep::PoolEnergy]
        }),
{
}

/// The HoJ reservation never touches a dip's cast, and releases the
/// rotation stun whenever no living enemy healer exists or the Paladin is
/// pressured or escaping.
pub proof fn lemma_settle_hoj(ctx: CombatContext, posture: Posture, current: HojPlan)
    ensures
        current is DipCast ==> spec_settle_hoj_plan(ctx, posture, current) == current,
        (!(current is DipCast) && (ctx.spec_enemy_healer() is None || posture == Posture::Pressured || posture
            == Posture::Escape)) ==> spec_settle_hoj_plan(ctx, posture, current) == HojPlan::Rotation,
        !(current is DipCast) ==> !(spec_settle_hoj_plan(ctx, posture, current) is DipCast),
{
}

/// At safe range Serpent Sting is always tried, right after Concussive Shot
/// when there is a target for it, and right before the Freezing Trap rung
/// when that rung is open.
pub proof fn lemma_hunter_safe_shape(ctx: CombatContext, target: Option<u64>, dip: HunterDipPlan, f: HunterFacts)
    requires
        spec_hunter_plan(ctx, target, dip, f) matches Some(p) && p.len() > 0,
        f.band == RangeBand::Safe,
    ensures
        ({
            let p = spec_hunter_plan(ctx, target, dip, f)->0;
            exists|k: int|
                0 <= k < p.len() && #[trigger] p[k] == HunterStep::SerpentSting && (f.concussive_target matches Some(c)
                    ==> k >= 1 && p[k - 1] == HunterStep::ConcussiveShot { target: c }) && (spec_freezing_step(
                    ctx,
                    target->0,
                    f,
                ).len() > 0 ==> k + 1 < p.len() && is_freezing_trap(p[k + 1]))
        }),
{
    let p = spec_hunter_plan(ctx, target, dip, f)->0;
    let t = target->0;
    let d = spec_hunter_dip_step(ctx, dip);
    let a = step_if(spec_burst_window(ctx, t) && f.target_far, HunterStep::AimedShot);
    let c = spec_concussive_step(f);
    let fr = spec_freezing_step(ctx, t, f);
    let tail = step_if(f.target_far, HunterStep::AimedShot) + seq![HunterStep::ArcaneShot];
    let pre = d + a + c;
    assert(p =~= pre + seq![HunterStep::SerpentSting] + fr + tail);
    let k = pre.len() as int;
    assert(p[k] == HunterStep::SerpentSting);
    if c.len() > 0 {
        assert(p[k - 1] == c[0]);
    }
    if fr.len() > 0 {
        assert(p[k + 1] == fr[0]);
        assert(is_freezing_trap(fr[0]));
    }
}

/// Frost Shock peels before it punishes: whenever some unit in range is a
/// peel, the target is a peel (a living melee or pet enemy, not immune,
/// attacking the Shaman or an ally in trouble); otherwise it is the kill
/// target if that is alive, in range and not immune, and nothing else.
pub proof fn lemma_frost_shock_peels_first(
    ctx: CombatContext,
    me: u64,
    my_team: u8,
    kill_target: Option<u64>,
    in_range: Seq<u64>,
    low_allies: Seq<u64>,
    k: int,
)
    ensures
        ({
            let r = spec_frost_shock_target(ctx, me, my_team, kill_target, in_range, low_allies);
            let peel = peel_pred(ctx, me, my_team, low_allies);
            &&& (0 <= k < in_range.len() && peel(in_range[k])) ==> (r matches Some(e) && peel(e)
                && in_range.contains(e))
            &&& r matches Some(e) ==> (in_range.contains(e) && !ctx.spec_entity_has_aura(
                e,
                AuraType::DamageImmunity,
            ) && (peel(e) || kill_target == Some(e)))
            &&& (forall|j: int| 0 <= j < in_range.len() ==> !peel(#[trigger] in_range[j])) ==> r == (match kill_target {
                Some(t) => if spec_alive(ctx, t) && in_range.contains(t) && !ctx.spec_entity_has_aura(
                    t,
                    AuraType::DamageImmunity,
                ) {
                    Some(t)
                } else {
                    None
                },
                None => None,
            })
        }),
{
    let peel = peel_pred(ctx, me, my_team, low_allies);
    crate::context::lemma_first_where_satisfies(in_range, peel);
    if 0 <= k < in_range.len() && peel(in_range[k]) {
        lemma_first_where_some(in_range, peel, k);
    }
    if forall|j: int| 0 <= j < in_range.len() ==> !peel(#[trigger] in_range[j]) {
        lemma_first_where(in_range, peel, in_range.len() as int);
    }
}

proof fn lemma_first_where_some<A>(s: Seq<A>, p: spec_fn(A) -> bool, k: int)
    requires
        0 <= k < s.len(),
        p(s[k]),
    ensures
        first_where(s, p) is Some,
    decreases s.len(),
{
    if !p(s[0]) {
        assert(s.drop_first()[k - 1] == s[k]);
        lemma_first_where_some(s.drop_first(), p, k - 1);
    }
}

} // verus!
