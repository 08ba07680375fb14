//! The shared pre-cast guard: the opening checks almost every ability
//! decision repeats, in one place and in a fixed order.
use vstd::prelude::*;
use crate::context::CombatContext;
use crate::aura::AuraType;

verus! {

/// Opt-in guards layered on top of the universal pre-cast checks.
#[derive(Clone, Copy, Debug, PartialEq, Eq, Structural)]
pub struct PreCastOpts {
    /// Skip the cast if the target carries a break-on-any-damage crowd
    /// control from our team (so the AI never breaks its own team's CC).
    pub check_friendly_cc: bool,
    /// Skip the cast if the target carries a damage-over-time effect from our
    /// team (so a Polymorph is not broken by our own DoT's next tick).
    pub check_friendly_dots: bool,
    /// Skip the cast if the target is damage-immune (Divine Shield).
    pub check_target_immune: bool,
    /// Allow the cast even while silenced (Divine Shield).
    pub bypass_silence: bool,
}

impl Default for PreCastOpts {
    fn default() -> (r: Self)
        ensures
            !r.check_friendly_cc && !r.check_friendly_dots && !r.check_target_immune
                && !r.bypass_silence,
    {
        PreCastOpts {
            check_friendly_cc: false,
            check_friendly_dots: false,
            check_target_immune: false,
            bypass_silence: false,
        }
    }
}

/// The caster-side facts the universal checks read, as the caller measured
/// them this tick.
#[derive(Clone, Copy, Debug, PartialEq, Eq, Structural)]
pub struct CasterGates {
    /// The ability's spell school is locked out on the caster.
    pub school_locked: bool,
    /// The ability costs mana.
    pub costs_mana: bool,
    /// The caster is silenced (for its resource type).
    pub silenced: bool,
    /// The ability is on cooldown for the caster.
    pub on_cooldown: bool,
    /// The final resource check passes: mana, range, minimum range and
    /// stealth for a targeted cast; mana alone for a self-targeted one.
    pub resources_ok: bool,
}

/// The guard sequence as one formula: the opt-in target checks, then the
/// school lockout, silence (unless bypassed; only for mana-costing
/// abilities), cooldown, and the final resource check.
pub open spec fn spec_pre_cast_ok(
    ctx: CombatContext,
    opts: PreCastOpts,
    target: Option<u64>,
    g: CasterGates,
) -> bool {
    &&& target matches Some(t) ==> {
        &&& !(opts.check_friendly_cc && ctx.spec_has_friendly_breakable_cc(t))
        &&& !(opts.check_friendly_dots && ctx.spec_has_friendly_dots_on_target(t))
        &&& !(opts.check_target_immune && ctx.spec_entity_has_aura(t, AuraType::DamageImmunity))
    }
    &&& !g.school_locked
    &&& !(!opts.bypass_silence && g.costs_mana && g.silenced)
    &&& !g.on_cooldown
    &&& g.resources_ok
}

/// Run the standard pre-cast guard sequence. Returns `true` when every check
/// passes and the caller should proceed with the cast; `false` on the first
/// failed guard. `target` is the targeted entity, or `None` for a
/// self-targeted cast, which skips the target checks.
pub fn pre_cast_ok(ctx: &CombatContext, opts: PreCastOpts, target: Option<u64>, g: CasterGates) -> (r:
    bool)
    ensures
        r == spec_pre_cast_ok(*ctx, opts, target, g),
{
    if let Some(t) = target {
        if opts.check_friendly_cc && ctx.has_friendly_breakable_cc(t) {
            return false;
        }
        if opts.check_friendly_dots && ctx.has_friendly_dots_on_target(t) {
            return false;
        }
        if opts.check_target_immune && ctx.entity_is_immune(t) {
            return false;
        }
    }
    if g.school_locked {
        return false;
    }
    if !opts.bypass_silence && g.costs_mana && g.silenced {
        return false;
    }
    if g.on_cooldown {
        return false;
    }
    g.resources_ok
}

/// Bypassing silence only ever lets more casts through; a cast that is on
/// cooldown, locked out or short of resources never passes, whatever the
/// options; and a self-targeted cast ignores the target checks.
pub proof fn lemma_pre_cast_guard_monotone(
    ctx: CombatContext,
    opts: PreCastOpts,
    target: Option<u64>,
    g: CasterGates,
)
    ensures
        spec_pre_cast_ok(ctx, opts, target, g) ==> spec_pre_cast_ok(
            ctx,
            PreCastOpts { bypass_silence: true, ..opts },
            target,
            g,
        ),
        (g.on_cooldown || g.school_locked || !g.resources_ok) ==> !spec_pre_cast_ok(
            ctx,
            opts,
            target,
            g,
        ),
        spec_pre_cast_ok(ctx, opts, None, g) == spec_pre_cast_ok(
            ctx,
            PreCastOpts {
                check_friendly_cc: false,
                check_friendly_dots: false,
                check_target_immune: false,
                ..opts
            },
            None,
            g,
        ),
{
}

} // verus!
