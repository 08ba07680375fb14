//! The per-tick pet decision: whether a pet acts at all, whom it targets, and
//! whether a command its owner dispatched may execute.
use vstd::prelude::*;
use crate::context::CombatContext;
use crate::roster::PetType;

verus! {

/// The pet abilities the pet AI dispatches.
#[derive(Clone, Copy, Debug, PartialEq, Eq, Structural)]
pub enum PetAbility {
    SpellLock,
    DevourMagic,
    SpiderWeb,
    BoarCharge,
    MastersCall,
}

pub open spec fn spec_headline_ability_for(pt: PetType) -> PetAbility {
    match pt {
        PetType::Felhunter => PetAbility::SpellLock,
        PetType::Spider => PetAbility::SpiderWeb,
        PetType::Boar => PetAbility::BoarCharge,
        PetType::Bird => PetAbility::MastersCall,
    }
}

/// A pet type's headline ability — the one a heeling pet's no-action is
/// attributed to.
pub fn headline_ability_for(pt: PetType) -> (r: PetAbility)
    ensures
        r == spec_headline_ability_for(pt),
{
    match pt {
        PetType::Felhunter => PetAbility::SpellLock,
        PetType::Spider => PetAbility::SpiderWeb,
        PetType::Boar => PetAbility::BoarCharge,
        PetType::Bird => PetAbility::MastersCall,
    }
}

/// What a pet does this tick.
#[derive(Clone, Copy, Debug, PartialEq, Eq, Structural)]
pub enum PetStep {
    /// Dead: nothing.
    Dead,
    /// Incapacitated: nothing; a queued command is dropped.
    Incapacitated,
    /// Below the heel threshold: target cleared, queued command dropped, the
    /// headline ability rejected as a low-health heel.
    Heel,
    /// Validate and run the command the owner dispatched.
    RunCommand,
    /// No command: run the pet type's own autonomous decision.
    Autonomous,
}

/// The pet's step this tick and the target it ends the tick with.
#[derive(Clone, Copy, Debug, PartialEq, Eq, Structural)]
pub struct PetTick {
    pub step: PetStep,
    pub target: Option<u64>,
    /// A queued command is removed this tick.
    pub drop_command: bool,
}

/// The pet's tick as a table: dead pets do nothing; incapacitated pets drop
/// any command; heeling pets clear their target and drop any command; every
/// other pet takes its owner's target and runs a queued command (which is
/// then removed) or its autonomous decision.
pub open spec fn spec_pet_tick(
    ctx: CombatContext,
    owner: u64,
    current_target: Option<u64>,
    alive: bool,
    incapacitated: bool,
    in_heel: bool,
    has_command: bool,
) -> PetTick {
    if !alive {
        PetTick { step: PetStep::Dead, target: current_target, drop_command: false }
    } else if incapacitated {
        PetTick { step: PetStep::Incapacitated, target: current_target, drop_command: has_command }
    } else if in_heel {
        PetTick { step: PetStep::Heel, target: None, drop_command: has_command }
    } else {
        let target = match ctx.spec_info(owner) {
            Some(o) => o.target,
            None => None,
        };
        if has_command {
            PetTick { step: PetStep::RunCommand, target, drop_command: true }
        } else {
            PetTick { step: PetStep::Autonomous, target, drop_command: false }
        }
    }
}

/// Decide a pet's tick. `in_heel` is the caller's health check (below a
/// quarter of maximum health); the pet's target follows its owner's.
pub fn pet_tick(
    ctx: &CombatContext,
    owner: u64,
    current_target: Option<u64>,
    alive: bool,
    incapacitated: bool,
    in_heel: bool,
    has_command: bool,
) -> (r: PetTick)
    ensures
        r == spec_pet_tick(*ctx, owner, current_target, alive, incapacitated, in_heel, has_command),
{
    if !alive {
        return PetTick { step: PetStep::Dead, target: current_target, drop_command: false };
    }
    if incapacitated {
        return PetTick { step: PetStep::Incapacitated, target: current_target, drop_command: has_command };
    }
    if in_heel {
        return PetTick { step: PetStep::Heel, target: None, drop_command: has_command };
    }
    let target = match ctx.info(owner) {
        Some(o) => o.target,
        None => None,
    };
    if has_command {
        PetTick { step: PetStep::RunCommand, target, drop_command: true }
    } else {
        PetTick { step: PetStep::Autonomous, target, drop_command: false }
    }
}

/// Why a pet ability is rejected, at dispatch or at execution time.
#[derive(Clone, Copy, Debug, PartialEq, Eq, Structural)]
pub enum PetRejection {
    /// The pet's global cooldown or the ability's own cooldown is running.
    OnCooldown,
    /// The target is gone or dead.
    NoValidTarget,
    /// Farther than the ability's range.
    OutOfRange,
    /// Closer than Boar Charge's minimum range.
    WithinDeadZone,
    /// Boar Charge's impact would break a friendly break-on-damage CC.
    FriendlyBreakableCC,
    /// The pet is below its heel threshold.
    LowHealthHeel,
    /// The target already carries the effect (a Root, for Spider Web).
    AlreadyApplied,
}

/// The range facts the caller measured between the pet and the target.
#[derive(Clone, Copy, Debug, PartialEq, Eq, Structural)]
pub struct PetRangeFacts {
    /// Farther than the ability's range.
    pub out_of_range: bool,
    /// Closer than Boar Charge's minimum range.
    pub within_dead_zone: bool,
}

pub open spec fn spec_pet_command_rejection(
    ctx: CombatContext,
    ability: PetAbility,
    gcd_active: bool,
    ability_on_cooldown: bool,
    target: u64,
    range: PetRangeFacts,
) -> Option<PetRejection> {
    if gcd_active || ability_on_cooldown {
        Some(PetRejection::OnCooldown)
    } else if !(ctx.spec_info(target) matches Some(t) && t.is_alive) {
        Some(PetRejection::NoValidTarget)
    } else if ability == PetAbility::SpiderWeb || ability == PetAbility::BoarCharge {
        if range.out_of_range {
            Some(PetRejection::OutOfRange)
        } else if ability == PetAbility::BoarCharge && range.within_dead_zone {
            Some(PetRejection::WithinDeadZone)
        } else if ability == PetAbility::BoarCharge && ctx.spec_has_friendly_breakable_cc(target) {
            Some(PetRejection::FriendlyBreakableCC)
        } else {
            None
        }
    } else {
        None
    }
}

/// Authoritative pre-execution checks for a dispatched pet command, in order:
/// cooldowns, a living target, then — for Spider Web and Boar Charge — range,
/// Boar Charge's dead zone, and Boar Charge's friendly-CC guard (Spider Web
/// deals no damage and cannot break a CC). `None` means the command may run.
pub fn pet_command_rejection(
    ctx: &CombatContext,
    ability: PetAbility,
    gcd_active: bool,
    ability_on_cooldown: bool,
    target: u64,
    range: PetRangeFacts,
) -> (r: Option<PetRejection>)
    ensures
        r == spec_pet_command_rejection(*ctx, ability, gcd_active, ability_on_cooldown, target, range),
{
    if gcd_active || ability_on_cooldown {
        return Some(PetRejection::OnCooldown);
    }
    match ctx.info(target) {
        Some(t) => {
            if !t.is_alive {
                return Some(PetRejection::NoValidTarget);
            }
        },
        None => {
            return Some(PetRejection::NoValidTarget);
        },
    }
    if matches!(ability, PetAbility::SpiderWeb | PetAbility::BoarCharge) {
        if range.out_of_range {
            return Some(PetRejection::OutOfRange);
        }
        if matches!(ability, PetAbility::BoarCharge) && range.within_dead_zone {
            return Some(PetRejection::WithinDeadZone);
        }
        if matches!(ability, PetAbility::BoarCharge) && ctx.has_friendly_breakable_cc(target) {
            return Some(PetRejection::FriendlyBreakableCC);
        }
    }
    None
}

/// A heeling or incapacitated pet never runs a command and never keeps one
/// queued; an acting pet always follows its owner's target.
pub proof fn lemma_pet_tick_laws(
    ctx: CombatContext,
    owner: u64,
    current_target: Option<u64>,
    alive: bool,
    incapacitated: bool,
    in_heel: bool,
    has_command: bool,
)
    ensures
        ({
            let t = spec_pet_tick(ctx, owner, current_target, alive, incapacitated, in_heel, has_command);
            &&& (alive && (incapacitated || in_heel) && has_command) ==> t.drop_command
            &&& t.step == PetStep::RunCommand ==> has_command && !incapacitated && !in_heel && alive
            &&& t.step == PetStep::Heel ==> t.target is None
            &&& (t.step == PetStep::RunCommand || t.step == PetStep::Autonomous) ==> t.target == match ctx.spec_info(owner) {
                Some(o) => o.target,
                None => None,
            }
        }),
{
}

/// Spider Web never trips the friendly-CC guard, and only Spider Web and Boar
/// Charge are range-checked.
pub proof fn lemma_pet_guards_by_ability(
    ctx: CombatContext,
    target: u64,
    range: PetRangeFacts,
)
    ensures
        spec_pet_command_rejection(ctx, PetAbility::SpiderWeb, false, false, target, range)
            != Some(PetRejection::FriendlyBreakableCC),
        spec_pet_command_rejection(ctx, PetAbility::MastersCall, false, false, target, range) is None
            || spec_pet_command_rejection(ctx, PetAbility::MastersCall, false, false, target, range)
            == Some(PetRejection::NoValidTarget),
{
}

} // verus!
