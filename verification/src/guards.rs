//! The discrete guards an ability's attempt checks before it casts: an
//! effect already on the target, a target it must not touch, a reservation
//! for another ability, a crowd control already holding the target, and the
//! cast deferral of a healer that is escaping or dipping.
//!
//! Resource amounts and health fractions stay with the caller, which hands
//! in the resulting booleans (the Hunter's mana reserve, a heal target above
//! the urgency threshold).
use vstd::prelude::*;
use crate::aura::AuraType;
use crate::context::{
    AuraInfo, CombatContext, CombatantInfo, NamedAura, contains_id, lemma_filter_step, some_aura,
};
use crate::policy::CcPolicy;
use crate::postures::Posture;

verus! {

/// Why an ability's guard turns its attempt down.
#[derive(Clone, Copy, Debug, PartialEq, Eq, Structural)]
pub enum GuardRejection {
    /// No usable target.
    NoValidTarget,
    /// The target already carries this ability's effect.
    AlreadyApplied,
    /// Mana is kept for the kiting toolkit.
    ManaReserved,
    /// A damage-over-time on a rage user funds its rage.
    FeedsRage,
    /// The target is the Freezing Trap's poised candidate.
    ReservedForTrap,
    /// The crowd-control target is the kill target: damage would break it.
    KillTarget,
    /// Immune to this control by diminishing returns.
    DrImmune,
    /// Already held by a crowd control.
    AlreadyControlled,
}

/// An aura of type `t` applied by the named ability `n`.
pub open spec fn named_aura(t: AuraType, n: NamedAura) -> spec_fn(AuraInfo) -> bool {
    |a: AuraInfo| a.effect_type == t && a.named == Some(n)
}

pub open spec fn spec_has_named(ctx: CombatContext, e: u64, t: AuraType, n: NamedAura) -> bool {
    some_aura(ctx.spec_auras(e), named_aura(t, n))
}

fn has_named(ctx: &CombatContext, e: u64, t: AuraType, n: NamedAura) -> (r: bool)
    ensures
        r == spec_has_named(*ctx, e, t, n),
{
    match ctx.auras_index(e) {
        None => false,
        Some(ix) => {
            let auras = &ctx.active_auras[ix].auras;
            let ghost p = named_aura(t, n);
            let mut k: usize = 0;
            while k < auras.len()
                invariant
                    p == named_aura(t, n),
                    ctx.spec_auras(e) == Some(auras@),
                    0 <= k <= auras@.len(),
                    forall|j: int| 0 <= j < k ==> !p(#[trigger] auras@[j]),
                decreases auras.len() - k,
            {
                if auras[k].effect_type == t && auras[k].named == Some(n) {
                    assert(p(auras@[k as int]));
                    return true;
                }
                k = k + 1;
            }
            false
        },
    }
}

// ---------------------------------------------------------------------------
// Hunter: Serpent Sting
// ---------------------------------------------------------------------------

/// The Freezing Trap's candidate for a sting on `target`: the enemy healer,
/// else `target` itself.
pub open spec fn spec_trap_candidate(ctx: CombatContext, target: u64) -> u64 {
    match ctx.spec_enemy_healer() {
        Some(h) => h,
        None => target,
    }
}

pub open spec fn spec_serpent_sting_rejection(
    ctx: CombatContext,
    target: u64,
    mana_reserved: bool,
    trap_on_cooldown: bool,
) -> Option<GuardRejection> {
    match ctx.spec_info(target) {
        None => Some(GuardRejection::NoValidTarget),
        Some(i) => if spec_has_named(ctx, target, AuraType::DamageOverTime, NamedAura::SerpentSting) {
            Some(GuardRejection::AlreadyApplied)
        } else if mana_reserved {
            Some(GuardRejection::ManaReserved)
        } else if i.class.spec_gains_rage_from_damage() {
            Some(GuardRejection::FeedsRage)
        } else if !trap_on_cooldown && !ctx.spec_has_friendly_dots_on_target(target)
            && spec_trap_candidate(ctx, target) == target {
            Some(GuardRejection::ReservedForTrap)
        } else {
            None
        },
    }
}

/// Serpent Sting's guard, in order: no second sting; keep the mana the
/// kiting toolkit needs (`mana_reserved`: the sting's cost would take mana
/// below that floor); never sting a rage user; and leave the Freezing
/// Trap's candidate alone while the trap is poised for it (off cooldown,
/// and no other DoT of ours already stops the trap).
pub fn serpent_sting_rejection(ctx: &CombatContext, target: u64, mana_reserved: bool, trap_on_cooldown: bool) -> (r:
    Option<GuardRejection>)
    ensures
        r == spec_serpent_sting_rejection(*ctx, target, mana_reserved, trap_on_cooldown),
{
    let info = match ctx.info(target) {
        Some(i) => i,
        None => {
            return Some(GuardRejection::NoValidTarget);
        },
    };
    if has_named(ctx, target, AuraType::DamageOverTime, NamedAura::SerpentSting) {
        return Some(GuardRejection::AlreadyApplied);
    }
    if mana_reserved {
        return Some(GuardRejection::ManaReserved);
    }
    if info.class.gains_rage_from_damage() {
        return Some(GuardRejection::FeedsRage);
    }
    if !trap_on_cooldown && !ctx.has_friendly_dots_on_target(target) && ctx.freezing_trap_candidate(target)
        == target {
        return Some(GuardRejection::ReservedForTrap);
    }
    None
}

/// Serpent Sting never goes onto a Warrior, never onto a unit it already
/// stings, and never onto the trap's poised candidate.
pub proof fn lemma_sting_guard(ctx: CombatContext, target: u64, mana_reserved: bool, trap_on_cooldown: bool)
    ensures
        spec_serpent_sting_rejection(ctx, target, mana_reserved, trap_on_cooldown) is None ==> {
            &&& ctx.spec_info(target) matches Some(i) && !i.class.spec_gains_rage_from_damage()
            &&& !spec_has_named(ctx, target, AuraType::DamageOverTime, NamedAura::SerpentSting)
            &&& !mana_reserved
            &&& (trap_on_cooldown || ctx.spec_has_friendly_dots_on_target(target) || spec_trap_candidate(
                ctx,
                target,
            ) != target)
        },
{
}

/// Every Serpent Sting rejection is truthful: it names a condition that
/// holds of the target, the mana reserve or the trap.
pub proof fn lemma_sting_rejections_truthful(
    ctx: CombatContext,
    target: u64,
    mana_reserved: bool,
    trap_on_cooldown: bool,
)
    ensures
        ({
            let r = spec_serpent_sting_rejection(ctx, target, mana_reserved, trap_on_cooldown);
            &&& r == Some(GuardRejection::NoValidTarget) <==> ctx.spec_info(target) is None
            &&& r == Some(GuardRejection::AlreadyApplied) ==> spec_has_named(
                ctx,
                target,
                AuraType::DamageOverTime,
                NamedAura::SerpentSting,
            )
            &&& r == Some(GuardRejection::ManaReserved) ==> mana_reserved
            &&& r == Some(GuardRejection::FeedsRage) ==> ctx.spec_info(target)->0.class.spec_gains_rage_from_damage()
            &&& r == Some(GuardRejection::ReservedForTrap) ==> !trap_on_cooldown
                && !ctx.spec_has_friendly_dots_on_target(target) && spec_trap_candidate(ctx, target) == target
            &&& (ctx.spec_info(target) matches Some(i) && i.class.spec_gains_rage_from_damage()) ==> r is Some
            &&& (ctx.spec_info(target) is Some && mana_reserved) ==> r is Some
        }),
{
}

// ---------------------------------------------------------------------------
// Damage over time, self-buffs and Fear
// ---------------------------------------------------------------------------

/// A damage-over-time spell (Corruption, Unstable Affliction, Immolate,
/// Serpent Sting) is not reapplied over its own running copy.
pub fn dot_rejection(ctx: &CombatContext, target: u64, dot: NamedAura) -> (r: Option<GuardRejection>)
    ensures
        r == if spec_has_named(*ctx, target, AuraType::DamageOverTime, dot) {
            Some(GuardRejection::AlreadyApplied)
        } else {
            None
        },
{
    if has_named(ctx, target, AuraType::DamageOverTime, dot) {
        Some(GuardRejection::AlreadyApplied)
    } else {
        None
    }
}

/// A self-buff is not recast while its aura holds: Ice Barrier over any
/// absorb, a Mage armor over its own buff, Divine Shield over an immunity.
pub fn self_buff_rejection(ctx: &CombatContext, me: u64, buff: AuraType) -> (r: Option<GuardRejection>)
    ensures
        r == if ctx.spec_entity_has_aura(me, buff) {
            Some(GuardRejection::AlreadyApplied)
        } else {
            None
        },
{
    if ctx.entity_has_aura(me, buff) {
        Some(GuardRejection::AlreadyApplied)
    } else {
        None
    }
}

/// The Mage's armor choice.
#[derive(Clone, Copy, Debug, PartialEq, Eq, Structural)]
pub enum MageArmor {
    FrostArmor,
    MageArmor,
    MoltenArmor,
}

/// The buff each armor keeps up.
pub fn mage_armor_aura(armor: MageArmor) -> (r: AuraType)
    ensures
        r == match armor {
            MageArmor::FrostArmor => AuraType::FrostArmorBuff,
            MageArmor::MageArmor => AuraType::ManaRegenIncrease,
            MageArmor::MoltenArmor => AuraType::CritChanceIncrease,
        },
{
    match armor {
        MageArmor::FrostArmor => AuraType::FrostArmorBuff,
        MageArmor::MageArmor => AuraType::ManaRegenIncrease,
        MageArmor::MoltenArmor => AuraType::CritChanceIncrease,
    }
}

/// A Stun, Fear or Root already holding a unit.
pub open spec fn fear_overlap() -> spec_fn(AuraInfo) -> bool {
    |a: AuraInfo| a.effect_type == AuraType::Stun || a.effect_type == AuraType::Fear || a.effect_type == AuraType::Root
}

/// Fear is not cast onto a unit a Stun, Fear or Root already holds.
pub fn fear_rejection(ctx: &CombatContext, target: u64) -> (r: Option<GuardRejection>)
    ensures
        r == if some_aura(ctx.spec_auras(target), fear_overlap()) {
            Some(GuardRejection::AlreadyControlled)
        } else {
            None
        },
{
    match ctx.auras_index(target) {
        None => None,
        Some(ix) => {
            let auras = &ctx.active_auras[ix].auras;
            let ghost p = fear_overlap();
            let mut k: usize = 0;
            while k < auras.len()
                invariant
                    p == fear_overlap(),
                    ctx.spec_auras(target) == Some(auras@),
                    0 <= k <= auras@.len(),
                    forall|j: int| 0 <= j < k ==> !p(#[trigger] auras@[j]),
                decreases auras.len() - k,
            {
                if matches!(auras[k].effect_type, AuraType::Stun | AuraType::Fear | AuraType::Root) {
                    assert(p(auras@[k as int]));
                    return Some(GuardRejection::AlreadyControlled);
                }
                k = k + 1;
            }
            None
        },
    }
}

// ---------------------------------------------------------------------------
// Mage: Polymorph
// ---------------------------------------------------------------------------

pub open spec fn spec_polymorph_target(
    ctx: CombatContext,
    policy: CcPolicy,
    priced_pick: Option<u64>,
    cc_target: Option<u64>,
    kill_target: Option<u64>,
    incap_dr_immune: Seq<u64>,
) -> Result<u64, GuardRejection> {
    let chosen: Result<u64, GuardRejection> = if policy == CcPolicy::Priced {
        match priced_pick {
            Some(t) => Ok(t),
            None => Err(GuardRejection::NoValidTarget),
        }
    } else {
        match cc_target {
            None => Err(GuardRejection::NoValidTarget),
            Some(c) => if kill_target == Some(c) {
                Err(GuardRejection::KillTarget)
            } else {
                Ok(c)
            },
        }
    };
    match chosen {
        Err(e) => Err(e),
        Ok(t) => if ctx.spec_info(t) is None {
            Err(GuardRejection::NoValidTarget)
        } else if incap_dr_immune.contains(t) {
            Err(GuardRejection::DrImmune)
        } else if some_aura(ctx.spec_auras(t), CombatContext::overlap_aura()) {
            Err(GuardRejection::AlreadyControlled)
        } else {
            Ok(t)
        },
    }
}

/// The unit a Polymorph goes out on. Under the priced policy it is the
/// value model's pick (`priced_pick`); under the identity policy it is the
/// CC target, never the kill target (damage would break the sheep at
/// once). Either way the unit must be in the snapshot, not immune to
/// incapacitates by diminishing returns, and not already held by a Stun,
/// Fear, Root or Polymorph.
pub fn polymorph_target(
    ctx: &CombatContext,
    policy: CcPolicy,
    priced_pick: Option<u64>,
    cc_target: Option<u64>,
    kill_target: Option<u64>,
    incap_dr_immune: &Vec<u64>,
) -> (r: Result<u64, GuardRejection>)
    ensures
        r == spec_polymorph_target(*ctx, policy, priced_pick, cc_target, kill_target, incap_dr_immune@),
{
    let t = if policy.is_priced() {
        match priced_pick {
            Some(t) => t,
            None => {
                return Err(GuardRejection::NoValidTarget);
            },
        }
    } else {
        match cc_target {
            None => {
                return Err(GuardRejection::NoValidTarget);
            },
            Some(c) => {
                if kill_target == Some(c) {
                    return Err(GuardRejection::KillTarget);
                }
                c
            },
        }
    };
    if ctx.info(t).is_none() {
        return Err(GuardRejection::NoValidTarget);
    }
    if contains_id(incap_dr_immune, t) {
        return Err(GuardRejection::DrImmune);
    }
    if ctx.entity_overlapped(t) {
        return Err(GuardRejection::AlreadyControlled);
    }
    Ok(t)
}

/// Under the identity policy a Polymorph never goes onto the kill target;
/// under either policy never onto a unit already held or diminished to
/// immunity.
pub proof fn lemma_polymorph_guard(
    ctx: CombatContext,
    policy: CcPolicy,
    priced_pick: Option<u64>,
    cc_target: Option<u64>,
    kill_target: Option<u64>,
    incap_dr_immune: Seq<u64>,
)
    ensures
        spec_polymorph_target(ctx, policy, priced_pick, cc_target, kill_target, incap_dr_immune) matches Ok(t)
            ==> {
            &&& policy == CcPolicy::Identity ==> cc_target == Some(t) && kill_target != Some(t)
            &&& policy == CcPolicy::Priced ==> priced_pick == Some(t)
            &&& ctx.spec_info(t) is Some
            &&& !incap_dr_immune.contains(t)
            &&& !some_aura(ctx.spec_auras(t), CombatContext::overlap_aura())
        },
{
}

/// Every Polymorph rejection is truthful, and an identity-policy sheep on
/// the kill target is always refused.
pub proof fn lemma_polymorph_rejections_truthful(
    ctx: CombatContext,
    policy: CcPolicy,
    priced_pick: Option<u64>,
    cc_target: Option<u64>,
    kill_target: Option<u64>,
    incap_dr_immune: Seq<u64>,
)
    ensures
        ({
            let r = spec_polymorph_target(ctx, policy, priced_pick, cc_target, kill_target, incap_dr_immune);
            &&& r == Err::<u64, GuardRejection>(GuardRejection::KillTarget) ==> policy == CcPolicy::Identity
                && cc_target is Some && cc_target == kill_target
            &&& (policy == CcPolicy::Identity && cc_target is Some && cc_target == kill_target) ==> r
                == Err::<u64, GuardRejection>(GuardRejection::KillTarget)
            &&& r == Err::<u64, GuardRejection>(GuardRejection::DrImmune) ==> exists|t: u64|
                incap_dr_immune.contains(t) && (cc_target == Some(t) || priced_pick == Some(t))
            &&& (policy == CcPolicy::Identity && cc_target is None) ==> r == Err::<u64, GuardRejection>(
                GuardRejection::NoValidTarget,
            )
            &&& (policy == CcPolicy::Priced && priced_pick is None) ==> r == Err::<u64, GuardRejection>(
                GuardRejection::NoValidTarget,
            )
        }),
{
    let r = spec_polymorph_target(ctx, policy, priced_pick, cc_target, kill_target, incap_dr_immune);
    if r == Err::<u64, GuardRejection>(GuardRejection::DrImmune) {
        if policy == CcPolicy::Priced {
            let t = priced_pick->0;
            assert(incap_dr_immune.contains(t) && priced_pick == Some(t));
        } else {
            let t = cc_target->0;
            assert(incap_dr_immune.contains(t) && cc_target == Some(t));
        }
    }
}

// ---------------------------------------------------------------------------
// Priest: Power Word: Shield
// ---------------------------------------------------------------------------

/// A unit Power Word: Shield may go on: a living non-pet member of
/// `my_team` with no Weakened Soul, no running shield of its own, and not
/// shielded earlier this frame.
pub open spec fn shield_pred(ctx: CombatContext, my_team: u8, shielded_this_frame: Seq<u64>) -> spec_fn(
    CombatantInfo,
) -> bool {
    |c: CombatantInfo|
        c.team == my_team && c.is_alive && !c.is_pet && !ctx.spec_entity_has_aura(c.entity, AuraType::WeakenedSoul)
            && !spec_has_named(ctx, c.entity, AuraType::Absorb, NamedAura::PowerWordShield)
            && !shielded_this_frame.contains(c.entity)
}

pub open spec fn spec_shield_candidates(ctx: CombatContext, my_team: u8, shielded_this_frame: Seq<u64>) -> Seq<
    CombatantInfo,
> {
    ctx.combatants@.filter(shield_pred(ctx, my_team, shielded_this_frame))
}

/// The allies Power Word: Shield may go on, in entity order; the caller
/// picks the most injured among those at full health or below the shield
/// threshold.
pub fn shield_candidates(ctx: &CombatContext, my_team: u8, shielded_this_frame: &Vec<u64>) -> (r: Vec<
    CombatantInfo,
>)
    ensures
        r@ == spec_shield_candidates(*ctx, my_team, shielded_this_frame@),
{
    let ghost p = shield_pred(*ctx, my_team, shielded_this_frame@);
    let mut r: Vec<CombatantInfo> = Vec::new();
    let mut i: usize = 0;
    while i < ctx.combatants.len()
        invariant
            p == shield_pred(*ctx, my_team, shielded_this_frame@),
            0 <= i <= ctx.combatants@.len(),
            r@ == ctx.combatants@.subrange(0, i as int).filter(p),
        decreases ctx.combatants.len() - i,
    {
        let c = ctx.combatants[i];
        proof {
            lemma_filter_step(ctx.combatants@, i as int, p);
        }
        if c.team == my_team && c.is_alive && !c.is_pet && !ctx.entity_has_aura(c.entity, AuraType::WeakenedSoul)
            && !has_named(ctx, c.entity, AuraType::Absorb, NamedAura::PowerWordShield) && !contains_id(
            shielded_this_frame,
            c.entity,
        ) {
            r.push(c);
        }
        i = i + 1;
    }
    assert(ctx.combatants@.subrange(0, ctx.combatants@.len() as int) =~= ctx.combatants@);
    r
}

/// No shield goes on a unit under Weakened Soul or under a running shield.
pub proof fn lemma_shield_guard(ctx: CombatContext, my_team: u8, shielded_this_frame: Seq<u64>, k: int)
    requires
        0 <= k < spec_shield_candidates(ctx, my_team, shielded_this_frame).len(),
    ensures
        ({
            let c = spec_shield_candidates(ctx, my_team, shielded_this_frame)[k];
            &&& !ctx.spec_entity_has_aura(c.entity, AuraType::WeakenedSoul)
            &&& !spec_has_named(ctx, c.entity, AuraType::Absorb, NamedAura::PowerWordShield)
            &&& !shielded_this_frame.contains(c.entity)
            &&& c.team == my_team && c.is_alive && !c.is_pet
        }),
{
    ctx.combatants@.lemma_filter_pred(shield_pred(ctx, my_team, shielded_this_frame), k);
}

// ---------------------------------------------------------------------------
// Healers: cast deferral while escaping or dipping
// ---------------------------------------------------------------------------

/// A healer defers non-critical movement-locking casts during a live
/// ESCAPE window and, when it has a dip (`dips`), during a DIP — a cast
/// mid-walk stalls the walk.
pub open spec fn spec_cast_defer(posture: Posture, dips: bool) -> bool {
    posture == Posture::Escape || (dips && posture == Posture::Dip)
}

/// The Priest's deferral: ESCAPE or DIP.
pub fn priest_cast_defer(posture: Posture) -> (r: bool)
    ensures
        r == spec_cast_defer(posture, true),
{
    matches!(posture, Posture::Escape | Posture::Dip)
}

/// The Paladin's deferral: ESCAPE or DIP, as the Priest's.
pub fn paladin_cast_defer(posture: Posture) -> (r: bool)
    ensures
        r == spec_cast_defer(posture, true),
{
    matches!(posture, Posture::Escape | Posture::Dip)
}

/// The Shaman has no dip: it defers only during a live ESCAPE window.
pub fn shaman_cast_defer(posture: Posture) -> (r: bool)
    ensures
        r == spec_cast_defer(posture, false),
{
    matches!(posture, Posture::Escape)
}

pub open spec fn spec_heal_deferred(defer: bool, target_above_urgency: bool) -> bool {
    defer && target_above_urgency
}

/// A heal (Flash Heal, Flash of Light, Holy Light, a sustain Lesser Healing
/// Wave) is deferred while the deferral holds and its target's health is
/// above the urgency threshold; a critical heal always fires. A
/// non-critical nuke (Mind Blast, Lightning Bolt) is deferred outright
/// while the deferral holds.
pub fn heal_deferred(defer: bool, target_above_urgency: bool) -> (r: bool)
    ensures
        r == spec_heal_deferred(defer, target_above_urgency),
{
    defer && target_above_urgency
}

/// No healer defers in FREE or PRESSURED, the Shaman never in a DIP, and a
/// heal on a target at or below the urgency threshold is never deferred.
pub proof fn lemma_deferral(posture: Posture, dips: bool, target_above_urgency: bool)
    ensures
        (posture == Posture::Free || posture == Posture::Pressured) ==> !spec_cast_defer(posture, dips),
        !spec_cast_defer(Posture::Dip, false),
        !target_above_urgency ==> !spec_heal_deferred(spec_cast_defer(posture, dips), target_above_urgency),
{
}

} // verus!
