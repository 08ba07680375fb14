//! Which ability a pet is told to use, and on whom: the Hunter's dispatch of
//! its pet's headline ability, the pets' own autonomous dispatch, and the
//! Felhunter's interrupt-then-dispel decision.
//!
//! Distances stay with the caller, which hands in the units within the
//! ability's range of the pet (`within_range`) and, for Boar Charge, those
//! inside its minimum charge range (`too_close`).
use vstd::prelude::*;
use crate::aura::AuraType;
use crate::context::{
    CombatContext, CombatantInfo, contains_id, first_where, lemma_first_where, lemma_filter_step, some_aura,
    AuraInfo,
};
use crate::pets::{PetAbility, PetRejection};
use crate::roster::PetType;

verus! {

/// One entry of a pet's decision: an ability rejected for a reason, or an
/// ability issued on a target.
#[derive(Clone, Copy, Debug, PartialEq, Eq, Structural)]
pub enum PetDispatch {
    Reject { ability: PetAbility, reason: PetRejection },
    Cast { ability: PetAbility, target: u64 },
}

/// What the caller measured about the pet itself this tick.
#[derive(Clone, Copy, Debug, PartialEq, Eq, Structural)]
pub struct PetDispatchFacts {
    /// The pet's own global cooldown is running.
    pub gcd_active: bool,
    /// The pet is below a quarter of its maximum health.
    pub in_heel: bool,
    /// The ability's own cooldown is running.
    pub on_cooldown: bool,
}

/// Rooted or slowed: what Master's Call removes.
pub open spec fn spec_impaired(ctx: CombatContext, e: u64) -> bool {
    ctx.spec_entity_has_aura(e, AuraType::Root) || ctx.spec_entity_has_aura(e, AuraType::MovementSpeedSlow)
}

fn impaired(ctx: &CombatContext, e: u64) -> (r: bool)
    ensures
        r == spec_impaired(*ctx, e),
{
    ctx.entity_has_aura(e, AuraType::Root) || ctx.entity_has_aura(e, AuraType::MovementSpeedSlow)
}

/// Alive, non-pet members of `team` that are rooted or slowed.
pub open spec fn cleanse_pred(ctx: CombatContext, team: u8) -> spec_fn(CombatantInfo) -> bool {
    |c: CombatantInfo| c.team == team && c.is_alive && !c.is_pet && spec_impaired(ctx, c.entity)
}

/// Master's Call's recipient: the owner when it is rooted or slowed, else
/// the first such ally of `team` in entity order.
pub open spec fn spec_masters_call_target(ctx: CombatContext, owner: u64, team: u8) -> Option<u64> {
    if spec_impaired(ctx, owner) {
        Some(owner)
    } else {
        match first_where(ctx.combatants@, cleanse_pred(ctx, team)) {
            Some(c) => Some(c.entity),
            None => None,
        }
    }
}

/// Master's Call's recipient: the owner first, then the first rooted or
/// slowed ally.
pub fn masters_call_target(ctx: &CombatContext, owner: u64, team: u8) -> (r: Option<u64>)
    ensures
        r == spec_masters_call_target(*ctx, owner, team),
{
    if impaired(ctx, owner) {
        return Some(owner);
    }
    let ghost p = cleanse_pred(*ctx, team);
    let mut i: usize = 0;
    while i < ctx.combatants.len()
        invariant
            p == cleanse_pred(*ctx, team),
            !spec_impaired(*ctx, owner),
            0 <= i <= ctx.combatants@.len(),
            forall|j: int| 0 <= j < i ==> !p(#[trigger] ctx.combatants@[j]),
        decreases ctx.combatants.len() - i,
    {
        let c = ctx.combatants[i];
        if c.team == team && c.is_alive && !c.is_pet && impaired(ctx, c.entity) {
            proof {
                lemma_first_where(ctx.combatants@, p, i as int);
            }
            return Some(c.entity);
        }
        i = i + 1;
    }
    proof {
        lemma_first_where(ctx.combatants@, p, i as int);
    }
    None
}

/// The target checks of Spider Web and Boar Charge once the pet may act:
/// a living, visible, non-pet enemy within range; Spider Web not onto a
/// unit already rooted; Boar Charge neither inside its minimum range nor
/// onto a friendly break-on-damage CC.
pub open spec fn spec_strike_checks(
    ctx: CombatContext,
    ability: PetAbility,
    pet_team: u8,
    t: CombatantInfo,
    within_range: Seq<u64>,
    too_close: Seq<u64>,
) -> PetDispatch {
    if !t.is_alive || t.is_pet || t.stealthed || t.team == pet_team {
        PetDispatch::Reject { ability, reason: PetRejection::NoValidTarget }
    } else if !within_range.contains(t.entity) {
        PetDispatch::Reject { ability, reason: PetRejection::OutOfRange }
    } else if ability == PetAbility::SpiderWeb && ctx.spec_entity_has_aura(t.entity, AuraType::Root) {
        PetDispatch::Reject { ability, reason: PetRejection::AlreadyApplied }
    } else if ability == PetAbility::BoarCharge && too_close.contains(t.entity) {
        PetDispatch::Reject { ability, reason: PetRejection::WithinDeadZone }
    } else if ability == PetAbility::BoarCharge && ctx.spec_has_friendly_breakable_cc(t.entity) {
        PetDispatch::Reject { ability, reason: PetRejection::FriendlyBreakableCC }
    } else {
        PetDispatch::Cast { ability, target: t.entity }
    }
}

fn strike_checks(
    ctx: &CombatContext,
    ability: PetAbility,
    pet_team: u8,
    t: &CombatantInfo,
    within_range: &Vec<u64>,
    too_close: &Vec<u64>,
) -> (r: PetDispatch)
    ensures
        r == spec_strike_checks(*ctx, ability, pet_team, *t, within_range@, too_close@),
{
    if !t.is_alive || t.is_pet || t.stealthed || t.team == pet_team {
        return PetDispatch::Reject { ability, reason: PetRejection::NoValidTarget };
    }
    if !contains_id(within_range, t.entity) {
        return PetDispatch::Reject { ability, reason: PetRejection::OutOfRange };
    }
    let spider = matches!(ability, PetAbility::SpiderWeb);
    let boar = matches!(ability, PetAbility::BoarCharge);
    if spider && ctx.entity_has_aura(t.entity, AuraType::Root) {
        return PetDispatch::Reject { ability, reason: PetRejection::AlreadyApplied };
    }
    if boar && contains_id(too_close, t.entity) {
        return PetDispatch::Reject { ability, reason: PetRejection::WithinDeadZone };
    }
    if boar && ctx.has_friendly_breakable_cc(t.entity) {
        return PetDispatch::Reject { ability, reason: PetRejection::FriendlyBreakableCC };
    }
    PetDispatch::Cast { ability, target: t.entity }
}

/// Master's Call once the pet may act: cooldown, a recipient, its range.
pub open spec fn spec_masters_call_checks(
    ctx: CombatContext,
    owner: u64,
    team: u8,
    on_cooldown: bool,
    within_range: Seq<u64>,
) -> PetDispatch {
    let ability = PetAbility::MastersCall;
    if on_cooldown {
        PetDispatch::Reject { ability, reason: PetRejection::OnCooldown }
    } else {
        match spec_masters_call_target(ctx, owner, team) {
            None => PetDispatch::Reject { ability, reason: PetRejection::NoValidTarget },
            Some(t) => if ctx.spec_info(t) is Some && !within_range.contains(t) {
                PetDispatch::Reject { ability, reason: PetRejection::OutOfRange }
            } else {
                PetDispatch::Cast { ability, target: t }
            },
        }
    }
}

fn masters_call_checks(
    ctx: &CombatContext,
    owner: u64,
    team: u8,
    on_cooldown: bool,
    within_range: &Vec<u64>,
) -> (r: PetDispatch)
    ensures
        r == spec_masters_call_checks(*ctx, owner, team, on_cooldown, within_range@),
{
    let ability = PetAbility::MastersCall;
    if on_cooldown {
        return PetDispatch::Reject { ability, reason: PetRejection::OnCooldown };
    }
    match masters_call_target(ctx, owner, team) {
        None => PetDispatch::Reject { ability, reason: PetRejection::NoValidTarget },
        Some(t) => {
            if ctx.info(t).is_some() && !contains_id(within_range, t) {
                PetDispatch::Reject { ability, reason: PetRejection::OutOfRange }
            } else {
                PetDispatch::Cast { ability, target: t }
            }
        },
    }
}

/// The Hunter's dispatch of its pet's headline ability this tick. `None`:
/// nothing is considered (no pet in the snapshot, a Felhunter, or Spider Web
/// and Boar Charge without a kill target in the snapshot).
pub open spec fn spec_hunter_pet_dispatch(
    ctx: CombatContext,
    hunter: u64,
    target: Option<u64>,
    f: PetDispatchFacts,
    within_range: Seq<u64>,
    too_close: Seq<u64>,
) -> Option<PetDispatch> {
    match ctx.spec_info(hunter) {
        None => None,
        Some(h) => match h.pet {
            None => None,
            Some(pe) => match ctx.spec_info(pe) {
                None => None,
                Some(pet) => match pet.pet_type {
                    Some(PetType::Spider) | Some(PetType::Boar) => match target {
                        None => None,
                        Some(t) => match ctx.spec_info(t) {
                            None => None,
                            Some(ti) => {
                                let ability = if pet.pet_type == Some(PetType::Spider) {
                                    PetAbility::SpiderWeb
                                } else {
                                    PetAbility::BoarCharge
                                };
                                Some(
                                    if f.in_heel {
                                        PetDispatch::Reject { ability, reason: PetRejection::LowHealthHeel }
                                    } else if f.on_cooldown {
                                        PetDispatch::Reject { ability, reason: PetRejection::OnCooldown }
                                    } else {
                                        spec_strike_checks(ctx, ability, pet.team, ti, within_range, too_close)
                                    },
                                )
                            },
                        },
                    },
                    Some(PetType::Bird) => Some(
                        if f.in_heel {
                            PetDispatch::Reject {
                                ability: PetAbility::MastersCall,
                                reason: PetRejection::LowHealthHeel,
                            }
                        } else {
                            spec_masters_call_checks(ctx, hunter, h.team, f.on_cooldown, within_range)
                        },
                    ),
                    _ => None,
                },
            },
        },
    }
}

/// The Hunter's pet dispatch, independent of the Hunter's own global
/// cooldown: Spider Web or Boar Charge on the kill target, Master's Call on
/// the Hunter or a rooted or slowed ally. A heeling pet's ability is
/// rejected as such; then its cooldown, then the target checks.
pub fn hunter_pet_dispatch(
    ctx: &CombatContext,
    hunter: u64,
    target: Option<u64>,
    f: PetDispatchFacts,
    within_range: &Vec<u64>,
    too_close: &Vec<u64>,
) -> (r: Option<PetDispatch>)
    ensures
        r == spec_hunter_pet_dispatch(*ctx, hunter, target, f, within_range@, too_close@),
{
    let h = match ctx.info(hunter) {
        Some(h) => h,
        None => {
            return None;
        },
    };
    let pe = match h.pet {
        Some(pe) => pe,
        None => {
            return None;
        },
    };
    let pet = match ctx.info(pe) {
        Some(p) => p,
        None => {
            return None;
        },
    };
    match pet.pet_type {
        Some(PetType::Spider) | Some(PetType::Boar) => {
            let t = match target {
                Some(t) => t,
                None => {
                    return None;
                },
            };
            let ti = match ctx.info(t) {
                Some(ti) => ti,
                None => {
                    return None;
                },
            };
            let ability = if matches!(pet.pet_type, Some(PetType::Spider)) {
                PetAbility::SpiderWeb
            } else {
                PetAbility::BoarCharge
            };
            if f.in_heel {
                return Some(PetDispatch::Reject { ability, reason: PetRejection::LowHealthHeel });
            }
            if f.on_cooldown {
                return Some(PetDispatch::Reject { ability, reason: PetRejection::OnCooldown });
            }
            Some(strike_checks(ctx, ability, pet.team, &ti, within_range, too_close))
        },
        Some(PetType::Bird) => {
            if f.in_heel {
                return Some(
                    PetDispatch::Reject {
                        ability: PetAbility::MastersCall,
                        reason: PetRejection::LowHealthHeel,
                    },
                );
            }
            Some(masters_call_checks(ctx, hunter, h.team, f.on_cooldown, within_range))
        },
        _ => None,
    }
}

/// A pet's own dispatch of its headline ability. `None`: nothing is
/// considered (the pet's global cooldown, a heeling pet, a Felhunter).
pub open spec fn spec_autonomous_dispatch(
    ctx: CombatContext,
    pet_type: PetType,
    pet_team: u8,
    owner: u64,
    f: PetDispatchFacts,
    within_range: Seq<u64>,
    too_close: Seq<u64>,
) -> Option<PetDispatch> {
    if f.gcd_active || f.in_heel || pet_type == PetType::Felhunter {
        None
    } else if pet_type == PetType::Bird {
        Some(spec_masters_call_checks(ctx, owner, pet_team, f.on_cooldown, within_range))
    } else {
        let ability = if pet_type == PetType::Spider {
            PetAbility::SpiderWeb
        } else {
            PetAbility::BoarCharge
        };
        Some(
            if f.on_cooldown {
                PetDispatch::Reject { ability, reason: PetRejection::OnCooldown }
            } else {
                match ctx.spec_info(owner) {
                    Some(o) => match o.target {
                        Some(t) => match ctx.spec_info(t) {
                            Some(ti) => spec_strike_checks(ctx, ability, pet_team, ti, within_range, too_close),
                            None => PetDispatch::Reject { ability, reason: PetRejection::NoValidTarget },
                        },
                        None => PetDispatch::Reject { ability, reason: PetRejection::NoValidTarget },
                    },
                    None => PetDispatch::Reject { ability, reason: PetRejection::NoValidTarget },
                }
            },
        )
    }
}

/// A Spider, Boar or Bird's own dispatch, which fires even while its owner
/// is mid-cast: Spider Web or Boar Charge on the owner's target, Master's
/// Call on the owner or a rooted or slowed ally. Silent on the pet's global
/// cooldown or while it heels.
pub fn autonomous_dispatch(
    ctx: &CombatContext,
    pet_type: PetType,
    pet_team: u8,
    owner: u64,
    f: PetDispatchFacts,
    within_range: &Vec<u64>,
    too_close: &Vec<u64>,
) -> (r: Option<PetDispatch>)
    ensures
        r == spec_autonomous_dispatch(*ctx, pet_type, pet_team, owner, f, within_range@, too_close@),
{
    if f.gcd_active || f.in_heel || matches!(pet_type, PetType::Felhunter) {
        return None;
    }
    if matches!(pet_type, PetType::Bird) {
        return Some(masters_call_checks(ctx, owner, pet_team, f.on_cooldown, within_range));
    }
    let ability = if matches!(pet_type, PetType::Spider) {
        PetAbility::SpiderWeb
    } else {
        PetAbility::BoarCharge
    };
    if f.on_cooldown {
        return Some(PetDispatch::Reject { ability, reason: PetRejection::OnCooldown });
    }
    let no_target = PetDispatch::Reject { ability, reason: PetRejection::NoValidTarget };
    let o = match ctx.info(owner) {
        Some(o) => o,
        None => {
            return Some(no_target);
        },
    };
    let t = match o.target {
        Some(t) => t,
        None => {
            return Some(no_target);
        },
    };
    match ctx.info(t) {
        Some(ti) => Some(strike_checks(ctx, ability, pet_team, &ti, within_range, too_close)),
        None => Some(no_target),
    }
}

// ---------------------------------------------------------------------------
// Felhunter
// ---------------------------------------------------------------------------

/// A unit the caller saw casting this tick, in the order it observed them.
#[derive(Clone, Copy, Debug, PartialEq, Eq, Structural)]
pub struct CastObservation {
    pub entity: u64,
    pub team: u8,
    pub alive: bool,
    /// The cast has already been interrupted.
    pub interrupted: bool,
}

/// A unit the caller saw channelling this tick, in the order it observed
/// them.
#[derive(Clone, Copy, Debug, PartialEq, Eq, Structural)]
pub struct ChannelObservation {
    pub entity: u64,
    pub team: u8,
    pub alive: bool,
}

pub open spec fn lock_cast_pred(ctx: CombatContext, my_team: u8, within_range: Seq<u64>) -> spec_fn(CastObservation) -> bool {
    |o: CastObservation|
        o.team != my_team && o.alive && !o.interrupted && !ctx.spec_entity_has_aura(
            o.entity,
            AuraType::DamageImmunity,
        ) && within_range.contains(o.entity)
}

pub open spec fn lock_channel_pred(ctx: CombatContext, my_team: u8, within_range: Seq<u64>) -> spec_fn(ChannelObservation) -> bool {
    |o: ChannelObservation|
        o.team != my_team && o.alive && !ctx.spec_entity_has_aura(o.entity, AuraType::DamageImmunity)
            && within_range.contains(o.entity)
}

/// Spell Lock's target: the first enemy cast (not yet interrupted), else the
/// first enemy channel, whose caster is alive, not immune and in range.
pub open spec fn spec_spell_lock_target(
    ctx: CombatContext,
    my_team: u8,
    casts: Seq<CastObservation>,
    channels: Seq<ChannelObservation>,
    within_range: Seq<u64>,
) -> Option<u64> {
    match first_where(casts, lock_cast_pred(ctx, my_team, within_range)) {
        Some(o) => Some(o.entity),
        None => match first_where(channels, lock_channel_pred(ctx, my_team, within_range)) {
            Some(o) => Some(o.entity),
            None => None,
        },
    }
}

/// Spell Lock's target: casts before channels, each in observed order.
pub fn spell_lock_target(
    ctx: &CombatContext,
    my_team: u8,
    casts: &Vec<CastObservation>,
    channels: &Vec<ChannelObservation>,
    within_range: &Vec<u64>,
) -> (r: Option<u64>)
    ensures
        r == spec_spell_lock_target(*ctx, my_team, casts@, channels@, within_range@),
{
    let ghost pc = lock_cast_pred(*ctx, my_team, within_range@);
    let ghost ph = lock_channel_pred(*ctx, my_team, within_range@);
    let mut i: usize = 0;
    while i < casts.len()
        invariant
            pc == lock_cast_pred(*ctx, my_team, within_range@),
            0 <= i <= casts@.len(),
            forall|j: int| 0 <= j < i ==> !pc(#[trigger] casts@[j]),
        decreases casts.len() - i,
    {
        let o = casts[i];
        if o.team != my_team && o.alive && !o.interrupted && !ctx.entity_is_immune(o.entity)
            && contains_id(within_range, o.entity) {
            proof {
                lemma_first_where(casts@, pc, i as int);
            }
            return Some(o.entity);
        }
        i = i + 1;
    }
    proof {
        lemma_first_where(casts@, pc, i as int);
    }
    let mut k: usize = 0;
    while k < channels.len()
        invariant
            ph == lock_channel_pred(*ctx, my_team, within_range@),
            first_where(casts@, pc) is None,
            pc == lock_cast_pred(*ctx, my_team, within_range@),
            0 <= k <= channels@.len(),
            forall|j: int| 0 <= j < k ==> !ph(#[trigger] channels@[j]),
        decreases channels.len() - k,
    {
        let o = channels[k];
        if o.team != my_team && o.alive && !ctx.entity_is_immune(o.entity) && contains_id(
            within_range,
            o.entity,
        ) {
            proof {
                lemma_first_where(channels@, ph, k as int);
            }
            return Some(o.entity);
        }
        k = k + 1;
    }
    proof {
        lemma_first_where(channels@, ph, k as int);
    }
    None
}

pub open spec fn dispellable_aura() -> spec_fn(AuraInfo) -> bool {
    |a: AuraInfo| a.can_be_dispelled
}

/// Living members of `my_team` in range that carry a dispellable aura.
pub open spec fn devour_pred(ctx: CombatContext, my_team: u8, within_range: Seq<u64>) -> spec_fn(CombatantInfo) -> bool {
    |c: CombatantInfo|
        c.team == my_team && c.is_alive && within_range.contains(c.entity) && some_aura(
            ctx.spec_auras(c.entity),
            dispellable_aura(),
        )
}

pub open spec fn not_pet() -> spec_fn(CombatantInfo) -> bool {
    |c: CombatantInfo| !c.is_pet
}

/// The choice among `qs` (the candidates in entity order): the last non-pet
/// candidate, else the first candidate.
pub open spec fn prefer_last_non_pet(qs: Seq<CombatantInfo>) -> Option<u64> {
    let np = qs.filter(not_pet());
    if np.len() > 0 {
        Some(np.last().entity)
    } else if qs.len() > 0 {
        Some(qs[0].entity)
    } else {
        None
    }
}

/// Devour Magic's recipient among the in-range allies carrying a
/// dispellable aura: a non-pet ally whenever there is one (the last in
/// entity order), a pet only when no non-pet qualifies.
pub open spec fn spec_devour_magic_target(ctx: CombatContext, my_team: u8, within_range: Seq<u64>) -> Option<u64> {
    prefer_last_non_pet(ctx.combatants@.filter(devour_pred(ctx, my_team, within_range)))
}

fn has_dispellable(ctx: &CombatContext, e: u64) -> (r: bool)
    ensures
        r == some_aura(ctx.spec_auras(e), dispellable_aura()),
{
    match ctx.auras_index(e) {
        None => false,
        Some(ix) => {
            let auras = &ctx.active_auras[ix].auras;
            let ghost p = dispellable_aura();
            let mut k: usize = 0;
            while k < auras.len()
                invariant
                    p == dispellable_aura(),
                    ctx.spec_auras(e) == Some(auras@),
                    0 <= k <= auras@.len(),
                    forall|j: int| 0 <= j < k ==> !p(#[trigger] auras@[j]),
                decreases auras.len() - k,
            {
                if auras[k].can_be_dispelled {
                    assert(p(auras@[k as int]));
                    return true;
                }
                k = k + 1;
            }
            false
        },
    }
}

/// Devour Magic's recipient: scanning allies in entity order, the first
/// candidate is taken and any later non-pet candidate replaces it.
pub fn devour_magic_target(ctx: &CombatContext, my_team: u8, within_range: &Vec<u64>) -> (r: Option<u64>)
    ensures
        r == spec_devour_magic_target(*ctx, my_team, within_range@),
{
    let ghost q = devour_pred(*ctx, my_team, within_range@);
    let mut best: Option<u64> = None;
    let mut i: usize = 0;
    while i < ctx.combatants.len()
        invariant
            q == devour_pred(*ctx, my_team, within_range@),
            0 <= i <= ctx.combatants@.len(),
            best == prefer_last_non_pet(ctx.combatants@.subrange(0, i as int).filter(q)),
        decreases ctx.combatants.len() - i,
    {
        let c = ctx.combatants[i];
        let ghost qs = ctx.combatants@.subrange(0, i as int).filter(q);
        proof {
            lemma_filter_step(ctx.combatants@, i as int, q);
        }
        if c.team == my_team && c.is_alive && contains_id(within_range, c.entity) && has_dispellable(
            ctx,
            c.entity,
        ) {
            proof {
                qs.lemma_filter_push(c, not_pet());
                if qs.len() > 0 {
                    assert(qs.push(c)[0] == qs[0]);
                }
            }
            match best {
                None => {
                    best = Some(c.entity);
                    proof {
                        if qs.len() > 0 {
                            assert(qs.filter(not_pet()).len() == 0);
                        }
                        assert(qs.len() == 0);
                    }
                },
                Some(_) => {
                    if !c.is_pet {
                        best = Some(c.entity);
                    }
                },
            }
        }
        i = i + 1;
    }
    assert(ctx.combatants@.subrange(0, ctx.combatants@.len() as int) =~= ctx.combatants@);
    best
}

/// The Felhunter's decision this tick, as the entries it records: nothing
/// on its global cooldown; else Spell Lock cast, or Spell Lock rejected and
/// then Devour Magic cast or rejected.
pub open spec fn spec_felhunter_decision(
    gcd_active: bool,
    spell_lock_on_cooldown: bool,
    devour_on_cooldown: bool,
    lock_target: Option<u64>,
    devour_target: Option<u64>,
) -> Seq<PetDispatch> {
    let lock = if spell_lock_on_cooldown {
        PetDispatch::Reject { ability: PetAbility::SpellLock, reason: PetRejection::OnCooldown }
    } else {
        match lock_target {
            Some(t) => PetDispatch::Cast { ability: PetAbility::SpellLock, target: t },
            None => PetDispatch::Reject { ability: PetAbility::SpellLock, reason: PetRejection::NoValidTarget },
        }
    };
    let devour = if devour_on_cooldown {
        PetDispatch::Reject { ability: PetAbility::DevourMagic, reason: PetRejection::OnCooldown }
    } else {
        match devour_target {
            Some(t) => PetDispatch::Cast { ability: PetAbility::DevourMagic, target: t },
            None => PetDispatch::Reject {
                ability: PetAbility::DevourMagic,
                reason: PetRejection::NoValidTarget,
            },
        }
    };
    if gcd_active {
        Seq::empty()
    } else if lock is Cast {
        seq![lock]
    } else {
        seq![lock, devour]
    }
}

/// The Felhunter interrupts first and dispels second: Spell Lock on an
/// enemy cast or channel, else Devour Magic on an ally.
pub fn felhunter_decision(
    ctx: &CombatContext,
    my_team: u8,
    gcd_active: bool,
    spell_lock_on_cooldown: bool,
    devour_on_cooldown: bool,
    casts: &Vec<CastObservation>,
    channels: &Vec<ChannelObservation>,
    lock_range: &Vec<u64>,
    devour_range: &Vec<u64>,
) -> (r: Vec<PetDispatch>)
    ensures
        r@ == spec_felhunter_decision(
            gcd_active,
            spell_lock_on_cooldown,
            devour_on_cooldown,
            spec_spell_lock_target(*ctx, my_team, casts@, channels@, lock_range@),
            spec_devour_magic_target(*ctx, my_team, devour_range@),
        ),
{
    let mut r: Vec<PetDispatch> = Vec::new();
    if gcd_active {
        return r;
    }
    let lock_target = spell_lock_target(ctx, my_team, casts, channels, lock_range);
    let devour_target = devour_magic_target(ctx, my_team, devour_range);
    let lock = if spell_lock_on_cooldown {
        PetDispatch::Reject { ability: PetAbility::SpellLock, reason: PetRejection::OnCooldown }
    } else {
        match lock_target {
            Some(t) => PetDispatch::Cast { ability: PetAbility::SpellLock, target: t },
            None => PetDispatch::Reject { ability: PetAbility::SpellLock, reason: PetRejection::NoValidTarget },
        }
    };
    r.push(lock);
    if let PetDispatch::Cast { .. } = lock {
        return r;
    }
    let devour = if devour_on_cooldown {
        PetDispatch::Reject { ability: PetAbility::DevourMagic, reason: PetRejection::OnCooldown }
    } else {
        match devour_target {
            Some(t) => PetDispatch::Cast { ability: PetAbility::DevourMagic, target: t },
            None => PetDispatch::Reject {
                ability: PetAbility::DevourMagic,
                reason: PetRejection::NoValidTarget,
            },
        }
    };
    r.push(devour);
    r
}

// ---------------------------------------------------------------------------
// Laws of pet dispatch
// ---------------------------------------------------------------------------

/// A strike (Spider Web, Boar Charge) that goes out lands on a living,
/// visible, non-pet enemy in range; Spider Web never on a unit already
/// rooted; Boar Charge never inside its minimum range nor onto a friendly
/// break-on-damage CC.
pub open spec fn strike_is_sound(
    ctx: CombatContext,
    pet_team: u8,
    d: PetDispatch,
    within_range: Seq<u64>,
    too_close: Seq<u64>,
) -> bool {
    d matches PetDispatch::Cast { ability, target } ==> (ability == PetAbility::SpiderWeb || ability
        == PetAbility::BoarCharge) ==> {
        &&& ctx.spec_info(target) matches Some(t) && t.is_alive && !t.is_pet && !t.stealthed && t.team
            != pet_team
        &&& within_range.contains(target)
        &&& ability == PetAbility::SpiderWeb ==> !ctx.spec_entity_has_aura(target, AuraType::Root)
        &&& ability == PetAbility::BoarCharge ==> !too_close.contains(target)
            && !ctx.spec_has_friendly_breakable_cc(target)
    }
}

/// Every strike either dispatcher issues is sound, and a heeling pet casts
/// nothing.
pub proof fn lemma_pet_strikes_are_sound(
    ctx: CombatContext,
    hunter: u64,
    target: Option<u64>,
    pet_type: PetType,
    pet_team: u8,
    owner: u64,
    f: PetDispatchFacts,
    within_range: Seq<u64>,
    too_close: Seq<u64>,
)
    ensures
        spec_autonomous_dispatch(ctx, pet_type, pet_team, owner, f, within_range, too_close) matches Some(d)
            ==> strike_is_sound(ctx, pet_team, d, within_range, too_close),
        spec_hunter_pet_dispatch(ctx, hunter, target, f, within_range, too_close) matches Some(d) ==> (
        ctx.spec_info(hunter) matches Some(h) && h.pet matches Some(pe) && ctx.spec_info(pe) matches Some(
            pet,
        ) && strike_is_sound(ctx, pet.team, d, within_range, too_close)),
        f.in_heel ==> !(spec_autonomous_dispatch(ctx, pet_type, pet_team, owner, f, within_range, too_close) matches Some(
            PetDispatch::Cast { .. },
        )),
        f.in_heel ==> !(spec_hunter_pet_dispatch(ctx, hunter, target, f, within_range, too_close) matches Some(
            PetDispatch::Cast { .. },
        )),
{
    if let Some(o) = ctx.spec_info(owner) {
        if let Some(t) = o.target {
            lemma_info_entity(ctx, t);
        }
    }
    if let Some(t) = target {
        lemma_info_entity(ctx, t);
    }
}

/// A snapshot entry found for `e` is the entry of `e`.
proof fn lemma_info_entity(ctx: CombatContext, e: u64)
    ensures
        ctx.spec_info(e) matches Some(i) ==> i.entity == e,
{
    lemma_find_by_key(ctx.combatants@, e);
}

proof fn lemma_find_by_key(s: Seq<CombatantInfo>, e: u64)
    ensures
        crate::context::info_of(s, e) matches Some(i) ==> i.entity == e,
    decreases s.len(),
{
    if s.len() > 0 && s[0].entity != e {
        lemma_find_by_key(s.drop_first(), e);
    }
}

/// Master's Call goes to the owner whenever the owner is rooted or slowed;
/// any other recipient is a living, non-pet, rooted or slowed member of the
/// team.
pub proof fn lemma_masters_call_recipient(ctx: CombatContext, owner: u64, team: u8)
    ensures
        spec_impaired(ctx, owner) ==> spec_masters_call_target(ctx, owner, team) == Some(owner),
        spec_masters_call_target(ctx, owner, team) matches Some(t) ==> t == owner || exists|j: int|
            0 <= j < ctx.combatants@.len() && (#[trigger] ctx.combatants@[j]).entity == t
                && cleanse_pred(ctx, team)(ctx.combatants@[j]),
{
    lemma_first_where_found(ctx.combatants@, cleanse_pred(ctx, team));
}

proof fn lemma_first_where_found<A>(s: Seq<A>, p: spec_fn(A) -> bool)
    ensures
        first_where(s, p) matches Some(a) ==> exists|j: int| 0 <= j < s.len() && #[trigger] s[j] == a
            && p(a),
    decreases s.len(),
{
    if s.len() > 0 && !p(s[0]) {
        lemma_first_where_found(s.drop_first(), p);
        if let Some(a) = first_where(s.drop_first(), p) {
            let j = choose|j: int| 0 <= j < s.drop_first().len() && #[trigger] s.drop_first()[j] == a && p(a);
            assert(s[j + 1] == a);
        }
    } else if s.len() > 0 {
        assert(s[0] == s[0]);
    }
}

/// Devour Magic never picks a pet over a qualifying non-pet ally: with any
/// non-pet candidate it takes the last one in entity order; a pet only when
/// no non-pet qualifies; nobody when no one qualifies. Its recipient always
/// qualifies.
pub proof fn lemma_devour_prefers_non_pets(ctx: CombatContext, my_team: u8, within_range: Seq<u64>)
    ensures
        ({
            let q = devour_pred(ctx, my_team, within_range);
            let qs = ctx.combatants@.filter(q);
            let np = qs.filter(not_pet());
            let r = spec_devour_magic_target(ctx, my_team, within_range);
            &&& np.len() > 0 ==> r == Some(np.last().entity) && !np.last().is_pet && q(np.last())
            &&& (np.len() == 0 && qs.len() > 0) ==> r == Some(qs[0].entity) && q(qs[0])
            &&& qs.len() == 0 ==> r is None
        }),
{
    let q = devour_pred(ctx, my_team, within_range);
    let qs = ctx.combatants@.filter(q);
    let np = qs.filter(not_pet());
    if np.len() > 0 {
        qs.lemma_filter_pred(not_pet(), np.len() - 1);
        qs.lemma_filter_contains_rev(not_pet(), np.last());
        let k = choose|k: int| 0 <= k < qs.len() && qs[k] == np.last();
        ctx.combatants@.lemma_filter_pred(q, k);
    } else if qs.len() > 0 {
        ctx.combatants@.lemma_filter_pred(q, 0);
    }
}

/// The Felhunter dispels only when its interrupt could not go out, and
/// records at most one cast a tick.
pub proof fn lemma_felhunter_interrupt_first(
    gcd_active: bool,
    spell_lock_on_cooldown: bool,
    devour_on_cooldown: bool,
    lock_target: Option<u64>,
    devour_target: Option<u64>,
)
    ensures
        ({
            let d = spec_felhunter_decision(
                gcd_active,
                spell_lock_on_cooldown,
                devour_on_cooldown,
                lock_target,
                devour_target,
            );
            &&& d.len() <= 2
            &&& (!gcd_active && !spell_lock_on_cooldown && lock_target is Some) ==> d == seq![
                PetDispatch::Cast { ability: PetAbility::SpellLock, target: lock_target->0 },
            ]
            &&& (d.len() == 2) ==> d[0] is Reject
        }),
{
}

/// Spell Lock only goes on a living enemy caster in range that is not
/// immune; a qualifying cast always wins over any channel.
pub proof fn lemma_spell_lock_target(
    ctx: CombatContext,
    my_team: u8,
    casts: Seq<CastObservation>,
    channels: Seq<ChannelObservation>,
    within_range: Seq<u64>,
    k: int,
)
    ensures
        ({
            let r = spec_spell_lock_target(ctx, my_team, casts, channels, within_range);
            &&& r matches Some(e) ==> within_range.contains(e) && !ctx.spec_entity_has_aura(
                e,
                AuraType::DamageImmunity,
            )
            &&& (0 <= k < casts.len() && lock_cast_pred(ctx, my_team, within_range)(casts[k])) ==> (r matches Some(
                e,
            ) && exists|j: int| 0 <= j < casts.len() && #[trigger] casts[j].entity == e && lock_cast_pred(
                ctx,
                my_team,
                within_range,
            )(casts[j]))
        }),
{
    let pc = lock_cast_pred(ctx, my_team, within_range);
    let ph = lock_channel_pred(ctx, my_team, within_range);
    crate::context::lemma_first_where_satisfies(casts, pc);
    crate::context::lemma_first_where_satisfies(channels, ph);
    if 0 <= k < casts.len() && pc(casts[k]) {
        lemma_cast_found(casts, pc, k);
        let o = first_where(casts, pc)->0;
        let j = choose|j: int| 0 <= j < casts.len() && casts[j] == o;
        assert(casts[j].entity == o.entity);
    }
}

proof fn lemma_cast_found<A>(s: Seq<A>, p: spec_fn(A) -> bool, k: int)
    requires
        0 <= k < s.len(),
        p(s[k]),
    ensures
        first_where(s, p) is Some,
    decreases s.len(),
{
    if !p(s[0]) {
        assert(s.drop_first()[k - 1] == s[k]);
        lemma_cast_found(s.drop_first(), p, k - 1);
    }
}

} // verus!
