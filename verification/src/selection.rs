//! Target selection for the healers' ally dispel and the Shaman's offensive
//! purge.
//!
//! Both scan the snapshot in entity order, score each eligible unit by its
//! most urgent aura, and keep the first unit with the strictly highest score:
//! a later unit replaces the current best only by beating it.
use vstd::prelude::*;
use crate::aura::{AuraType, dispel_priority, purge_priority, spec_dispel_priority,
    spec_purge_priority, PURGE_MIN_PRIORITY};
use crate::context::{AuraInfo, CombatContext, CombatantInfo, contains_id};

verus! {

broadcast use vstd::seq_lib::group_seq_properties;

/// `r` is the first index holding the largest key at or above `floor`, or
/// nothing when no key reaches `floor`. Keys that are `None` never count.
pub open spec fn is_first_argmax(keys: Seq<Option<int>>, floor: int, r: Option<int>) -> bool {
    match r {
        Some(i) => {
            &&& 0 <= i < keys.len()
            &&& keys[i] matches Some(k) && k >= floor
            &&& forall|j: int|
                0 <= j < i ==> (#[trigger] keys[j] matches Some(kj) ==> kj < floor || kj < keys[i]->0)
            &&& forall|j: int|
                i < j < keys.len() ==> (#[trigger] keys[j] matches Some(kj) ==> kj < floor || kj
                    <= keys[i]->0)
        },
        None => forall|j: int|
            0 <= j < keys.len() ==> (#[trigger] keys[j] matches Some(kj) ==> kj < floor),
    }
}

/// Scan left to right, keeping the first index of the strictly largest key
/// at or above `floor`.
pub open spec fn spec_first_argmax(keys: Seq<Option<int>>, floor: int) -> Option<int>
    decreases keys.len(),
{
    if keys.len() == 0 {
        None
    } else {
        let b = spec_first_argmax(keys.drop_last(), floor);
        let i = keys.len() - 1;
        match keys[i] {
            Some(k) => if k >= floor && (b is None || k > keys[b->0]->0) {
                Some(i)
            } else {
                b
            },
            None => b,
        }
    }
}

/// The scan finds the first index of the largest key at or above the floor.
pub proof fn lemma_first_argmax_characterized(keys: Seq<Option<int>>, floor: int)
    ensures
        is_first_argmax(keys, floor, spec_first_argmax(keys, floor)),
    decreases keys.len(),
{
    if keys.len() > 0 {
        let prev = keys.drop_last();
        lemma_first_argmax_characterized(prev, floor);
        let b = spec_first_argmax(prev, floor);
        assert(forall|j: int| 0 <= j < prev.len() ==> prev[j] == keys[j]);
        if let Some(bi) = b {
            assert(keys[bi] == prev[bi]);
        }
    }
}

/// Views a sequence of optional machine keys as mathematical integers.
pub open spec fn int_keys(keys: Seq<Option<i64>>) -> Seq<Option<int>> {
    keys.map_values(|k: Option<i64>| match k {
        Some(v) => Some(v as int),
        None => None,
    })
}

pub open spec fn index_to_int(r: Option<usize>) -> Option<int> {
    match r {
        Some(i) => Some(i as int),
        None => None,
    }
}

/// The first index holding the largest key at or above `floor`.
pub fn first_argmax(keys: &Vec<Option<i64>>, floor: i64) -> (r: Option<usize>)
    ensures
        index_to_int(r) == spec_first_argmax(int_keys(keys@), floor as int),
        is_first_argmax(int_keys(keys@), floor as int, index_to_int(r)),
{
    let ghost ks = int_keys(keys@);
    let mut best: Option<usize> = None;
    let mut best_key: i64 = 0;
    let mut i: usize = 0;
    while i < keys.len()
        invariant
            ks == int_keys(keys@),
            ks.len() == keys@.len(),
            0 <= i <= keys@.len(),
            index_to_int(best) == spec_first_argmax(ks.subrange(0, i as int), floor as int),
            best matches Some(b) ==> b < i && ks[b as int] == Some(best_key as int),
        decreases keys.len() - i,
    {
        let ghost next = ks.subrange(0, i as int + 1);
        assert(next.drop_last() =~= ks.subrange(0, i as int));
        assert(next[i as int] == ks[i as int]);
        if let Some(b) = best {
            assert(next[b as int] == ks[b as int]);
        }
        match keys[i] {
            Some(k) => {
                if k >= floor {
                    match best {
                        None => {
                            best = Some(i);
                            best_key = k;
                        },
                        Some(_) => {
                            if k > best_key {
                                best = Some(i);
                                best_key = k;
                            }
                        },
                    }
                }
            },
            None => {},
        }
        i = i + 1;
    }
    assert(ks.subrange(0, keys@.len() as int) =~= ks);
    proof {
        lemma_first_argmax_characterized(ks, floor as int);
    }
    best
}

// ---------------------------------------------------------------------------
// Ally dispel (Dispel Magic, Cleanse)
// ---------------------------------------------------------------------------

/// Whether an aura on an ally qualifies for removal: magic-dispellable, or a
/// cleansable poison when the dispel is Cleanse.
pub open spec fn dispel_qualifies(a: AuraInfo, removes_poison: bool) -> bool {
    a.can_be_dispelled || (removes_poison && a.is_cleansable_poison)
}

/// The dispel priority an aura scores: cleansable poisons rate 50 (worth a
/// maintenance cleanse, but not urgent); everything else its ladder priority.
pub open spec fn aura_dispel_score(a: AuraInfo) -> int {
    if a.is_cleansable_poison {
        50
    } else {
        spec_dispel_priority(a.effect_type)
    }
}

/// `r` is the highest score among the qualifying auras, or -1 when none
/// qualifies.
pub open spec fn is_best_dispel_score(auras: Seq<AuraInfo>, removes_poison: bool, r: int) -> bool {
    &&& r >= -1
    &&& forall|k: int|
        0 <= k < auras.len() && dispel_qualifies(#[trigger] auras[k], removes_poison) ==> aura_dispel_score(
            auras[k],
        ) <= r
    &&& r == -1 || exists|k: int|
        0 <= k < auras.len() && dispel_qualifies(#[trigger] auras[k], removes_poison)
            && aura_dispel_score(auras[k]) == r
}

/// Scan the auras keeping the highest qualifying score, starting from -1.
pub open spec fn spec_best_dispel_score(auras: Seq<AuraInfo>, removes_poison: bool) -> int
    decreases auras.len(),
{
    if auras.len() == 0 {
        -1
    } else {
        let b = spec_best_dispel_score(auras.drop_last(), removes_poison);
        let a = auras.last();
        if dispel_qualifies(a, removes_poison) && aura_dispel_score(a) > b {
            aura_dispel_score(a)
        } else {
            b
        }
    }
}

/// The scan yields the highest qualifying score, or -1 when nothing
/// qualifies.
pub proof fn lemma_best_dispel_score_characterized(auras: Seq<AuraInfo>, removes_poison: bool)
    ensures
        is_best_dispel_score(auras, removes_poison, spec_best_dispel_score(auras, removes_poison)),
    decreases auras.len(),
{
    if auras.len() > 0 {
        let prev = auras.drop_last();
        lemma_best_dispel_score_characterized(prev, removes_poison);
        assert(forall|j: int| 0 <= j < prev.len() ==> prev[j] == auras[j]);
        let b = spec_best_dispel_score(prev, removes_poison);
        if b != -1 && spec_best_dispel_score(auras, removes_poison) == b {
            let w = choose|w: int|
                0 <= w < prev.len() && dispel_qualifies(#[trigger] prev[w], removes_poison)
                    && aura_dispel_score(prev[w]) == b;
            assert(auras[w] == prev[w]);
        }
    }
}

/// Highest dispel score among the auras a dispel could remove, or -1.
pub fn best_dispel_score(auras: &Vec<AuraInfo>, removes_poison: bool) -> (r: i32)
    ensures
        r == spec_best_dispel_score(auras@, removes_poison),
        -1 <= r <= 100,
{
    let mut highest: i32 = -1;
    let mut k: usize = 0;
    while k < auras.len()
        invariant
            0 <= k <= auras@.len(),
            highest == spec_best_dispel_score(auras@.subrange(0, k as int), removes_poison),
            -1 <= highest <= 100,
        decreases auras.len() - k,
    {
        let a = auras[k];
        let ghost next = auras@.subrange(0, k as int + 1);
        assert(next.drop_last() =~= auras@.subrange(0, k as int));
        assert(next.last() == a);
        if a.can_be_dispelled || (removes_poison && a.is_cleansable_poison) {
            let priority = if a.is_cleansable_poison {
                50
            } else {
                dispel_priority(a.effect_type)
            };
            proof {
                crate::aura::lemma_priorities_bounded(a.effect_type);
            }
            if priority > highest {
                highest = priority;
            }
        }
        k = k + 1;
    }
    assert(auras@.subrange(0, auras@.len() as int) =~= auras@);
    highest
}

/// An ally a dispel could be aimed at: a non-pet member of `my_team` that the
/// caller found alive and within the dispel's range, with an aura entry.
pub open spec fn dispel_candidate(ctx: CombatContext, c: CombatantInfo, my_team: u8, reachable: Seq<u64>) -> bool {
    c.team == my_team && !c.is_pet && reachable.contains(c.entity) && ctx.spec_auras(c.entity) is Some
}

/// The score key of each snapshot entry for the ally dispel: a candidate's
/// best dispel score, nothing for everyone else.
pub open spec fn dispel_keys(
    ctx: CombatContext,
    my_team: u8,
    reachable: Seq<u64>,
    removes_poison: bool,
) -> Seq<Option<int>> {
    Seq::new(
        ctx.combatants@.len(),
        |j: int|
            if dispel_candidate(ctx, ctx.combatants@[j], my_team, reachable) {
                Some(spec_best_dispel_score(ctx.spec_auras(ctx.combatants@[j].entity)->0, removes_poison))
            } else {
                None
            },
    )
}

/// The ally the dispel goes to: the entity at the first index of the
/// highest-scoring candidate at or above `min_priority`.
pub open spec fn spec_dispel_target(
    ctx: CombatContext,
    my_team: u8,
    reachable: Seq<u64>,
    removes_poison: bool,
    min_priority: int,
) -> Option<u64> {
    match spec_first_argmax(dispel_keys(ctx, my_team, reachable, removes_poison), min_priority) {
        Some(i) => Some(ctx.combatants@[i].entity),
        None => None,
    }
}

/// What the ally-dispel decision came to.
#[derive(Clone, Copy, Debug, PartialEq, Eq, Structural)]
pub enum DispelDecision {
    /// The dispel's spell school is locked out, or the caster is silenced and
    /// the dispel costs mana.
    SilencedOrLocked,
    /// Not enough mana for the dispel.
    InsufficientMana,
    /// No ally carries a debuff at or above the priority floor.
    NoValidTarget,
    /// Dispel this ally.
    Cast(u64),
}

/// The ally a dispel should be aimed at: among candidates (alive non-pet
/// allies in range with an aura entry), the first in entity order whose best
/// removable debuff scores highest, provided that score reaches
/// `min_priority`.
pub fn select_dispel_target(
    ctx: &CombatContext,
    my_team: u8,
    reachable: &Vec<u64>,
    removes_poison: bool,
    min_priority: i32,
) -> (r: Option<u64>)
    ensures
        r == spec_dispel_target(*ctx, my_team, reachable@, removes_poison, min_priority as int),
{
    let ghost target_keys = dispel_keys(*ctx, my_team, reachable@, removes_poison);
    let mut keys: Vec<Option<i64>> = Vec::new();
    let mut i: usize = 0;
    while i < ctx.combatants.len()
        invariant
            target_keys == dispel_keys(*ctx, my_team, reachable@, removes_poison),
            0 <= i <= ctx.combatants@.len(),
            keys@.len() == i,
            forall|j: int| 0 <= j < i ==> #[trigger] int_keys(keys@)[j] == target_keys[j],
        decreases ctx.combatants.len() - i,
    {
        let c = ctx.combatants[i];
        let mut key: Option<i64> = None;
        if c.team == my_team && !c.is_pet && contains_id(reachable, c.entity) {
            match ctx.auras_index(c.entity) {
                Some(ix) => {
                    let score = best_dispel_score(&ctx.active_auras[ix].auras, removes_poison);
                    key = Some(score as i64);
                },
                None => {},
            }
        }
        let ghost old_keys = keys@;
        keys.push(key);
        assert forall|j: int| 0 <= j < i + 1 implies #[trigger] int_keys(keys@)[j] == target_keys[j] by {
            if j < i {
                assert(keys@[j] == old_keys[j]);
                assert(int_keys(old_keys)[j] == target_keys[j]);
            }
        }
        i = i + 1;
    }
    assert(int_keys(keys@) =~= target_keys);
    let best = first_argmax(&keys, min_priority as i64);
    match best {
        Some(b) => Some(ctx.combatants[b].entity),
        None => None,
    }
}

/// The ally-dispel decision: the lockout and silence gates, then the mana
/// gate, then target selection.
pub fn decide_dispel(
    ctx: &CombatContext,
    my_team: u8,
    school_locked: bool,
    silenced: bool,
    costs_mana: bool,
    affordable: bool,
    reachable: &Vec<u64>,
    removes_poison: bool,
    min_priority: i32,
) -> (r: DispelDecision)
    ensures
        (school_locked || (silenced && costs_mana)) ==> r == DispelDecision::SilencedOrLocked,
        !(school_locked || (silenced && costs_mana)) && !affordable ==> r
            == DispelDecision::InsufficientMana,
        !(school_locked || (silenced && costs_mana)) && affordable ==> r == match spec_dispel_target(
            *ctx,
            my_team,
            reachable@,
            removes_poison,
            min_priority as int,
        ) {
            Some(e) => DispelDecision::Cast(e),
            None => DispelDecision::NoValidTarget,
        },
{
    if school_locked {
        return DispelDecision::SilencedOrLocked;
    }
    if silenced && costs_mana {
        return DispelDecision::SilencedOrLocked;
    }
    if !affordable {
        return DispelDecision::InsufficientMana;
    }
    match select_dispel_target(ctx, my_team, reachable, removes_poison, min_priority) {
        Some(e) => DispelDecision::Cast(e),
        None => DispelDecision::NoValidTarget,
    }
}



// ---------------------------------------------------------------------------
// Offensive purge (the Shaman's Purge)
// ---------------------------------------------------------------------------

/// Each aura's purge key: its purge priority when Purge can strip it.
pub open spec fn purge_aura_keys(auras: Seq<AuraInfo>) -> Seq<Option<int>> {
    Seq::new(
        auras.len(),
        |k: int|
            if auras[k].can_be_purged {
                Some(spec_purge_priority(auras[k].effect_type))
            } else {
                None
            },
    )
}

/// An enemy Purge could be aimed at: an alive non-pet member of another team
/// that the caller found within Purge range, with an aura entry.
pub open spec fn purge_candidate(ctx: CombatContext, c: CombatantInfo, my_team: u8, reachable: Seq<u64>) -> bool {
    c.team != my_team && c.is_alive && !c.is_pet && reachable.contains(c.entity)
        && ctx.spec_auras(c.entity) is Some
}

/// The index of the aura Purge would strip from `c`: the first purgeable aura
/// of the highest purge priority.
pub open spec fn purge_aura_index(ctx: CombatContext, c: CombatantInfo) -> Option<int> {
    spec_first_argmax(purge_aura_keys(ctx.spec_auras(c.entity)->0), 0)
}

/// An enemy's purge key: twice the priority of its best purgeable buff, plus
/// one if it is the enemy healer — so a higher priority wins, and the healer
/// wins a tie. Units without a purgeable buff at or above the purge floor get
/// no key.
pub open spec fn purge_keys(ctx: CombatContext, my_team: u8, reachable: Seq<u64>, healer: Option<u64>) -> Seq<Option<int>> {
    Seq::new(
        ctx.combatants@.len(),
        |j: int|
            {
                let c = ctx.combatants@[j];
                if purge_candidate(ctx, c, my_team, reachable) && purge_aura_index(ctx, c) is Some {
                    let b = purge_aura_index(ctx, c)->0;
                    let prio = spec_purge_priority(ctx.spec_auras(c.entity)->0[b].effect_type);
                    if prio >= PURGE_MIN_PRIORITY {
                        Some(2 * prio + if healer == Some(c.entity) { 1int } else { 0int })
                    } else {
                        None
                    }
                } else {
                    None
                }
            },
    )
}

/// What Purge should strip, and from whom.
#[derive(Clone, Copy, Debug, PartialEq, Eq, Structural)]
pub struct PurgeChoice {
    pub target: u64,
    pub aura: AuraType,
}

pub open spec fn spec_purge_choice(ctx: CombatContext, my_team: u8, reachable: Seq<u64>) -> Option<PurgeChoice> {
    match spec_first_argmax(purge_keys(ctx, my_team, reachable, ctx.spec_enemy_healer()), 0) {
        Some(i) => {
            let c = ctx.combatants@[i];
            Some(
                PurgeChoice {
                    target: c.entity,
                    aura: ctx.spec_auras(c.entity)->0[purge_aura_index(ctx, c)->0].effect_type,
                },
            )
        },
        None => None,
    }
}

/// Purge target selection: among alive non-pet enemies in range, the one
/// whose most valuable purgeable buff has the highest priority — at least
/// `PURGE_MIN_PRIORITY` — preferring the enemy healer on a tie, then the
/// lowest entity. Returns that enemy and the buff to strip (the first aura
/// of that priority on it).
pub fn select_purge_target(ctx: &CombatContext, my_team: u8, reachable: &Vec<u64>) -> (r: Option<
    PurgeChoice,
>)
    ensures
        r == spec_purge_choice(*ctx, my_team, reachable@),
{
    let healer = ctx.enemy_healer();
    let ghost target_keys = purge_keys(*ctx, my_team, reachable@, healer);
    let mut keys: Vec<Option<i64>> = Vec::new();
    let mut chosen: Vec<AuraType> = Vec::new();
    let mut i: usize = 0;
    while i < ctx.combatants.len()
        invariant
            healer == ctx.spec_enemy_healer(),
            target_keys == purge_keys(*ctx, my_team, reachable@, healer),
            0 <= i <= ctx.combatants@.len(),
            keys@.len() == i,
            chosen@.len() == i,
            forall|j: int| 0 <= j < i ==> #[trigger] int_keys(keys@)[j] == target_keys[j],
            forall|j: int|
                0 <= j < i && #[trigger] keys@[j] is Some ==> chosen@[j] == ctx.spec_auras(
                    ctx.combatants@[j].entity,
                )->0[purge_aura_index(*ctx, ctx.combatants@[j])->0].effect_type,
        decreases ctx.combatants.len() - i,
    {
        let c = ctx.combatants[i];
        let mut key: Option<i64> = None;
        let mut aura = AuraType::Absorb;
        if c.team != my_team && c.is_alive && !c.is_pet && contains_id(reachable, c.entity) {
            match ctx.auras_index(c.entity) {
                Some(ix) => {
                    let auras = &ctx.active_auras[ix].auras;
                    let mut aura_keys: Vec<Option<i64>> = Vec::new();
                    let mut k: usize = 0;
                    while k < auras.len()
                        invariant
                            0 <= k <= auras@.len(),
                            aura_keys@.len() == k,
                            forall|q: int|
                                0 <= q < k ==> #[trigger] int_keys(aura_keys@)[q] == purge_aura_keys(
                                    auras@,
                                )[q],
                        decreases auras.len() - k,
                    {
                        let ghost old_keys = aura_keys@;
                        let a = auras[k];
                        if a.can_be_purged {
                            aura_keys.push(Some(purge_priority(a.effect_type) as i64));
                        } else {
                            aura_keys.push(None);
                        }
                        assert forall|q: int| 0 <= q < k + 1 implies #[trigger] int_keys(aura_keys@)[q]
                            == purge_aura_keys(auras@)[q] by {
                            if q < k {
                                assert(aura_keys@[q] == old_keys[q]);
                                assert(int_keys(old_keys)[q] == purge_aura_keys(auras@)[q]);
                            }
                        }
                        k = k + 1;
                    }
                    assert(int_keys(aura_keys@) =~= purge_aura_keys(auras@));
                    match first_argmax(&aura_keys, 0) {
                        Some(b) => {
                            let prio = purge_priority(auras[b].effect_type);
                            if prio >= PURGE_MIN_PRIORITY {
                                proof {
                                    crate::aura::lemma_priorities_bounded(auras@[b as int].effect_type);
                                }
                                let bonus: i64 = if healer == Some(c.entity) { 1 } else { 0 };
                                key = Some(2 * (prio as i64) + bonus);
                                aura = auras[b].effect_type;
                            }
                        },
                        None => {},
                    }
                },
                None => {},
            }
        }
        let ghost old_keys = keys@;
        let ghost old_chosen = chosen@;
        keys.push(key);
        chosen.push(aura);
        assert forall|j: int| 0 <= j < i + 1 implies #[trigger] int_keys(keys@)[j] == target_keys[j] by {
            if j < i {
                assert(keys@[j] == old_keys[j]);
                assert(int_keys(old_keys)[j] == target_keys[j]);
            }
        }
        assert forall|j: int|
            0 <= j < i + 1 && #[trigger] keys@[j] is Some implies chosen@[j] == ctx.spec_auras(
                ctx.combatants@[j].entity,
            )->0[purge_aura_index(*ctx, ctx.combatants@[j])->0].effect_type by {
            if j < i {
                assert(keys@[j] == old_keys[j]);
                assert(chosen@[j] == old_chosen[j]);
            }
        }
        i = i + 1;
    }
    assert(int_keys(keys@) =~= target_keys);
    let best = first_argmax(&keys, 0);
    match best {
        Some(b) => {
            proof {
                lemma_first_argmax_characterized(target_keys, 0);
                assert(int_keys(keys@)[b as int] == target_keys[b as int]);
            }
            Some(PurgeChoice { target: ctx.combatants[b].entity, aura: chosen[b] })
        },
        None => None,
    }
}


// ---------------------------------------------------------------------------
// Laws of the two selections
// ---------------------------------------------------------------------------

/// The dispel goes to the highest-scoring candidate: its best removable
/// debuff reaches `min_priority`, no candidate outscores it, and every
/// candidate before it in entity order scores strictly less. When no target
/// is chosen, every candidate scores below `min_priority`.
pub proof fn lemma_dispel_target_is_best_candidate(
    ctx: CombatContext,
    my_team: u8,
    reachable: Seq<u64>,
    removes_poison: bool,
    min_priority: int,
)
    ensures
        ({
            let keys = dispel_keys(ctx, my_team, reachable, removes_poison);
            match spec_first_argmax(keys, min_priority) {
                Some(i) => {
                    &&& dispel_candidate(ctx, ctx.combatants@[i], my_team, reachable)
                    &&& spec_dispel_target(ctx, my_team, reachable, removes_poison, min_priority)
                        == Some(ctx.combatants@[i].entity)
                    &&& keys[i]->0 >= min_priority
                    &&& forall|j: int|
                        0 <= j < keys.len() && dispel_candidate(
                            ctx,
                            #[trigger] ctx.combatants@[j],
                            my_team,
                            reachable,
                        ) ==> keys[j]->0 <= keys[i]->0 || keys[j]->0 < min_priority
                    &&& forall|j: int|
                        0 <= j < i && dispel_candidate(
                            ctx,
                            #[trigger] ctx.combatants@[j],
                            my_team,
                            reachable,
                        ) ==> keys[j]->0 < keys[i]->0 || keys[j]->0 < min_priority
                },
                None => {
                    &&& spec_dispel_target(ctx, my_team, reachable, removes_poison, min_priority)
                        is None
                    &&& forall|j: int|
                        0 <= j < keys.len() && dispel_candidate(
                            ctx,
                            #[trigger] ctx.combatants@[j],
                            my_team,
                            reachable,
                        ) ==> keys[j]->0 < min_priority
                },
            }
        }),
{
    let keys = dispel_keys(ctx, my_team, reachable, removes_poison);
    lemma_first_argmax_characterized(keys, min_priority);
    assert forall|j: int| 0 <= j < keys.len() implies (#[trigger] keys[j] is Some)
        == dispel_candidate(ctx, ctx.combatants@[j], my_team, reachable) by {}
}

/// Purge never strips a buff below the purge floor; the chosen buff is a
/// purgeable one of the highest priority on its bearer; no other candidate
/// offers a higher-priority buff; and on a tie in priority the enemy healer
/// is preferred.
pub proof fn lemma_purge_choice_is_best(ctx: CombatContext, my_team: u8, reachable: Seq<u64>)
    ensures
        ({
            let healer = ctx.spec_enemy_healer();
            let keys = purge_keys(ctx, my_team, reachable, healer);
            match spec_first_argmax(keys, 0) {
                Some(i) => {
                    let c = ctx.combatants@[i];
                    let auras = ctx.spec_auras(c.entity)->0;
                    let b = purge_aura_index(ctx, c)->0;
                    let p = spec_purge_priority(auras[b].effect_type);
                    &&& purge_candidate(ctx, c, my_team, reachable)
                    &&& spec_purge_choice(ctx, my_team, reachable) == Some(
                        PurgeChoice { target: c.entity, aura: auras[b].effect_type },
                    )
                    &&& p >= PURGE_MIN_PRIORITY
                    &&& auras[b].can_be_purged
                    &&& forall|k: int|
                        0 <= k < auras.len() && (#[trigger] auras[k]).can_be_purged
                            ==> spec_purge_priority(auras[k].effect_type) <= p
                    &&& forall|j: int|
                        0 <= j < keys.len() && (#[trigger] keys[j]) is Some ==> {
                            let cj = ctx.combatants@[j];
                            let pj = spec_purge_priority(
                                ctx.spec_auras(cj.entity)->0[purge_aura_index(ctx, cj)->0].effect_type,
                            );
                            &&& pj <= p
                            &&& (pj == p && healer == Some(cj.entity)) ==> healer == Some(c.entity)
                        }
                },
                None => spec_purge_choice(ctx, my_team, reachable) is None,
            }
        }),
{
    let healer = ctx.spec_enemy_healer();
    let keys = purge_keys(ctx, my_team, reachable, healer);
    lemma_first_argmax_characterized(keys, 0);
    if let Some(i) = spec_first_argmax(keys, 0) {
        let c = ctx.combatants@[i];
        let auras = ctx.spec_auras(c.entity)->0;
        let ak = purge_aura_keys(auras);
        lemma_first_argmax_characterized(ak, 0);
        let b = purge_aura_index(ctx, c)->0;
        assert(ak[b] is Some);
        assert forall|k: int| 0 <= k < auras.len() && (#[trigger] auras[k]).can_be_purged implies
            spec_purge_priority(auras[k].effect_type) <= spec_purge_priority(
            auras[b].effect_type,
        ) by {
            assert(ak[k] == Some(spec_purge_priority(auras[k].effect_type)));
            crate::aura::lemma_priorities_bounded(auras[k].effect_type);
        }
    }
}

} // verus!
