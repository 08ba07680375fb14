//! A per-frame snapshot of the match, as the class AIs read it, and the
//! shared queries over it.
//!
//! The snapshot holds, for every combatant in ascending entity order, the
//! facts the decision logic reads — team, class, liveness, stealth, current
//! target, pet identity — and, per entity, the auras on it. Health, mana and
//! positions stay with the caller, which reduces them to the booleans a query
//! needs. Lookups return the first entry with the entity id; on a snapshot in
//! ascending order (see [`CombatContext::spec_wf`]) that is the unique one, as
//! with the ordered map the snapshot is built from.
use vstd::prelude::*;
use crate::aura::{
    AuraType, denies_actions, is_crowd_control, spec_denies_actions, spec_is_crowd_control,
};
use crate::roster::{CharacterClass, PetType};
use crate::cc_value::AttackerMix;

verus! {

broadcast use vstd::seq_lib::group_seq_properties;

/// The decision-relevant part of one combatant's per-frame snapshot.
#[derive(Clone, Copy, Debug, PartialEq, Eq, Structural)]
pub struct CombatantInfo {
    pub entity: u64,
    pub team: u8,
    pub slot: u8,
    /// A pet carries its owner's class.
    pub class: CharacterClass,
    pub is_alive: bool,
    pub stealthed: bool,
    pub target: Option<u64>,
    pub is_pet: bool,
    pub pet_type: Option<PetType>,
    /// For a pet owner, its pet's entity.
    pub pet: Option<u64>,
}

impl CombatantInfo {
    /// Does this unit have to stand in melee reach to deal its damage? Every
    /// pet is a melee auto-attacker, whatever its owner's class.
    pub fn is_melee_attacker(&self) -> (r: bool)
        ensures
            r == (self.is_pet || self.class.spec_is_melee()),
    {
        self.is_pet || self.class.is_melee()
    }
}

/// The decision-relevant part of one active aura.
#[derive(Clone, Copy, Debug, PartialEq, Eq, Structural)]
pub struct AuraInfo {
    pub effect_type: AuraType,
    /// The entity that applied the aura, if known.
    pub caster: Option<u64>,
    /// The aura breaks on any damage (its break threshold is zero).
    pub breaks_on_any_damage: bool,
    /// A magic dispel (Dispel Magic, Cleanse, Devour Magic) can remove it.
    pub can_be_dispelled: bool,
    /// Purge can strip it (a beneficial aura on an enemy).
    pub can_be_purged: bool,
    /// A poison that Cleanse also removes.
    pub is_cleansable_poison: bool,
    /// The ability that applied it, where a decision tells it apart by name.
    pub named: Option<NamedAura>,
}

/// Abilities whose auras the decisions recognise by name (the aura type
/// alone does not tell a Serpent Sting from another DoT).
#[derive(Clone, Copy, Debug, PartialEq, Eq, Structural)]
pub enum NamedAura {
    SerpentSting,
    Corruption,
    UnstableAffliction,
    Immolate,
    PowerWordShield,
}

/// The auras active on one entity.
#[derive(Clone, Debug)]
pub struct EntityAuras {
    pub entity: u64,
    pub auras: Vec<AuraInfo>,
}

/// The dispel a unit would answer a crowd control with.
#[derive(Clone, Copy, Debug, PartialEq, Eq, Structural)]
pub enum DispelAbility {
    /// The Felhunter's Devour Magic.
    DevourMagic,
    /// The Priest's Dispel Magic.
    DispelMagic,
    /// The Paladin's Cleanse.
    PaladinCleanse,
}

/// The shared, read-only view of the match one combatant decides from.
#[derive(Clone, Debug)]
pub struct CombatContext {
    /// Every combatant, pets included, in ascending entity order.
    pub combatants: Vec<CombatantInfo>,
    /// The auras on each entity, in ascending entity order.
    pub active_auras: Vec<EntityAuras>,
    /// Entities whose own dispel ability is currently on cooldown.
    pub dispels_on_cooldown: Vec<u64>,
    /// The combatant making the decision.
    pub self_entity: u64,
}

/// First element of `s` whose key is `e`.
pub open spec fn find_by<A>(s: Seq<A>, key: spec_fn(A) -> u64, e: u64) -> Option<A>
    decreases s.len(),
{
    if s.len() == 0 {
        None
    } else if key(s[0]) == e {
        Some(s[0])
    } else {
        find_by(s.drop_first(), key, e)
    }
}

pub open spec fn info_key() -> spec_fn(CombatantInfo) -> u64 {
    |c: CombatantInfo| c.entity
}

pub open spec fn auras_key() -> spec_fn(EntityAuras) -> u64 {
    |a: EntityAuras| a.entity
}

/// The snapshot entry of entity `e`.
pub open spec fn info_of(s: Seq<CombatantInfo>, e: u64) -> Option<CombatantInfo> {
    find_by(s, info_key(), e)
}

/// The auras on entity `e`, if it has an aura entry.
pub open spec fn auras_of(s: Seq<EntityAuras>, e: u64) -> Option<Seq<AuraInfo>> {
    match find_by(s, auras_key(), e) {
        Some(ea) => Some(ea.auras@),
        None => None,
    }
}

/// Some aura in `auras` satisfies `p`.
pub open spec fn any_aura(auras: Seq<AuraInfo>, p: spec_fn(AuraInfo) -> bool) -> bool {
    exists|k: int| 0 <= k < auras.len() && #[trigger] p(auras[k])
}

/// The entity has an aura entry, and some aura in it satisfies `p`.
pub open spec fn some_aura(auras: Option<Seq<AuraInfo>>, p: spec_fn(AuraInfo) -> bool) -> bool {
    match auras {
        Some(a) => any_aura(a, p),
        None => false,
    }
}

pub open spec fn effect_is(t: AuraType) -> spec_fn(AuraInfo) -> bool {
    |a: AuraInfo| a.effect_type == t
}

pub open spec fn denies_actions_aura() -> spec_fn(AuraInfo) -> bool {
    |a: AuraInfo| spec_denies_actions(a.effect_type)
}

pub open spec fn crowd_control_aura() -> spec_fn(AuraInfo) -> bool {
    |a: AuraInfo| spec_is_crowd_control(a.effect_type)
}

/// `find_by` is the first match: it returns `s[i]` when `i` is the first
/// index with key `e`, and nothing when no index has it.
pub proof fn lemma_find_by_first<A>(s: Seq<A>, key: spec_fn(A) -> u64, e: u64, i: int)
    requires
        0 <= i <= s.len(),
        forall|j: int| 0 <= j < i ==> key(#[trigger] s[j]) != e,
        i < s.len() ==> key(s[i]) == e,
    ensures
        i < s.len() ==> find_by(s, key, e) == Some(s[i]),
        i == s.len() ==> find_by(s, key, e) is None,
    decreases s.len(),
{
    if s.len() > 0 && i > 0 {
        assert(key(s[0]) != e);
        assert forall|j: int| 0 <= j < i - 1 implies key(#[trigger] s.drop_first()[j]) != e by {
            assert(s.drop_first()[j] == s[j + 1]);
        }
        lemma_find_by_first(s.drop_first(), key, e, i - 1);
    }
}

/// On a strictly ascending sequence, the first match is the only match.
pub proof fn lemma_find_by_unique<A>(s: Seq<A>, key: spec_fn(A) -> u64, e: u64, i: int)
    requires
        forall|a: int, b: int| 0 <= a < b < s.len() ==> key(#[trigger] s[a]) < key(#[trigger] s[b]),
        0 <= i < s.len(),
        key(s[i]) == e,
    ensures
        find_by(s, key, e) == Some(s[i]),
{
    assert forall|j: int| 0 <= j < i implies key(#[trigger] s[j]) != e by {
        assert(key(s[j]) < key(s[i]));
    }
    lemma_find_by_first(s, key, e, i);
}

/// Filtering a prefix one element longer appends that element when it
/// passes.
pub proof fn lemma_filter_step<A>(s: Seq<A>, i: int, p: spec_fn(A) -> bool)
    requires
        0 <= i < s.len(),
    ensures
        s.subrange(0, i + 1).filter(p) == if p(s[i]) {
            s.subrange(0, i).filter(p).push(s[i])
        } else {
            s.subrange(0, i).filter(p)
        },
{
    assert(s.subrange(0, i + 1) =~= s.subrange(0, i).push(s[i]));
    s.subrange(0, i).lemma_filter_push(s[i], p);
}

/// First element of `s` satisfying `p`.
pub open spec fn first_where<A>(s: Seq<A>, p: spec_fn(A) -> bool) -> Option<A>
    decreases s.len(),
{
    if s.len() == 0 {
        None
    } else if p(s[0]) {
        Some(s[0])
    } else {
        first_where(s.drop_first(), p)
    }
}

/// `first_where` is the first match: it returns `s[i]` when `i` is the
/// first index satisfying `p`, and nothing when no index does.
pub proof fn lemma_first_where<A>(s: Seq<A>, p: spec_fn(A) -> bool, i: int)
    requires
        0 <= i <= s.len(),
        forall|j: int| 0 <= j < i ==> !p(#[trigger] s[j]),
        i < s.len() ==> p(s[i]),
    ensures
        i < s.len() ==> first_where(s, p) == Some(s[i]),
        i == s.len() ==> first_where(s, p) is None,
    decreases s.len(),
{
    if s.len() > 0 && i > 0 {
        assert(!p(s[0]));
        assert forall|j: int| 0 <= j < i - 1 implies !p(#[trigger] s.drop_first()[j]) by {
            assert(s.drop_first()[j] == s[j + 1]);
        }
        lemma_first_where(s.drop_first(), p, i - 1);
    }
}

/// What `first_where` returns satisfies the predicate and is an element of
/// the sequence.
pub proof fn lemma_first_where_satisfies<A>(s: Seq<A>, p: spec_fn(A) -> bool)
    ensures
        first_where(s, p) matches Some(a) ==> p(a) && s.contains(a),
    decreases s.len(),
{
    if s.len() > 0 {
        if p(s[0]) {
            assert(s[0] == s[0]);
        } else {
            lemma_first_where_satisfies(s.drop_first(), p);
            if let Some(a) = first_where(s.drop_first(), p) {
                let j = choose|j: int| 0 <= j < s.drop_first().len() && s.drop_first()[j] == a;
                assert(s[j + 1] == a);
            }
        }
    }
}

/// Alive non-pet members of any team other than `my_team`.
pub open spec fn enemy_pred(my_team: u8) -> spec_fn(CombatantInfo) -> bool {
    |c: CombatantInfo| c.team != my_team && c.is_alive && !c.is_pet
}

/// Alive members, pets included, of any team other than `my_team`.
pub open spec fn enemy_or_pet_pred(my_team: u8) -> spec_fn(CombatantInfo) -> bool {
    |c: CombatantInfo| c.team != my_team && c.is_alive
}

/// Alive non-pet members of `my_team`.
pub open spec fn ally_pred(my_team: u8) -> spec_fn(CombatantInfo) -> bool {
    |c: CombatantInfo| c.team == my_team && c.is_alive && !c.is_pet
}

/// Alive non-pet healers of any team other than `my_team`.
pub open spec fn enemy_healer_pred(my_team: u8) -> spec_fn(CombatantInfo) -> bool {
    |c: CombatantInfo| c.team != my_team && c.is_alive && !c.is_pet && c.class.spec_is_healer()
}

/// The dispel a unit would answer with: the Felhunter's Devour Magic, the
/// Priest's Dispel Magic, the Paladin's Cleanse; other pets and classes have
/// none.
pub open spec fn spec_dispel_ability_of(c: CombatantInfo) -> Option<DispelAbility> {
    if c.pet_type == Some(PetType::Felhunter) {
        Some(DispelAbility::DevourMagic)
    } else if c.is_pet {
        None
    } else if c.class == CharacterClass::Priest {
        Some(DispelAbility::DispelMagic)
    } else if c.class == CharacterClass::Paladin {
        Some(DispelAbility::PaladinCleanse)
    } else {
        None
    }
}

/// The dispel this unit would answer with, if any. Pets included — the
/// Felhunter's Devour Magic is the cheapest answer on the board.
pub fn dispel_ability_of(c: &CombatantInfo) -> (r: Option<DispelAbility>)
    ensures
        r == spec_dispel_ability_of(*c),
{
    if c.pet_type == Some(PetType::Felhunter) {
        return Some(DispelAbility::DevourMagic);
    }
    if c.is_pet {
        return None;
    }
    match c.class {
        CharacterClass::Priest => Some(DispelAbility::DispelMagic),
        CharacterClass::Paladin => Some(DispelAbility::PaladinCleanse),
        _ => None,
    }
}

impl CombatContext {
    /// Both sequences are in strictly ascending entity order, as iteration of
    /// the ordered maps they are built from yields them.
    pub open spec fn spec_wf(&self) -> bool {
        &&& forall|a: int, b: int|
            0 <= a < b < self.combatants@.len() ==> (#[trigger] self.combatants@[a]).entity
                < (#[trigger] self.combatants@[b]).entity
        &&& forall|a: int, b: int|
            0 <= a < b < self.active_auras@.len() ==> (#[trigger] self.active_auras@[a]).entity
                < (#[trigger] self.active_auras@[b]).entity
    }

    pub open spec fn spec_info(&self, e: u64) -> Option<CombatantInfo> {
        info_of(self.combatants@, e)
    }

    pub open spec fn spec_auras(&self, e: u64) -> Option<Seq<AuraInfo>> {
        auras_of(self.active_auras@, e)
    }

    /// The deciding unit's team, or 0 when it is missing from the snapshot.
    pub open spec fn spec_my_team(&self) -> u8 {
        match self.spec_info(self.self_entity) {
            Some(i) => i.team,
            None => 0,
        }
    }

    pub open spec fn spec_target_info(&self) -> Option<CombatantInfo> {
        match self.spec_info(self.self_entity) {
            Some(i) => match i.target {
                Some(t) => self.spec_info(t),
                None => None,
            },
            None => None,
        }
    }

    pub open spec fn spec_entity_has_aura(&self, e: u64, t: AuraType) -> bool {
        some_aura(self.spec_auras(e), effect_is(t))
    }

    /// Index of the snapshot entry of `e`.
    fn find_combatant(&self, e: u64) -> (r: Option<usize>)
        ensures
            r matches Some(i) ==> i < self.combatants@.len() && self.spec_info(e) == Some(
                self.combatants@[i as int],
            ),
            r is None ==> self.spec_info(e) is None,
    {
        let mut i: usize = 0;
        while i < self.combatants.len()
            invariant
                0 <= i <= self.combatants@.len(),
                forall|j: int| 0 <= j < i ==> (#[trigger] self.combatants@[j]).entity != e,
            decreases self.combatants.len() - i,
        {
            if self.combatants[i].entity == e {
                proof {
                    lemma_find_by_first(self.combatants@, info_key(), e, i as int);
                }
                return Some(i);
            }
            i = i + 1;
        }
        proof {
            lemma_find_by_first(self.combatants@, info_key(), e, i as int);
        }
        None
    }

    /// Index of the aura entry of `e` in `active_auras`.
    pub fn auras_index(&self, e: u64) -> (r: Option<usize>)
        ensures
            r matches Some(i) ==> i < self.active_auras@.len() && self.spec_auras(e) == Some(
                self.active_auras@[i as int].auras@,
            ),
            r is None ==> self.spec_auras(e) is None,
    {
        let mut i: usize = 0;
        while i < self.active_auras.len()
            invariant
                0 <= i <= self.active_auras@.len(),
                forall|j: int| 0 <= j < i ==> (#[trigger] self.active_auras@[j]).entity != e,
            decreases self.active_auras.len() - i,
        {
            if self.active_auras[i].entity == e {
                proof {
                    lemma_find_by_first(self.active_auras@, auras_key(), e, i as int);
                }
                return Some(i);
            }
            i = i + 1;
        }
        proof {
            lemma_find_by_first(self.active_auras@, auras_key(), e, i as int);
        }
        None
    }

    /// The snapshot entry of entity `e`, if present.
    pub fn info(&self, e: u64) -> (r: Option<CombatantInfo>)
        ensures
            r == self.spec_info(e),
    {
        match self.find_combatant(e) {
            Some(i) => Some(self.combatants[i]),
            None => None,
        }
    }

    /// Get info about self.
    pub fn self_info(&self) -> (r: Option<CombatantInfo>)
        ensures
            r == self.spec_info(self.self_entity),
    {
        self.info(self.self_entity)
    }

    /// Get info about the deciding unit's target, if it has one in the
    /// snapshot.
    pub fn target_info(&self) -> (r: Option<CombatantInfo>)
        ensures
            r == self.spec_target_info(),
    {
        match self.self_info() {
            Some(me) => match me.target {
                Some(t) => self.info(t),
                None => None,
            },
            None => None,
        }
    }

    fn my_team(&self) -> (r: u8)
        ensures
            r == self.spec_my_team(),
    {
        match self.self_info() {
            Some(i) => i.team,
            None => 0,
        }
    }

    /// Check whether entity `e` carries an aura of type `t`.
    pub fn entity_has_aura(&self, e: u64, t: AuraType) -> (r: bool)
        ensures
            r == self.spec_entity_has_aura(e, t),
    {
        let idx = self.auras_index(e);
        match idx {
            None => false,
            Some(ix) => {
                let auras = &self.active_auras[ix].auras;
                let ghost p = effect_is(t);
                let mut k: usize = 0;
                while k < auras.len()
                    invariant
                        p == effect_is(t),
                        self.spec_auras(e) == Some(auras@),
                        0 <= k <= auras@.len(),
                        forall|j: int| 0 <= j < k ==> !p(#[trigger] auras@[j]),
                    decreases auras.len() - k,
                {
                    if auras[k].effect_type == t {
                        assert(p(auras@[k as int]));
                        assert(any_aura(auras@, p));
                        return true;
                    }
                    k = k + 1;
                }
                false
            },
        }
    }

    /// Check if self has a specific aura type.
    pub fn has_aura(&self, t: AuraType) -> (r: bool)
        ensures
            r == self.spec_entity_has_aura(self.self_entity, t),
    {
        self.entity_has_aura(self.self_entity, t)
    }

    /// Check if the deciding unit's target has a specific aura type.
    pub fn target_has_aura(&self, t: AuraType) -> (r: bool)
        ensures
            r == match self.spec_target_info() {
                Some(info) => self.spec_entity_has_aura(info.entity, t),
                None => false,
            },
    {
        match self.target_info() {
            Some(info) => self.entity_has_aura(info.entity, t),
            None => false,
        }
    }

    /// Whether some aura on `e` denies actions.
    fn entity_denied_actions(&self, e: u64) -> (r: bool)
        ensures
            r == some_aura(self.spec_auras(e), denies_actions_aura()),
    {
        match self.auras_index(e) {
            None => false,
            Some(ix) => {
                let auras = &self.active_auras[ix].auras;
                let ghost p = denies_actions_aura();
                let mut k: usize = 0;
                while k < auras.len()
                    invariant
                        p == denies_actions_aura(),
                        self.spec_auras(e) == Some(auras@),
                        0 <= k <= auras@.len(),
                        forall|j: int| 0 <= j < k ==> !p(#[trigger] auras@[j]),
                    decreases auras.len() - k,
                {
                    if denies_actions(auras[k].effect_type) {
                        assert(p(auras@[k as int]));
                        assert(any_aura(auras@, p));
                        return true;
                    }
                    k = k + 1;
                }
                false
            },
        }
    }

    /// Check if self is incapacitated (stunned, feared, polymorphed or
    /// incapacitated).
    pub fn is_incapacitated(&self) -> (r: bool)
        ensures
            r == some_aura(self.spec_auras(self.self_entity), denies_actions_aura()),
    {
        self.entity_denied_actions(self.self_entity)
    }

    /// Check if an entity is currently crowd-controlled (Stun, Fear, Root,
    /// Polymorph or Incapacitate). Used to prevent CC overlap on targets.
    pub fn is_ccd(&self, e: u64) -> (r: bool)
        ensures
            r == some_aura(self.spec_auras(e), crowd_control_aura()),
    {
        match self.auras_index(e) {
            None => false,
            Some(ix) => {
                let auras = &self.active_auras[ix].auras;
                let ghost p = crowd_control_aura();
                let mut k: usize = 0;
                while k < auras.len()
                    invariant
                        p == crowd_control_aura(),
                        self.spec_auras(e) == Some(auras@),
                        0 <= k <= auras@.len(),
                        forall|j: int| 0 <= j < k ==> !p(#[trigger] auras@[j]),
                    decreases auras.len() - k,
                {
                    if is_crowd_control(auras[k].effect_type) {
                        assert(p(auras@[k as int]));
                        assert(any_aura(auras@, p));
                        return true;
                    }
                    k = k + 1;
                }
                false
            },
        }
    }

    /// Check if an entity has damage immunity (Divine Shield).
    pub fn entity_is_immune(&self, e: u64) -> (r: bool)
        ensures
            r == self.spec_entity_has_aura(e, AuraType::DamageImmunity),
    {
        self.entity_has_aura(e, AuraType::DamageImmunity)
    }

    /// The first alive non-pet enemy healer in entity order, if any.
    pub open spec fn spec_enemy_healer(&self) -> Option<u64> {
        match first_where(self.combatants@, enemy_healer_pred(self.spec_my_team())) {
            Some(c) => Some(c.entity),
            None => None,
        }
    }

    /// The enemy healer — first alive non-pet healer of another team in
    /// entity order, if any.
    pub fn enemy_healer(&self) -> (r: Option<u64>)
        ensures
            r == self.spec_enemy_healer(),
    {
        let my_team = self.my_team();
        let ghost p = enemy_healer_pred(my_team);
        let mut i: usize = 0;
        while i < self.combatants.len()
            invariant
                p == enemy_healer_pred(my_team),
                my_team == self.spec_my_team(),
                0 <= i <= self.combatants@.len(),
                forall|j: int| 0 <= j < i ==> !p(#[trigger] self.combatants@[j]),
            decreases self.combatants.len() - i,
        {
            let c = self.combatants[i];
            if c.team != my_team && c.is_alive && !c.is_pet && c.class.is_healer() {
                proof {
                    lemma_first_where(self.combatants@, p, i as int);
                }
                return Some(c.entity);
            }
            i = i + 1;
        }
        proof {
            lemma_first_where(self.combatants@, p, i as int);
        }
        None
    }

    /// True when a living enemy healer exists and is currently unable to
    /// cast: it carries a Stun, Fear, Polymorph or Incapacitate. A rooted
    /// healer still heals, so Root does not count.
    pub fn enemy_healer_is_cced(&self) -> (r: bool)
        ensures
            r == match self.spec_enemy_healer() {
                Some(h) => some_aura(self.spec_auras(h), denies_actions_aura()),
                None => false,
            },
    {
        match self.enemy_healer() {
            Some(h) => self.entity_denied_actions(h),
            None => false,
        }
    }

    /// The combatants, in entity order, that satisfy the member filter `kind`
    /// relative to `my_team`.
    fn filter_members(&self, my_team: u8, kind: u8) -> (r: Vec<CombatantInfo>)
        requires
            kind <= 2,
        ensures
            kind == 0 ==> r@ == self.combatants@.filter(enemy_pred(my_team)),
            kind == 1 ==> r@ == self.combatants@.filter(enemy_or_pet_pred(my_team)),
            kind == 2 ==> r@ == self.combatants@.filter(ally_pred(my_team)),
    {
        let ghost p = if kind == 0 {
            enemy_pred(my_team)
        } else if kind == 1 {
            enemy_or_pet_pred(my_team)
        } else {
            ally_pred(my_team)
        };
        let mut r: Vec<CombatantInfo> = Vec::new();
        let mut i: usize = 0;
        while i < self.combatants.len()
            invariant
                kind <= 2,
                p == if kind == 0 {
                    enemy_pred(my_team)
                } else if kind == 1 {
                    enemy_or_pet_pred(my_team)
                } else {
                    ally_pred(my_team)
                },
                0 <= i <= self.combatants@.len(),
                r@ == self.combatants@.subrange(0, i as int).filter(p),
            decreases self.combatants.len() - i,
        {
            let c = self.combatants[i];
            let keep = if kind == 0 {
                c.team != my_team && c.is_alive && !c.is_pet
            } else if kind == 1 {
                c.team != my_team && c.is_alive
            } else {
                c.team == my_team && c.is_alive && !c.is_pet
            };
            proof {
                lemma_filter_step(self.combatants@, i as int, p);
            }
            if keep {
                r.push(c);
            }
            i = i + 1;
        }
        assert(self.combatants@.subrange(0, self.combatants@.len() as int) =~= self.combatants@);
        r
    }

    /// All alive enemies (excluding pets), in entity order.
    pub fn alive_enemies(&self) -> (r: Vec<CombatantInfo>)
        ensures
            r@ == self.combatants@.filter(enemy_pred(self.spec_my_team())),
    {
        let my_team = self.my_team();
        self.filter_members(my_team, 0)
    }

    /// Alive enemies including pets — the candidate set for crowd-control
    /// valuation, in entity order.
    pub fn alive_enemies_including_pets(&self) -> (r: Vec<CombatantInfo>)
        ensures
            r@ == self.combatants@.filter(enemy_or_pet_pred(self.spec_my_team())),
    {
        let my_team = self.my_team();
        self.filter_members(my_team, 1)
    }

    /// All alive allies (including self, excluding pets), in entity order.
    pub fn alive_allies(&self) -> (r: Vec<CombatantInfo>)
        ensures
            r@ == self.combatants@.filter(ally_pred(self.spec_my_team())),
    {
        let my_team = self.my_team();
        self.filter_members(my_team, 2)
    }


    /// The entity Freezing Trap wants: the enemy healer, falling back to the
    /// kill target.
    pub fn freezing_trap_candidate(&self, fallback: u64) -> (r: u64)
        ensures
            r == match self.spec_enemy_healer() {
                Some(h) => h,
                None => fallback,
            },
    {
        match self.enemy_healer() {
            Some(h) => h,
            None => fallback,
        }
    }


    /// Alive units of any team other than `target_team` whose current target
    /// is `target`, and that attack from melee reach (`melee`) or not.
    pub open spec fn attacker_pred(&self, target: u64, target_team: u8, melee: bool) -> spec_fn(CombatantInfo) -> bool {
        |c: CombatantInfo|
            c.team != target_team && c.is_alive && c.target == Some(target) && (c.is_pet
                || c.class.spec_is_melee()) == melee
    }

    /// How many living enemies of `target_team` are pointed at `target`, by
    /// delivery mode. Pets count as melee attackers.
    pub fn attacker_mix_on(&self, target: u64, target_team: u8) -> (r: AttackerMix)
        requires
            self.combatants@.len() <= u32::MAX,
        ensures
            r.melee == self.combatants@.filter(self.attacker_pred(target, target_team, true)).len(),
            r.ranged == self.combatants@.filter(self.attacker_pred(target, target_team, false)).len(),
            r.melee + r.ranged <= self.combatants@.len(),
    {
        let ghost pm = self.attacker_pred(target, target_team, true);
        let ghost pr = self.attacker_pred(target, target_team, false);
        let ghost km: Seq<CombatantInfo> = Seq::empty();
        let ghost kr: Seq<CombatantInfo> = Seq::empty();
        let mut melee: u32 = 0;
        let mut ranged: u32 = 0;
        let mut i: usize = 0;
        while i < self.combatants.len()
            invariant
                pm == self.attacker_pred(target, target_team, true),
                pr == self.attacker_pred(target, target_team, false),
                self.combatants@.len() <= u32::MAX,
                0 <= i <= self.combatants@.len(),
                km == self.combatants@.subrange(0, i as int).filter(pm),
                kr == self.combatants@.subrange(0, i as int).filter(pr),
                melee == km.len(),
                ranged == kr.len(),
                melee + ranged <= i,
            decreases self.combatants.len() - i,
        {
            let c = self.combatants[i];
            proof {
                lemma_filter_step(self.combatants@, i as int, pm);
                lemma_filter_step(self.combatants@, i as int, pr);
            }
            if c.team != target_team && c.is_alive && c.target == Some(target) {
                if c.is_melee_attacker() {
                    melee = melee + 1;
                    proof {
                        km = km.push(c);
                    }
                } else {
                    ranged = ranged + 1;
                    proof {
                        kr = kr.push(c);
                    }
                }
            }
            i = i + 1;
        }
        assert(self.combatants@.subrange(0, self.combatants@.len() as int) =~= self.combatants@);
        AttackerMix { melee, ranged }
    }

    /// Auras that already hold a unit so a Polymorph would overlap: Stun,
    /// Fear, Root or Polymorph.
    pub open spec fn overlap_aura() -> spec_fn(AuraInfo) -> bool {
        |a: AuraInfo|
            a.effect_type == AuraType::Stun || a.effect_type == AuraType::Fear || a.effect_type
                == AuraType::Root || a.effect_type == AuraType::Polymorph
    }

    /// Alive non-pet enemies a Polymorph could be priced on: not damage-immune,
    /// not incapacitate-DR-immune (`dr_immune` lists those), and not already
    /// held by a Stun, Fear, Root or Polymorph. Pets are excluded.
    pub open spec fn polymorph_pred(&self, dr_immune: Seq<u64>) -> spec_fn(CombatantInfo) -> bool {
        |c: CombatantInfo|
            enemy_pred(self.spec_my_team())(c) && !self.spec_entity_has_aura(c.entity, AuraType::DamageImmunity)
                && !dr_immune.contains(c.entity) && !some_aura(self.spec_auras(c.entity), Self::overlap_aura())
    }

    /// Whether `e` is already held by a Stun, Fear, Root or Polymorph.
    pub fn entity_overlapped(&self, e: u64) -> (r: bool)
        ensures
            r == some_aura(self.spec_auras(e), Self::overlap_aura()),
    {
        match self.auras_index(e) {
            None => false,
            Some(ix) => {
                let auras = &self.active_auras[ix].auras;
                let ghost p = Self::overlap_aura();
                let mut k: usize = 0;
                while k < auras.len()
                    invariant
                        p == Self::overlap_aura(),
                        self.spec_auras(e) == Some(auras@),
                        0 <= k <= auras@.len(),
                        forall|j: int| 0 <= j < k ==> !p(#[trigger] auras@[j]),
                    decreases auras.len() - k,
                {
                    if matches!(
                        auras[k].effect_type,
                        AuraType::Stun | AuraType::Fear | AuraType::Root | AuraType::Polymorph
                    ) {
                        assert(p(auras@[k as int]));
                        assert(any_aura(auras@, p));
                        return true;
                    }
                    k = k + 1;
                }
                false
            },
        }
    }

    /// The candidates a Polymorph is priced on, in entity order.
    pub fn polymorph_candidates(&self, dr_immune: &Vec<u64>) -> (r: Vec<CombatantInfo>)
        ensures
            r@ == self.combatants@.filter(self.polymorph_pred(dr_immune@)),
    {
        let my_team = self.my_team();
        let ghost p = self.polymorph_pred(dr_immune@);
        let mut r: Vec<CombatantInfo> = Vec::new();
        let mut i: usize = 0;
        while i < self.combatants.len()
            invariant
                p == self.polymorph_pred(dr_immune@),
                my_team == self.spec_my_team(),
                0 <= i <= self.combatants@.len(),
                r@ == self.combatants@.subrange(0, i as int).filter(p),
            decreases self.combatants.len() - i,
        {
            let c = self.combatants[i];
            proof {
                lemma_filter_step(self.combatants@, i as int, p);
            }
            if c.team != my_team && c.is_alive && !c.is_pet && !self.entity_is_immune(c.entity)
                && !contains_id(dr_immune, c.entity) && !self.entity_overlapped(c.entity) {
                r.push(c);
            }
            i = i + 1;
        }
        assert(self.combatants@.subrange(0, self.combatants@.len() as int) =~= self.combatants@);
        r
    }

    /// A stealthed enemy is invisible to `observer` unless the observer has
    /// Shadow Sight, or the enemy itself holds it.
    pub open spec fn spec_visible_to(&self, observer: u64, enemy: CombatantInfo) -> bool {
        !enemy.stealthed || self.spec_entity_has_aura(observer, AuraType::ShadowSight)
            || self.spec_entity_has_aura(enemy.entity, AuraType::ShadowSight)
    }

    /// Visibility of `enemy` to `observer`.
    pub fn visible_to(&self, observer: u64, enemy: &CombatantInfo) -> (r: bool)
        ensures
            r == self.spec_visible_to(observer, *enemy),
    {
        !enemy.stealthed || self.entity_has_aura(observer, AuraType::ShadowSight)
            || self.entity_has_aura(enemy.entity, AuraType::ShadowSight)
    }

    /// Visible alive enemies (pets included) whose current target is `me`.
    pub open spec fn targeting_pred(&self, me: u64, my_team: u8) -> spec_fn(CombatantInfo) -> bool {
        |c: CombatantInfo|
            c.team != my_team && c.is_alive && c.target == Some(me) && self.spec_visible_to(me, c)
    }

    pub open spec fn spec_enemies_targeting(&self, me: u64) -> Seq<CombatantInfo> {
        match self.spec_info(me) {
            Some(i) => self.combatants@.filter(self.targeting_pred(me, i.team)),
            None => Seq::empty(),
        }
    }

    /// Visible enemies whose current target is `me`, in entity order. Enemy
    /// pets count; a stealthed enemy does not unless Shadow Sight applies.
    /// Empty when `me` is not in the snapshot.
    pub fn enemies_targeting(&self, me: u64) -> (r: Vec<CombatantInfo>)
        ensures
            r@ == self.spec_enemies_targeting(me),
    {
        let my_team = match self.info(me) {
            Some(i) => i.team,
            None => {
                return Vec::new();
            },
        };
        let ghost p = self.targeting_pred(me, my_team);
        let mut r: Vec<CombatantInfo> = Vec::new();
        let mut i: usize = 0;
        while i < self.combatants.len()
            invariant
                p == self.targeting_pred(me, my_team),
                self.spec_info(me) matches Some(info) && info.team == my_team,
                0 <= i <= self.combatants@.len(),
                r@ == self.combatants@.subrange(0, i as int).filter(p),
            decreases self.combatants.len() - i,
        {
            let c = self.combatants[i];
            proof {
                lemma_filter_step(self.combatants@, i as int, p);
            }
            if c.team != my_team && c.is_alive && c.target == Some(me) && self.visible_to(me, &c) {
                r.push(c);
            }
            i = i + 1;
        }
        assert(self.combatants@.subrange(0, self.combatants@.len() as int) =~= self.combatants@);
        r
    }

    pub open spec fn spec_focused_by_threat(&self, entity: u64) -> bool {
        exists|k: int|
            0 <= k < self.spec_enemies_targeting(entity).len()
                && !(#[trigger] self.spec_enemies_targeting(entity)[k]).class.spec_is_healer()
    }

    /// Visible alive enemies (pets included) of `me` within the radius.
    pub open spec fn proximity_pred(&self, me: u64, my_team: u8, within: Seq<u64>) -> spec_fn(CombatantInfo) -> bool {
        |c: CombatantInfo|
            c.team != my_team && c.is_alive && within.contains(c.entity) && self.spec_visible_to(me, c)
    }

    pub open spec fn spec_visible_enemies_within(&self, me: u64, within: Seq<u64>) -> Seq<CombatantInfo> {
        match self.spec_info(me) {
            Some(i) => self.combatants@.filter(self.proximity_pred(me, i.team, within)),
            None => Seq::empty(),
        }
    }

    /// Visible alive enemies (pets included) within the radius — `within`
    /// lists the units the caller found there — in entity order: the
    /// proximity half of a healer's threat set. Empty when `me` is not in
    /// the snapshot.
    pub fn visible_enemies_within(&self, me: u64, within: &Vec<u64>) -> (r: Vec<CombatantInfo>)
        ensures
            r@ == self.spec_visible_enemies_within(me, within@),
    {
        let my_team = match self.info(me) {
            Some(i) => i.team,
            None => {
                return Vec::new();
            },
        };
        let ghost p = self.proximity_pred(me, my_team, within@);
        let mut r: Vec<CombatantInfo> = Vec::new();
        let mut i: usize = 0;
        while i < self.combatants.len()
            invariant
                p == self.proximity_pred(me, my_team, within@),
                self.spec_info(me) matches Some(info) && info.team == my_team,
                0 <= i <= self.combatants@.len(),
                r@ == self.combatants@.subrange(0, i as int).filter(p),
            decreases self.combatants.len() - i,
        {
            let c = self.combatants[i];
            proof {
                lemma_filter_step(self.combatants@, i as int, p);
            }
            if c.team != my_team && c.is_alive && contains_id(within, c.entity) && self.visible_to(me, &c) {
                r.push(c);
            }
            i = i + 1;
        }
        assert(self.combatants@.subrange(0, self.combatants@.len() as int) =~= self.combatants@);
        r
    }

    /// Is `entity` focused by a real damage threat: some non-healer among the
    /// visible enemies targeting it. A healer wanding it does not count.
    pub fn focused_by_threat(&self, entity: u64) -> (r: bool)
        ensures
            r == self.spec_focused_by_threat(entity),
    {
        let threats = self.enemies_targeting(entity);
        let mut k: usize = 0;
        while k < threats.len()
            invariant
                threats@ == self.spec_enemies_targeting(entity),
                0 <= k <= threats@.len(),
                forall|j: int| 0 <= j < k ==> (#[trigger] threats@[j]).class.spec_is_healer(),
            decreases threats.len() - k,
        {
            if !threats[k].class.is_healer() {
                return true;
            }
            k = k + 1;
        }
        false
    }

    /// The team of the unit that cast aura `a`, if that unit is in the
    /// snapshot.
    pub open spec fn caster_team(&self, a: AuraInfo) -> Option<u8> {
        match a.caster {
            Some(c) => match self.spec_info(c) {
                Some(i) => Some(i.team),
                None => None,
            },
            None => None,
        }
    }

    fn caster_team_exec(&self, a: &AuraInfo) -> (r: Option<u8>)
        ensures
            r == self.caster_team(*a),
    {
        match a.caster {
            Some(c) => match self.info(c) {
                Some(i) => Some(i.team),
                None => None,
            },
            None => None,
        }
    }

    pub open spec fn friendly_breakable_pred(&self) -> spec_fn(AuraInfo) -> bool {
        |a: AuraInfo| a.breaks_on_any_damage && self.caster_team(a) == Some(self.spec_my_team())
    }

    pub open spec fn friendly_dot_pred(&self) -> spec_fn(AuraInfo) -> bool {
        |a: AuraInfo|
            a.effect_type == AuraType::DamageOverTime && self.caster_team(a) == Some(
                self.spec_my_team(),
            )
    }

    /// Whether some aura on `target` satisfies the friendly-aura test `kind`:
    /// 0 = breaks on any damage, 1 = damage over time; in both cases cast by a
    /// member of the deciding unit's team.
    fn friendly_aura_on(&self, target: u64, kind: u8) -> (r: bool)
        requires
            kind <= 1,
        ensures
            kind == 0 ==> r == some_aura(self.spec_auras(target), self.friendly_breakable_pred()),
            kind == 1 ==> r == some_aura(self.spec_auras(target), self.friendly_dot_pred()),
    {
        let my_team = self.my_team();
        match self.auras_index(target) {
            None => false,
            Some(ix) => {
                let auras = &self.active_auras[ix].auras;
                let ghost p = if kind == 0 {
                    self.friendly_breakable_pred()
                } else {
                    self.friendly_dot_pred()
                };
                let mut k: usize = 0;
                while k < auras.len()
                    invariant
                        kind <= 1,
                        my_team == self.spec_my_team(),
                        p == if kind == 0 {
                            self.friendly_breakable_pred()
                        } else {
                            self.friendly_dot_pred()
                        },
                        self.spec_auras(target) == Some(auras@),
                        0 <= k <= auras@.len(),
                        forall|j: int| 0 <= j < k ==> !p(#[trigger] auras@[j]),
                    decreases auras.len() - k,
                {
                    let a = auras[k];
                    let hit = if kind == 0 {
                        a.breaks_on_any_damage && self.caster_team_exec(&a) == Some(my_team)
                    } else {
                        matches!(a.effect_type, AuraType::DamageOverTime) && self.caster_team_exec(&a)
                            == Some(my_team)
                    };
                    if hit {
                        assert(p(auras@[k as int]));
                        assert(any_aura(auras@, p));
                        return true;
                    }
                    k = k + 1;
                }
                false
            },
        }
    }

    pub open spec fn spec_has_friendly_breakable_cc(&self, target: u64) -> bool {
        some_aura(self.spec_auras(target), self.friendly_breakable_pred())
    }

    pub open spec fn spec_has_friendly_dots_on_target(&self, target: u64) -> bool {
        some_aura(self.spec_auras(target), self.friendly_dot_pred())
    }

    /// Check if `target` has a break-on-any-damage crowd control from a
    /// friendly caster — damage from our side would break our own CC.
    pub fn has_friendly_breakable_cc(&self, target: u64) -> (r: bool)
        ensures
            r == self.spec_has_friendly_breakable_cc(target),
    {
        self.friendly_aura_on(target, 0)
    }

    /// Check if `target` has damage-over-time effects from a friendly caster,
    /// which would break a Polymorph or Freezing Trap.
    pub fn has_friendly_dots_on_target(&self, target: u64) -> (r: bool)
        ensures
            r == self.spec_has_friendly_dots_on_target(target),
    {
        self.friendly_aura_on(target, 1)
    }

    /// Can `e` take a dispellable aura off an ally right now: in the
    /// snapshot, alive, owning an ally dispel, and not itself denied actions.
    pub open spec fn spec_can_dispel_allies(&self, e: u64) -> bool {
        match self.spec_info(e) {
            Some(c) => c.is_alive && spec_dispel_ability_of(c) is Some && !some_aura(
                self.spec_auras(e),
                denies_actions_aura(),
            ),
            None => false,
        }
    }

    /// Can this unit take a dispellable aura off an ally right now —
    /// capability, alive, and able to act? Not `is_healer`: the Shaman heals
    /// but has no ally dispel, and the Felhunter dispels without healing.
    pub fn can_dispel_allies(&self, e: u64) -> (r: bool)
        ensures
            r == self.spec_can_dispel_allies(e),
    {
        match self.info(e) {
            Some(c) => c.is_alive && dispel_ability_of(&c).is_some() && !self.entity_denied_actions(e),
            None => false,
        }
    }

    /// Members of `team` other than `target` that can dispel an ally right
    /// now and whose dispel is off cooldown.
    pub open spec fn free_dispeller_pred(&self, target: u64, team: u8) -> spec_fn(CombatantInfo) -> bool {
        |c: CombatantInfo|
            c.team == team && c.entity != target && self.spec_can_dispel_allies(c.entity)
                && spec_dispel_ability_of(c) is Some && !self.dispels_on_cooldown@.contains(c.entity)
    }

    pub open spec fn spec_free_ally_dispellers(&self, target: u64) -> nat {
        match self.spec_info(target) {
            Some(info) => self.combatants@.filter(self.free_dispeller_pred(target, info.team)).len(),
            None => 0,
        }
    }

    fn dispel_on_cooldown(&self, e: u64) -> (r: bool)
        ensures
            r == self.dispels_on_cooldown@.contains(e),
    {
        contains_id(&self.dispels_on_cooldown, e)
    }

    /// How many units on `target`'s side can take a dispellable aura off an
    /// ally right now, excluding the target itself — alive, able to act, and
    /// with their dispel off cooldown. Zero when `target` is not in the
    /// snapshot.
    pub fn free_ally_dispellers(&self, target: u64) -> (r: u32)
        requires
            self.combatants@.len() <= u32::MAX,
        ensures
            r == self.spec_free_ally_dispellers(target),
    {
        let team = match self.info(target) {
            Some(i) => i.team,
            None => {
                return 0;
            },
        };
        let ghost p = self.free_dispeller_pred(target, team);
        let ghost kept: Seq<CombatantInfo> = Seq::empty();
        let mut count: u32 = 0;
        let mut i: usize = 0;
        while i < self.combatants.len()
            invariant
                p == self.free_dispeller_pred(target, team),
                self.spec_info(target) matches Some(info) && info.team == team,
                self.combatants@.len() <= u32::MAX,
                0 <= i <= self.combatants@.len(),
                kept == self.combatants@.subrange(0, i as int).filter(p),
                count == kept.len(),
                count <= i,
            decreases self.combatants.len() - i,
        {
            let c = self.combatants[i];
            proof {
                lemma_filter_step(self.combatants@, i as int, p);
            }
            if c.team == team && c.entity != target && self.can_dispel_allies(c.entity)
                && dispel_ability_of(&c).is_some() && !self.dispel_on_cooldown(c.entity) {
                count = count + 1;
                proof {
                    kept = kept.push(c);
                }
            }
            i = i + 1;
        }
        assert(self.combatants@.subrange(0, self.combatants@.len() as int) =~= self.combatants@);
        count
    }

    /// Alive non-pet, non-healer allies other than `entity` that have a
    /// target: the members whose target counts as a kill commitment.
    pub open spec fn focus_pred(&self, entity: u64) -> spec_fn(CombatantInfo) -> bool {
        |c: CombatantInfo|
            ally_pred(self.spec_my_team())(c) && c.entity != entity && !c.class.spec_is_healer()
                && c.target is Some
    }

    /// The team's current kill targets: the targets of alive non-pet,
    /// non-healer allies other than `entity`, in ally entity order (a target
    /// shared by several allies appears once per ally).
    pub open spec fn spec_team_focus(&self, entity: u64) -> Seq<u64> {
        self.combatants@.filter(self.focus_pred(entity)).map_values(|c: CombatantInfo| c.target->0)
    }

    /// The team's current kill targets, excluding `entity`'s own. A healer's
    /// target is an opportunistic mark, not a kill commitment, so healers do
    /// not count.
    pub fn team_focus(&self, entity: u64) -> (r: Vec<u64>)
        ensures
            r@ == self.spec_team_focus(entity),
    {
        let my_team = self.my_team();
        let ghost p = self.focus_pred(entity);
        let ghost kept: Seq<CombatantInfo> = Seq::empty();
        let mut r: Vec<u64> = Vec::new();
        let mut i: usize = 0;
        while i < self.combatants.len()
            invariant
                p == self.focus_pred(entity),
                my_team == self.spec_my_team(),
                0 <= i <= self.combatants@.len(),
                kept == self.combatants@.subrange(0, i as int).filter(p),
                r@ == kept.map_values(|c: CombatantInfo| c.target->0),
            decreases self.combatants.len() - i,
        {
            let c = self.combatants[i];
            proof {
                lemma_filter_step(self.combatants@, i as int, p);
            }
            if c.team == my_team && c.is_alive && !c.is_pet && c.entity != entity
                && !c.class.is_healer() {
                match c.target {
                    Some(t) => {
                        r.push(t);
                        proof {
                            let old_kept = kept;
                            kept = kept.push(c);
                            assert(kept.map_values(|c: CombatantInfo| c.target->0) =~= old_kept.map_values(
                                |c: CombatantInfo| c.target->0,
                            ).push(t));
                        }
                    },
                    None => {},
                }
            }
            i = i + 1;
        }
        assert(self.combatants@.subrange(0, self.combatants@.len() as int) =~= self.combatants@);
        r
    }

    /// A melee crowd-control target the caller can reach: in the snapshot,
    /// not damage-immune, and within melee range.
    pub open spec fn melee_cc_ok(&self, e: u64, in_melee_range: Seq<u64>) -> bool {
        !self.spec_entity_has_aura(e, AuraType::DamageImmunity) && self.spec_info(e) is Some
            && in_melee_range.contains(e)
    }

    /// Range-aware target for melee crowd control (Kidney Shot): the CC
    /// target if it is reachable, else the kill target if it is, else
    /// nothing. `in_melee_range` lists the entities the caller found within
    /// melee range.
    pub fn select_melee_cc_target(
        &self,
        cc_target: Option<u64>,
        kill_target: Option<u64>,
        in_melee_range: &Vec<u64>,
    ) -> (r: Option<u64>)
        ensures
            r == if cc_target is Some && self.melee_cc_ok(cc_target->0, in_melee_range@) {
                cc_target
            } else if kill_target is Some && self.melee_cc_ok(kill_target->0, in_melee_range@) {
                kill_target
            } else {
                None
            },
    {
        if let Some(cc) = cc_target {
            if !self.entity_is_immune(cc) && self.info(cc).is_some() && contains_id(in_melee_range, cc) {
                return Some(cc);
            }
        }
        if let Some(kill) = kill_target {
            if !self.entity_is_immune(kill) && self.info(kill).is_some() && contains_id(in_melee_range, kill) {
                return Some(kill);
            }
        }
        None
    }
}


// ---------------------------------------------------------------------------
// Laws of the snapshot queries
// ---------------------------------------------------------------------------

/// On a well-formed snapshot the lookups return the one entry of an entity.
pub proof fn lemma_lookup_finds_the_entry(ctx: CombatContext, i: int, k: int)
    requires
        ctx.spec_wf(),
    ensures
        0 <= i < ctx.combatants@.len() ==> ctx.spec_info(ctx.combatants@[i].entity) == Some(
            ctx.combatants@[i],
        ),
        0 <= k < ctx.active_auras@.len() ==> ctx.spec_auras(ctx.active_auras@[k].entity) == Some(
            ctx.active_auras@[k].auras@,
        ),
{
    if 0 <= i < ctx.combatants@.len() {
        lemma_find_by_unique(ctx.combatants@, info_key(), ctx.combatants@[i].entity, i);
    }
    if 0 <= k < ctx.active_auras@.len() {
        lemma_find_by_unique(ctx.active_auras@, auras_key(), ctx.active_auras@[k].entity, k);
    }
}

/// The member filters partition by team: no unit is both an alive ally and
/// an alive enemy, the pet-inclusive enemy list is the pet-free one plus the
/// enemy pets, and the enemy healer is an alive non-pet enemy healer.
pub proof fn lemma_member_filters(ctx: CombatContext, c: CombatantInfo)
    ensures
        !(ally_pred(ctx.spec_my_team())(c) && enemy_or_pet_pred(ctx.spec_my_team())(c)),
        enemy_pred(ctx.spec_my_team())(c) <==> (enemy_or_pet_pred(ctx.spec_my_team())(c)
            && !c.is_pet),
        ctx.spec_enemy_healer() matches Some(h) ==> exists|j: int|
            0 <= j < ctx.combatants@.len() && (#[trigger] ctx.combatants@[j]).entity == h
                && enemy_pred(ctx.spec_my_team())(ctx.combatants@[j])
                && ctx.combatants@[j].class.spec_is_healer(),
{
    if let Some(h) = ctx.spec_enemy_healer() {
        lemma_first_where_member(ctx.combatants@, enemy_healer_pred(ctx.spec_my_team()));
    }
}

proof fn lemma_first_where_member<A>(s: Seq<A>, p: spec_fn(A) -> bool)
    ensures
        first_where(s, p) matches Some(a) ==> exists|j: int|
            0 <= j < s.len() && #[trigger] s[j] == a && p(a),
    decreases s.len(),
{
    if s.len() > 0 && !p(s[0]) {
        lemma_first_where_member(s.drop_first(), p);
        if let Some(a) = first_where(s.drop_first(), p) {
            let j = choose|j: int| 0 <= j < s.drop_first().len() && #[trigger] s.drop_first()[j] == a && p(a);
            assert(s[j + 1] == a);
        }
    }
}

/// Every unit reported as targeting `me` is an alive, visible member of
/// another team whose current target is `me`.
pub proof fn lemma_enemies_targeting_sound(ctx: CombatContext, me: u64, k: int)
    requires
        0 <= k < ctx.spec_enemies_targeting(me).len(),
    ensures
        ({
            let c = ctx.spec_enemies_targeting(me)[k];
            &&& ctx.spec_info(me) is Some
            &&& c.team != ctx.spec_info(me)->0.team
            &&& c.is_alive
            &&& c.target == Some(me)
            &&& ctx.spec_visible_to(me, c)
        }),
{
    if let Some(info) = ctx.spec_info(me) {
        let p = ctx.targeting_pred(me, info.team);
        ctx.combatants@.lemma_filter_pred(p, k);
    }
}

/// A rooted enemy healer can still heal: Root alone never opens the
/// burst window, and Root alone does not stop a unit from dispelling.
pub proof fn lemma_root_alone_denies_nothing(auras: Seq<AuraInfo>)
    requires
        forall|k: int| 0 <= k < auras.len() ==> (#[trigger] auras[k]).effect_type == AuraType::Root,
    ensures
        !any_aura(auras, denies_actions_aura()),
        auras.len() > 0 ==> any_aura(auras, crowd_control_aura()),
{
    if auras.len() > 0 {
        assert(crowd_control_aura()(auras[0]));
    }
}

/// The dispeller population is a capability, not a role: the Felhunter
/// counts, a Shaman never does, and the target is never counted among its
/// own dispellers.
pub proof fn lemma_dispeller_population(ctx: CombatContext, c: CombatantInfo, target: u64, team: u8)
    ensures
        c.pet_type == Some(PetType::Felhunter) ==> spec_dispel_ability_of(c) == Some(
            DispelAbility::DevourMagic,
        ),
        (c.class == CharacterClass::Shaman && c.pet_type is None) ==> spec_dispel_ability_of(c) is None,
        c.entity == target ==> !ctx.free_dispeller_pred(target, team)(c),
{
}

/// Membership of an entity id in a list.
pub fn contains_id(v: &Vec<u64>, e: u64) -> (r: bool)
    ensures
        r == v@.contains(e),
{
    let mut k: usize = 0;
    while k < v.len()
        invariant
            0 <= k <= v@.len(),
            forall|j: int| 0 <= j < k ==> v@[j] != e,
        decreases v.len() - k,
    {
        if v[k] == e {
            assert(v@[k as int] == e);
            return true;
        }
        k = k + 1;
    }
    false
}

} // verus!
