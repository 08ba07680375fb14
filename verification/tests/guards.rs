use arena_ai::aura::AuraType;
use arena_ai::context::{AuraInfo, CombatContext, CombatantInfo, EntityAuras, NamedAura};
use arena_ai::guards::{
    dot_rejection, fear_rejection, heal_deferred, mage_armor_aura, paladin_cast_defer, polymorph_target,
    priest_cast_defer, self_buff_rejection, serpent_sting_rejection, shaman_cast_defer, shield_candidates,
    GuardRejection, MageArmor,
};
use arena_ai::policy::CcPolicy;
use arena_ai::postures::Posture;
use arena_ai::roster::CharacterClass;

fn unit(entity: u64, team: u8, class: CharacterClass) -> CombatantInfo {
    CombatantInfo {
        entity,
        team,
        slot: 0,
        class,
        is_alive: true,
        stealthed: false,
        target: None,
        is_pet: false,
        pet_type: None,
        pet: None,
    }
}

fn aura(effect_type: AuraType, caster: Option<u64>) -> AuraInfo {
    AuraInfo {
        effect_type,
        caster,
        breaks_on_any_damage: false,
        can_be_dispelled: false,
        can_be_purged: false,
        is_cleansable_poison: false,
        named: None,
    }
}

fn named(effect_type: AuraType, caster: Option<u64>, n: NamedAura) -> AuraInfo {
    AuraInfo { named: Some(n), ..aura(effect_type, caster) }
}

fn ctx(combatants: Vec<CombatantInfo>, auras: Vec<(u64, Vec<AuraInfo>)>, me: u64) -> CombatContext {
    CombatContext {
        combatants,
        active_auras: auras.into_iter().map(|(entity, auras)| EntityAuras { entity, auras }).collect(),
        dispels_on_cooldown: Vec::new(),
        self_entity: me,
    }
}

/// Team 1: Hunter (1), Priest (2). Team 2: Warrior (3), Mage (4), Priest (5).
fn arena() -> Vec<CombatantInfo> {
    vec![
        unit(1, 1, CharacterClass::Hunter),
        unit(2, 1, CharacterClass::Priest),
        unit(3, 2, CharacterClass::Warrior),
        unit(4, 2, CharacterClass::Mage),
        unit(5, 2, CharacterClass::Priest),
    ]
}

#[test]
fn serpent_sting_guard() {
    let c = ctx(arena(), vec![], 1);
    assert_eq!(serpent_sting_rejection(&c, 4, false, true), None);
    assert_eq!(serpent_sting_rejection(&c, 3, false, true), Some(GuardRejection::FeedsRage));
    assert_eq!(serpent_sting_rejection(&c, 4, true, true), Some(GuardRejection::ManaReserved));
    // The healer is the poised trap's candidate; the Mage is not.
    assert_eq!(serpent_sting_rejection(&c, 5, false, false), Some(GuardRejection::ReservedForTrap));
    assert_eq!(serpent_sting_rejection(&c, 4, false, false), None);
    let stung = ctx(arena(), vec![(4, vec![named(AuraType::DamageOverTime, Some(1), NamedAura::SerpentSting)])], 1);
    assert_eq!(serpent_sting_rejection(&stung, 4, false, true), Some(GuardRejection::AlreadyApplied));
    let corrupted = ctx(arena(), vec![(5, vec![named(AuraType::DamageOverTime, Some(2), NamedAura::Corruption)])], 1);
    assert_eq!(serpent_sting_rejection(&corrupted, 5, false, false), None, "another DoT already stops the trap");
    assert_eq!(serpent_sting_rejection(&c, 9, false, true), Some(GuardRejection::NoValidTarget));
}

#[test]
fn dots_buffs_and_fear() {
    let c = ctx(
        arena(),
        vec![
            (1, vec![aura(AuraType::Absorb, None)]),
            (4, vec![named(AuraType::DamageOverTime, Some(2), NamedAura::Corruption), aura(AuraType::Root, Some(2))]),
        ],
        1,
    );
    assert_eq!(dot_rejection(&c, 4, NamedAura::Corruption), Some(GuardRejection::AlreadyApplied));
    assert_eq!(dot_rejection(&c, 4, NamedAura::Immolate), None);
    assert_eq!(self_buff_rejection(&c, 1, AuraType::Absorb), Some(GuardRejection::AlreadyApplied));
    assert_eq!(self_buff_rejection(&c, 1, mage_armor_aura(MageArmor::FrostArmor)), None);
    assert_eq!(mage_armor_aura(MageArmor::MoltenArmor), AuraType::CritChanceIncrease);
    assert_eq!(fear_rejection(&c, 4), Some(GuardRejection::AlreadyControlled));
    assert_eq!(fear_rejection(&c, 5), None);
}

#[test]
fn polymorph_guard() {
    let c = ctx(arena(), vec![(3, vec![aura(AuraType::Stun, Some(2))])], 1);
    let none: Vec<u64> = vec![];
    assert_eq!(polymorph_target(&c, CcPolicy::Identity, None, Some(5), Some(4), &none), Ok(5));
    assert_eq!(polymorph_target(&c, CcPolicy::Identity, None, Some(4), Some(4), &none), Err(GuardRejection::KillTarget));
    assert_eq!(polymorph_target(&c, CcPolicy::Identity, None, None, Some(4), &none), Err(GuardRejection::NoValidTarget));
    assert_eq!(polymorph_target(&c, CcPolicy::Identity, None, Some(3), Some(4), &none), Err(GuardRejection::AlreadyControlled));
    assert_eq!(polymorph_target(&c, CcPolicy::Identity, None, Some(5), Some(4), &vec![5]), Err(GuardRejection::DrImmune));
    // Priced: the value model's pick, which may be the kill target.
    assert_eq!(polymorph_target(&c, CcPolicy::Priced, Some(4), Some(5), Some(4), &none), Ok(4));
    assert_eq!(polymorph_target(&c, CcPolicy::Priced, None, Some(5), Some(4), &none), Err(GuardRejection::NoValidTarget));
}

#[test]
fn shield_guard() {
    let c = ctx(
        arena(),
        vec![
            (1, vec![aura(AuraType::WeakenedSoul, Some(2))]),
            (2, vec![named(AuraType::Absorb, Some(2), NamedAura::PowerWordShield)]),
        ],
        2,
    );
    assert!(shield_candidates(&c, 1, &vec![]).is_empty());
    let fresh = ctx(arena(), vec![(2, vec![aura(AuraType::Absorb, None)])], 2);
    let ids: Vec<u64> = shield_candidates(&fresh, 1, &vec![]).iter().map(|i| i.entity).collect();
    assert_eq!(ids, vec![1, 2], "another absorb is not a Power Word: Shield");
    let ids: Vec<u64> = shield_candidates(&fresh, 1, &vec![1]).iter().map(|i| i.entity).collect();
    assert_eq!(ids, vec![2], "shielded earlier this frame");
}

#[test]
fn cast_deferral_while_escaping_or_dipping() {
    assert!(priest_cast_defer(Posture::Escape) && priest_cast_defer(Posture::Dip));
    assert!(!priest_cast_defer(Posture::Free) && !priest_cast_defer(Posture::Pressured));
    assert!(paladin_cast_defer(Posture::Dip));
    assert!(shaman_cast_defer(Posture::Escape) && !shaman_cast_defer(Posture::Dip));
    assert!(heal_deferred(true, true));
    assert!(!heal_deferred(true, false), "a critical heal always fires");
    assert!(!heal_deferred(false, true));
}
