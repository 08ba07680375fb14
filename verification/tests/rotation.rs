use arena_ai::aura::AuraType;
use arena_ai::context::{AuraInfo, CombatContext, CombatantInfo, EntityAuras};
use arena_ai::kidney::{KidneyHoldReason, KidneyPlan};
use arena_ai::postures::{HunterDipPlan, Posture};
use arena_ai::roster::CharacterClass;
use arena_ai::rotation::{
    hunter_plan, mage_plan, paladin_plan, priest_plan, rogue_plan, settle_hoj_plan, shaman_plan,
    warlock_plan, HojPlan, HunterFacts, HunterStep, MageStep, PaladinStep, PriestStep, RangeBand,
    RogueFacts, RogueOpener, RogueStep, ScreamDipPlan, ShamanStep, WarlockFacts, WarlockStep,
};

fn unit(entity: u64, team: u8, class: CharacterClass) -> CombatantInfo {
    CombatantInfo {
        entity,
        team,
        slot: 0,
        class,
        is_alive: true,
        stealthed: false,
        target: None,
        is_pet: false,
        pet_type: None,
        pet: None,
    }
}

fn aura(effect_type: AuraType, caster: Option<u64>) -> AuraInfo {
    AuraInfo {
        effect_type,
        caster,
        breaks_on_any_damage: false,
        can_be_dispelled: false,
        can_be_purged: false,
        is_cleansable_poison: false,
        named: None,
    }
}

fn ctx(combatants: Vec<CombatantInfo>, auras: Vec<(u64, Vec<AuraInfo>)>, me: u64) -> CombatContext {
    CombatContext {
        combatants,
        active_auras: auras.into_iter().map(|(entity, auras)| EntityAuras { entity, auras }).collect(),
        dispels_on_cooldown: Vec::new(),
        self_entity: me,
    }
}

/// Team 1: the deciding unit (1) and a Mage (2). Team 2: Warrior (3),
/// Priest (4).
fn arena(me: CharacterClass) -> Vec<CombatantInfo> {
    vec![
        unit(1, 1, me),
        unit(2, 1, CharacterClass::Mage),
        unit(3, 2, CharacterClass::Warrior),
        unit(4, 2, CharacterClass::Priest),
    ]
}

fn hunter_facts(band: RangeBand) -> HunterFacts {
    HunterFacts {
        on_gcd: false,
        band,
        target_far: true,
        concussive_target: None,
        off_target: None,
        off_target_trap_clean: false,
    }
}

#[test]
fn hunter_safe_range_rotation_order() {
    let c = ctx(arena(CharacterClass::Hunter), vec![], 1);
    let f = HunterFacts { concussive_target: Some(3), ..hunter_facts(RangeBand::Safe) };
    let plan = hunter_plan(&c, Some(3), HunterDipPlan::Rotation, &f).unwrap();
    assert_eq!(
        plan,
        vec![
            HunterStep::ConcussiveShot { target: 3 },
            HunterStep::SerpentSting,
            HunterStep::FreezingTrapMidway { target: 4 },
            HunterStep::AimedShot,
            HunterStep::ArcaneShot,
        ]
    );
}

#[test]
fn hunter_burst_window_leads_with_aimed_shot() {
    let c = ctx(arena(CharacterClass::Hunter), vec![(4, vec![aura(AuraType::Incapacitate, Some(1))])], 1);
    let plan = hunter_plan(&c, Some(3), HunterDipPlan::Rotation, &hunter_facts(RangeBand::Safe)).unwrap();
    assert_eq!(plan[0], HunterStep::AimedShot);
    // Killing the controlled healer itself opens no burst window.
    let plan = hunter_plan(&c, Some(4), HunterDipPlan::Rotation, &hunter_facts(RangeBand::Safe)).unwrap();
    assert_eq!(plan[0], HunterStep::SerpentSting);
}

#[test]
fn hunter_closing_band_has_no_sting_or_aimed_shot() {
    let c = ctx(arena(CharacterClass::Hunter), vec![], 1);
    let plan = hunter_plan(&c, Some(3), HunterDipPlan::Rotation, &hunter_facts(RangeBand::Closing)).unwrap();
    assert_eq!(plan, vec![HunterStep::FrostTrapPeel, HunterStep::ArcaneShot]);
}

#[test]
fn hunter_dead_zone_rooted_skips_disengage() {
    let free = ctx(arena(CharacterClass::Hunter), vec![], 1);
    let plan = hunter_plan(&free, Some(3), HunterDipPlan::Rotation, &hunter_facts(RangeBand::DeadZone)).unwrap();
    assert_eq!(plan, vec![HunterStep::Disengage, HunterStep::FrostTrapAtFeet]);
    let rooted = ctx(arena(CharacterClass::Hunter), vec![(1, vec![aura(AuraType::Root, Some(3))])], 1);
    let plan = hunter_plan(&rooted, Some(3), HunterDipPlan::Rotation, &hunter_facts(RangeBand::DeadZone)).unwrap();
    assert_eq!(plan, vec![HunterStep::FrostTrapAtFeet]);
}

#[test]
fn hunter_dip_arrival_comes_first() {
    let c = ctx(arena(CharacterClass::Hunter), vec![], 1);
    let plan = hunter_plan(&c, Some(3), HunterDipPlan::DipCast { target: 4 }, &hunter_facts(RangeBand::Closing)).unwrap();
    assert_eq!(plan[0], HunterStep::DipFreezingTrap { target: 4 });
}

#[test]
fn hunter_trap_spares_a_dotted_off_target() {
    let c = ctx(arena(CharacterClass::Hunter), vec![(4, vec![aura(AuraType::DamageOverTime, Some(2))])], 1);
    let f = HunterFacts { off_target: Some(4), off_target_trap_clean: true, ..hunter_facts(RangeBand::Safe) };
    let plan = hunter_plan(&c, Some(3), HunterDipPlan::Rotation, &f).unwrap();
    assert_eq!(plan, vec![HunterStep::SerpentSting, HunterStep::AimedShot, HunterStep::ArcaneShot]);
    let clean = ctx(arena(CharacterClass::Hunter), vec![], 1);
    let plan = hunter_plan(&clean, Some(3), HunterDipPlan::Rotation, &f).unwrap();
    assert_eq!(plan[1], HunterStep::FreezingTrapOnOffTarget { target: 4 });
}

#[test]
fn hunter_no_decision_or_no_action() {
    let mut units = arena(CharacterClass::Hunter);
    units[2].is_alive = false;
    let c = ctx(units, vec![(4, vec![aura(AuraType::DamageImmunity, None)])], 1);
    let f = hunter_facts(RangeBand::Safe);
    assert_eq!(hunter_plan(&c, Some(3), HunterDipPlan::Rotation, &f), None);
    assert_eq!(hunter_plan(&c, None, HunterDipPlan::Rotation, &f), None);
    assert_eq!(hunter_plan(&c, Some(4), HunterDipPlan::Rotation, &f), Some(vec![]));
    let gcd = HunterFacts { on_gcd: true, ..f };
    assert_eq!(hunter_plan(&c, Some(4), HunterDipPlan::Rotation, &gcd), None);
}

fn warlock_facts() -> WarlockFacts {
    WarlockFacts { on_gcd: false, being_kited: false, fear_target_dr_immune: false }
}

#[test]
fn warlock_unstable_affliction_leads_against_a_dispeller() {
    let c = ctx(arena(CharacterClass::Warlock), vec![], 1);
    let plan = warlock_plan(&c, Some(3), Some(4), &warlock_facts()).unwrap();
    assert_eq!(
        plan,
        vec![
            WarlockStep::UnstableAffliction,
            WarlockStep::Corruption,
            WarlockStep::SpreadCurses,
            WarlockStep::Immolate,
            WarlockStep::Fear { target: 4 },
            WarlockStep::DrainLife,
            WarlockStep::ShadowBolt,
        ]
    );
    let mut units = arena(CharacterClass::Warlock);
    units[3].class = CharacterClass::Shaman;
    let c = ctx(units, vec![], 1);
    let plan = warlock_plan(&c, Some(3), None, &warlock_facts()).unwrap();
    assert_eq!(&plan[..3], &[WarlockStep::Corruption, WarlockStep::UnstableAffliction, WarlockStep::SpreadCurses]);
    assert_eq!(plan[4], WarlockStep::Fear { target: 3 });
}

#[test]
fn warlock_kited_or_facing_immunity() {
    let c = ctx(arena(CharacterClass::Warlock), vec![(3, vec![aura(AuraType::DamageImmunity, None)])], 1);
    let kited = WarlockFacts { being_kited: true, ..warlock_facts() };
    let plan = warlock_plan(&c, Some(4), None, &kited).unwrap();
    assert_eq!(
        plan,
        vec![
            WarlockStep::UnstableAffliction,
            WarlockStep::Corruption,
            WarlockStep::SpreadCurses,
            WarlockStep::Fear { target: 4 },
        ]
    );
    let plan = warlock_plan(&c, Some(3), None, &warlock_facts()).unwrap();
    assert_eq!(plan, vec![WarlockStep::SpreadCurses]);
    let dr = WarlockFacts { fear_target_dr_immune: true, ..warlock_facts() };
    assert!(!warlock_plan(&c, Some(4), None, &dr).unwrap().contains(&WarlockStep::Fear { target: 4 }));
}

#[test]
fn paladin_reserves_hammer_of_justice_for_the_dip() {
    let c = ctx(arena(CharacterClass::Paladin), vec![], 1);
    let hoj = settle_hoj_plan(&c, Posture::Free, HojPlan::Rotation);
    assert_eq!(hoj, HojPlan::Reserved);
    assert_eq!(settle_hoj_plan(&c, Posture::Pressured, HojPlan::Reserved), HojPlan::Rotation);
    assert_eq!(settle_hoj_plan(&c, Posture::Dip, HojPlan::DipCast { target: 4 }), HojPlan::DipCast { target: 4 });
    let plan = paladin_plan(&c, false, hoj, true, false).unwrap();
    assert_eq!(
        plan,
        vec![
            PaladinStep::PaladinAura,
            PaladinStep::DivineShield,
            PaladinStep::UrgentCleanse,
            PaladinStep::HolyShockHeal,
            PaladinStep::FlashOfLight,
            PaladinStep::HolyLight,
        ]
    );
    let plan = paladin_plan(&c, false, HojPlan::DipCast { target: 4 }, false, true).unwrap();
    assert_eq!(
        plan,
        vec![
            PaladinStep::PaladinAura,
            PaladinStep::DivineShield,
            PaladinStep::UrgentCleanse,
            PaladinStep::DipHammerOfJustice { target: 4 },
            PaladinStep::FlashOfLight,
            PaladinStep::HolyLight,
            PaladinStep::MaintenanceCleanse,
            PaladinStep::HolyShockDamage,
        ]
    );
    assert_eq!(paladin_plan(&c, true, hoj, true, true), None);
}

#[test]
fn paladin_rotation_hoj_without_an_enemy_healer() {
    let mut units = arena(CharacterClass::Paladin);
    units[3].class = CharacterClass::Warlock;
    let c = ctx(units, vec![], 1);
    let hoj = settle_hoj_plan(&c, Posture::Free, HojPlan::Reserved);
    assert_eq!(hoj, HojPlan::Rotation);
    let plan = paladin_plan(&c, false, hoj, false, false).unwrap();
    assert_eq!(plan[3], PaladinStep::HammerOfJustice);
}

#[test]
fn priest_dip_scream_follows_the_urgent_dispel() {
    let c = ctx(arena(CharacterClass::Priest), vec![], 1);
    let plan = priest_plan(&c, false, ScreamDipPlan::DipCast { target: 4 }, false).unwrap();
    assert_eq!(
        plan,
        vec![
            PriestStep::Fortitude,
            PriestStep::UrgentDispel,
            PriestStep::DipPsychicScream { target: 4 },
            PriestStep::PsychicScream,
            PriestStep::PowerWordShield,
            PriestStep::FlashHeal,
            PriestStep::MindBlast,
        ]
    );
    let plan = priest_plan(&c, false, ScreamDipPlan::Reserved, true).unwrap();
    assert_eq!(plan[2], PriestStep::PsychicScream);
    assert_eq!(plan[5], PriestStep::MaintenanceDispel);
    // Not in the snapshot: no decision.
    let absent = ctx(arena(CharacterClass::Priest), vec![], 9);
    assert_eq!(priest_plan(&absent, false, ScreamDipPlan::Rotation, true), None);
}

#[test]
fn mage_and_shaman_ladders() {
    let c = ctx(arena(CharacterClass::Mage), vec![], 1);
    assert_eq!(
        mage_plan(&c, false).unwrap(),
        vec![
            MageStep::IceBarrier,
            MageStep::MageArmor,
            MageStep::ArcaneIntellect,
            MageStep::FrostNova,
            MageStep::Polymorph,
            MageStep::Frostbolt,
        ]
    );
    assert_eq!(mage_plan(&c, true), None);
    let plan = shaman_plan(&c, false).unwrap();
    assert_eq!(plan[0], ShamanStep::EmergencyHealingWave);
    assert_eq!(plan[2], ShamanStep::MaintainTotems);
    assert_eq!(plan.len(), 6);
    assert_eq!(shaman_plan(&c, true), None);
}

fn rogue_facts() -> RogueFacts {
    RogueFacts { on_gcd: false, stealthed: false, opener: RogueOpener::CheapShot, kidney_dr_immune: false }
}

#[test]
fn rogue_opener_from_stealth_ignores_the_gcd() {
    let c = ctx(arena(CharacterClass::Rogue), vec![], 1);
    let f = RogueFacts { stealthed: true, on_gcd: true, ..rogue_facts() };
    assert_eq!(rogue_plan(&c, Some(3), KidneyPlan::NoTarget, &f), Some(vec![RogueStep::CheapShot]));
    let f = RogueFacts { opener: RogueOpener::Ambush, ..f };
    assert_eq!(rogue_plan(&c, Some(3), KidneyPlan::NoTarget, &f), Some(vec![RogueStep::Ambush]));
    let f = RogueFacts { stealthed: false, ..f };
    assert_eq!(rogue_plan(&c, Some(3), KidneyPlan::NoTarget, &f), None);
}

#[test]
fn rogue_kidney_shot_gates() {
    let stunned = ctx(arena(CharacterClass::Rogue), vec![(3, vec![aura(AuraType::Stun, Some(1))])], 1);
    let f = rogue_facts();
    let fire = KidneyPlan::Fire { target: 3, stacking: false };
    assert_eq!(rogue_plan(&stunned, Some(3), fire, &f), Some(vec![RogueStep::SinisterStrike]));
    let extend = KidneyPlan::Fire { target: 3, stacking: true };
    assert_eq!(
        rogue_plan(&stunned, Some(3), extend, &f),
        Some(vec![RogueStep::KidneyShot { target: 3 }, RogueStep::SinisterStrike])
    );
    let dr = RogueFacts { kidney_dr_immune: true, ..f };
    assert_eq!(rogue_plan(&stunned, Some(3), extend, &dr), Some(vec![RogueStep::SinisterStrike]));
    let pool = KidneyPlan::Pool(KidneyHoldReason::PoolForLockout);
    assert_eq!(rogue_plan(&stunned, Some(3), pool, &f), Some(vec![RogueStep::PoolEnergy]));
    let hold = KidneyPlan::Hold(KidneyHoldReason::KickWillInterrupt);
    assert_eq!(rogue_plan(&stunned, Some(3), hold, &f), Some(vec![RogueStep::SinisterStrike]));
    let immune = ctx(arena(CharacterClass::Rogue), vec![(3, vec![aura(AuraType::DamageImmunity, None)])], 1);
    assert_eq!(rogue_plan(&immune, Some(3), fire, &f), Some(vec![]));
}
