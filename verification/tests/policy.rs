use arena_ai::policy::{CcPolicies, CcPolicy, InterruptPolicies, InterruptPolicy};

#[test]
fn identity_is_the_default() {
    assert_eq!(CcPolicy::default(), CcPolicy::Identity);
    assert!(!CcPolicy::default().is_priced());
    assert_eq!(CcPolicies::default().for_team(1), CcPolicy::Identity);
    assert_eq!(CcPolicies::default().for_team(2), CcPolicy::Identity);
}

#[test]
fn name_round_trips_through_parse() {
    for p in [CcPolicy::Identity, CcPolicy::Priced] {
        assert_eq!(CcPolicy::parse(p.name()).unwrap(), p, "{}", p.name());
    }
}

#[test]
fn per_team_resolution_and_head_to_head() {
    let mixed = CcPolicies { team1: CcPolicy::Priced, team2: CcPolicy::Identity };
    assert_eq!(mixed.for_team(1), CcPolicy::Priced);
    assert_eq!(mixed.for_team(2), CcPolicy::Identity);
    assert!(mixed.is_head_to_head());
    // Out-of-range ids resolve to team 1, never panic.
    assert_eq!(mixed.for_team(0), CcPolicy::Priced);
    assert_eq!(mixed.for_team(7), CcPolicy::Priced);
    assert!(!CcPolicies::uniform(CcPolicy::Priced).is_head_to_head());
}

#[test]
fn rejects_unknown_spellings() {
    assert!(CcPolicy::parse("Value").is_err());
    assert!(CcPolicy::parse("").is_err());
}

#[test]
fn cc_policy_identity_is_the_default() {
    assert_eq!(InterruptPolicy::default(), InterruptPolicy::Identity);
    assert!(!InterruptPolicies::default().for_team(1).is_priced());
    assert!(!InterruptPolicies::default().for_team(2).is_priced());
}

#[test]
fn cc_policy_name_round_trips_through_parse() {
    for p in [InterruptPolicy::Identity, InterruptPolicy::Priced] {
        assert_eq!(InterruptPolicy::parse(p.name()).unwrap(), p, "{}", p.name());
    }
}

#[test]
fn cc_policy_per_team_resolution_and_head_to_head() {
    let mixed = InterruptPolicies {
        team1: InterruptPolicy::Priced,
        team2: InterruptPolicy::Identity,
    };
    assert_eq!(mixed.for_team(1), InterruptPolicy::Priced);
    assert_eq!(mixed.for_team(2), InterruptPolicy::Identity);
    assert!(mixed.is_head_to_head());
    assert_eq!(mixed.for_team(0), InterruptPolicy::Priced);
    assert!(!InterruptPolicies::uniform(InterruptPolicy::Priced).is_head_to_head());
}

#[test]
fn the_two_policies_are_separate_types_with_separate_defaults() {
    let cc = CcPolicies::uniform(CcPolicy::Priced);
    let interrupts = InterruptPolicies::default();
    assert!(cc.for_team(1).is_priced());
    assert!(!interrupts.for_team(1).is_priced());
}

#[test]
fn cc_policy_rejects_unknown_spellings() {
    assert!(InterruptPolicy::parse("Value").is_err());
    assert!(InterruptPolicy::parse("").is_err());
}

#[test]
fn parse_accepts_both_capitalisations() {
    assert_eq!(CcPolicy::parse("identity").unwrap(), CcPolicy::Identity);
    assert_eq!(CcPolicy::parse("Identity").unwrap(), CcPolicy::Identity);
    assert_eq!(CcPolicy::parse("priced").unwrap(), CcPolicy::Priced);
    assert_eq!(CcPolicy::parse("Priced").unwrap(), CcPolicy::Priced);
    assert_eq!(InterruptPolicy::parse("priced").unwrap(), InterruptPolicy::Priced);
    assert_eq!(InterruptPolicy::parse("identity").unwrap(), InterruptPolicy::Identity);
    assert!(CcPolicy::parse("PRICED").is_err());
    assert!(CcPolicy::parse(" Priced").is_err());
}

#[test]
fn parse_errors_name_the_bad_spelling() {
    assert_eq!(
        CcPolicy::parse("Value").unwrap_err(),
        "Unknown cc_policy: 'Value'. Valid policies: Identity, Priced"
    );
    assert_eq!(
        InterruptPolicy::parse("Fast").unwrap_err(),
        "Unknown interrupt_policy: 'Fast'. Valid policies: Identity, Priced"
    );
}

#[test]
fn names_are_stable() {
    assert_eq!(CcPolicy::Identity.name(), "Identity");
    assert_eq!(CcPolicy::Priced.name(), "Priced");
    assert_eq!(InterruptPolicy::Identity.name(), "Identity");
    assert_eq!(InterruptPolicy::Priced.name(), "Priced");
}

#[test]
fn uniform_is_not_head_to_head_for_either_axis() {
    let cc = CcPolicies::uniform(CcPolicy::Identity);
    assert_eq!(cc.team1, CcPolicy::Identity);
    assert_eq!(cc.team2, CcPolicy::Identity);
    assert!(!cc.is_head_to_head());
    assert_eq!(cc.for_team(255), CcPolicy::Identity);
    let ip = InterruptPolicies { team1: InterruptPolicy::Identity, team2: InterruptPolicy::Priced };
    assert_eq!(ip.for_team(2), InterruptPolicy::Priced);
    assert_eq!(ip.for_team(3), InterruptPolicy::Identity);
}
