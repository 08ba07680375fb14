//! Per-team selection policies: which enemy a team crowd-controls, and which
//! enemy cast it interrupts.
//!
//! The two policies are deliberately separate axes. Crowd-control targeting and
//! interrupt targeting are different decisions, taken by different classes
//! through different abilities, so each has its own type, its own per-team
//! resource and its own default. Both default to `Identity`.
use vstd::prelude::*;
use vstd::string::StringExecFns;

verus! {

/// The spellings that name the `Identity` policy.
pub open spec fn names_identity(s: Seq<char>) -> bool {
    s == "Identity"@ || s == "identity"@
}

/// The spellings that name the `Priced` policy.
pub open spec fn names_priced(s: Seq<char>) -> bool {
    s == "Priced"@ || s == "priced"@
}

/// Error text for an unrecognised crowd-control policy spelling.
pub open spec fn cc_policy_error_text(s: Seq<char>) -> Seq<char> {
    "Unknown cc_policy: '"@ + s + "'. Valid policies: Identity, Priced"@
}

/// Error text for an unrecognised interrupt policy spelling.
pub open spec fn interrupt_policy_error_text(s: Seq<char>) -> Seq<char> {
    "Unknown interrupt_policy: '"@ + s + "'. Valid policies: Identity, Priced"@
}

/// The error text for an unrecognised crowd-control policy spelling.
fn cc_policy_error(other: &str) -> (r: String)
    ensures
        r@ == cc_policy_error_text(other@),
{
    "Unknown cc_policy: '".to_owned().concat(other).concat("'. Valid policies: Identity, Priced")
}

/// The error text for an unrecognised interrupt policy spelling.
fn interrupt_policy_error(other: &str) -> (r: String)
    ensures
        r@ == interrupt_policy_error_text(other@),
{
    "Unknown interrupt_policy: '".to_owned().concat(other).concat("'. Valid policies: Identity, Priced")
}

/// Exact comparison of a string slice with a literal spelling.
fn spelled(s: &str, lit: &str) -> (r: bool)
    ensures
        r == (s@ == lit@),
{
    let a = s.to_owned();
    let b = lit.to_owned();
    a == b
}

/// How a team decides which enemy to crowd-control.
#[derive(Clone, Copy, Debug, PartialEq, Eq, Structural)]
pub enum CcPolicy {
    /// CC targets are chosen by role identity and fixed guards. The default.
    Identity,
    /// CC targets are chosen by expected denial.
    Priced,
}

impl Default for CcPolicy {
    fn default() -> (r: Self)
        ensures
            r == CcPolicy::Identity,
    {
        CcPolicy::Identity
    }
}

impl CcPolicy {
    /// The stable spelling of a policy, as `name` prints it.
    pub open spec fn spec_name(self) -> Seq<char> {
        match self {
            CcPolicy::Identity => "Identity"@,
            CcPolicy::Priced => "Priced"@,
        }
    }

    /// Parse from a config string. Accepts `Identity`, `identity`, `Priced`
    /// and `priced`; anything else is an error naming the bad spelling.
    pub fn parse(s: &str) -> (r: Result<Self, String>)
        ensures
            names_identity(s@) ==> r == Ok::<CcPolicy, String>(CcPolicy::Identity),
            !names_identity(s@) && names_priced(s@) ==> r == Ok::<CcPolicy, String>(CcPolicy::Priced),
            !names_identity(s@) && !names_priced(s@) ==> (r matches Err(e) && e@ == cc_policy_error_text(s@)),
    {
        if spelled(s, "Identity") || spelled(s, "identity") {
            Ok(CcPolicy::Identity)
        } else if spelled(s, "Priced") || spelled(s, "priced") {
            Ok(CcPolicy::Priced)
        } else {
            Err(cc_policy_error(s))
        }
    }

    /// Stable string for trace and log lines.
    pub fn name(&self) -> (r: &'static str)
        ensures
            r@ == self.spec_name(),
    {
        match self {
            CcPolicy::Identity => "Identity",
            CcPolicy::Priced => "Priced",
        }
    }

    pub fn is_priced(&self) -> (r: bool)
        ensures
            r == (*self == CcPolicy::Priced),
    {
        match self {
            CcPolicy::Identity => false,
            CcPolicy::Priced => true,
        }
    }
}

/// The per-team crowd-control policy for the current match.
#[derive(Clone, Copy, Debug, PartialEq, Eq, Structural)]
pub struct CcPolicies {
    pub team1: CcPolicy,
    pub team2: CcPolicy,
}

impl Default for CcPolicies {
    fn default() -> (r: Self)
        ensures
            r.team1 == CcPolicy::Identity,
            r.team2 == CcPolicy::Identity,
    {
        CcPolicies { team1: CcPolicy::Identity, team2: CcPolicy::Identity }
    }
}

impl CcPolicies {
    /// The policy team `team` runs under: team 2 reads `team2`, every other
    /// id (including out-of-range ones) reads `team1`.
    pub open spec fn spec_for_team(self, team: u8) -> CcPolicy {
        if team == 2 { self.team2 } else { self.team1 }
    }

    pub fn uniform(policy: CcPolicy) -> (r: Self)
        ensures
            r.team1 == policy,
            r.team2 == policy,
    {
        CcPolicies { team1: policy, team2: policy }
    }

    /// The policy `team` runs under. Out-of-range team ids resolve to team 1
    /// rather than panicking.
    pub fn for_team(&self, team: u8) -> (r: CcPolicy)
        ensures
            r == self.spec_for_team(team),
    {
        if team == 2 { self.team2 } else { self.team1 }
    }

    pub fn is_head_to_head(&self) -> (r: bool)
        ensures
            r == (self.team1 != self.team2),
    {
        self.team1 != self.team2
    }
}

/// How a team decides which enemy cast to interrupt.
#[derive(Clone, Copy, Debug, PartialEq, Eq, Structural)]
pub enum InterruptPolicy {
    /// Interrupt whatever the own kill target is casting. The default.
    Identity,
    /// Scan every interruptible cast in range and pick by expected denial.
    Priced,
}

impl Default for InterruptPolicy {
    fn default() -> (r: Self)
        ensures
            r == InterruptPolicy::Identity,
    {
        InterruptPolicy::Identity
    }
}

impl InterruptPolicy {
    /// The stable spelling of a policy, as `name` prints it.
    pub open spec fn spec_name(self) -> Seq<char> {
        match self {
            InterruptPolicy::Identity => "Identity"@,
            InterruptPolicy::Priced => "Priced"@,
        }
    }

    /// Parse from a config string. Accepts `Identity`, `identity`, `Priced`
    /// and `priced`; anything else is an error naming the bad spelling.
    pub fn parse(s: &str) -> (r: Result<Self, String>)
        ensures
            names_identity(s@) ==> r == Ok::<InterruptPolicy, String>(InterruptPolicy::Identity),
            !names_identity(s@) && names_priced(s@) ==> r == Ok::<InterruptPolicy, String>(InterruptPolicy::Priced),
            !names_identity(s@) && !names_priced(s@) ==> (r matches Err(e) && e@ == interrupt_policy_error_text(s@)),
    {
        if spelled(s, "Identity") || spelled(s, "identity") {
            Ok(InterruptPolicy::Identity)
        } else if spelled(s, "Priced") || spelled(s, "priced") {
            Ok(InterruptPolicy::Priced)
        } else {
            Err(interrupt_policy_error(s))
        }
    }

    /// Stable string for trace and log lines.
    pub fn name(&self) -> (r: &'static str)
        ensures
            r@ == self.spec_name(),
    {
        match self {
            InterruptPolicy::Identity => "Identity",
            InterruptPolicy::Priced => "Priced",
        }
    }

    pub fn is_priced(&self) -> (r: bool)
        ensures
            r == (*self == InterruptPolicy::Priced),
    {
        match self {
            InterruptPolicy::Identity => false,
            InterruptPolicy::Priced => true,
        }
    }
}

/// The per-team interrupt policy for the current match.
#[derive(Clone, Copy, Debug, PartialEq, Eq, Structural)]
pub struct InterruptPolicies {
    pub team1: InterruptPolicy,
    pub team2: InterruptPolicy,
}

impl Default for InterruptPolicies {
    fn default() -> (r: Self)
        ensures
            r.team1 == InterruptPolicy::Identity,
            r.team2 == InterruptPolicy::Identity,
    {
        InterruptPolicies { team1: InterruptPolicy::Identity, team2: InterruptPolicy::Identity }
    }
}

impl InterruptPolicies {
    /// The policy team `team` runs under: team 2 reads `team2`, every other
    /// id (including out-of-range ones) reads `team1`.
    pub open spec fn spec_for_team(self, team: u8) -> InterruptPolicy {
        if team == 2 { self.team2 } else { self.team1 }
    }

    pub fn uniform(policy: InterruptPolicy) -> (r: Self)
        ensures
            r.team1 == policy,
            r.team2 == policy,
    {
        InterruptPolicies { team1: policy, team2: policy }
    }

    /// The policy `team` runs under. Out-of-range team ids resolve to team 1
    /// rather than panicking.
    pub fn for_team(&self, team: u8) -> (r: InterruptPolicy)
        ensures
            r == self.spec_for_team(team),
    {
        if team == 2 { self.team2 } else { self.team1 }
    }

    pub fn is_head_to_head(&self) -> (r: bool)
        ensures
            r == (self.team1 != self.team2),
    {
        self.team1 != self.team2
    }
}

/// A policy's stable name parses back to that policy: `name` and `parse` stay
/// in sync.
pub proof fn lemma_cc_policy_name_round_trips(p: CcPolicy)
    ensures
        names_identity(p.spec_name()) <==> p == CcPolicy::Identity,
        !names_identity(p.spec_name()) ==> names_priced(p.spec_name()),
{
    reveal_strlit("Identity");
    reveal_strlit("identity");
    reveal_strlit("Priced");
    reveal_strlit("priced");
    assert("Priced"@[0] != "Identity"@[0]);
    assert("Priced"@[0] != "identity"@[0]);
}

/// An interrupt policy's stable name parses back to that policy.
pub proof fn lemma_interrupt_policy_name_round_trips(p: InterruptPolicy)
    ensures
        names_identity(p.spec_name()) <==> p == InterruptPolicy::Identity,
        !names_identity(p.spec_name()) ==> names_priced(p.spec_name()),
{
    reveal_strlit("Identity");
    reveal_strlit("identity");
    reveal_strlit("Priced");
    reveal_strlit("priced");
    assert("Priced"@[0] != "Identity"@[0]);
    assert("Priced"@[0] != "identity"@[0]);
}

/// A uniform assignment is never a head-to-head match, and every team id,
/// in range or not, resolves to the one policy — on both axes.
pub proof fn lemma_uniform_is_not_head_to_head(cc: CcPolicy, ip: InterruptPolicy, team: u8)
    ensures
        (CcPolicies { team1: cc, team2: cc }).team1 == (CcPolicies { team1: cc, team2: cc }).team2,
        (CcPolicies { team1: cc, team2: cc }).spec_for_team(team) == cc,
        (InterruptPolicies { team1: ip, team2: ip }).team1 == (InterruptPolicies {
            team1: ip,
            team2: ip,
        }).team2,
        (InterruptPolicies { team1: ip, team2: ip }).spec_for_team(team) == ip,
{
}

/// Team ids other than 2 — including 0 and out-of-range ids — resolve to
/// team 1's policy; only 2 resolves to team 2.
pub proof fn lemma_cc_out_of_range_resolves_to_team1(p: CcPolicies, team: u8)
    requires
        team != 2,
    ensures
        p.spec_for_team(team) == p.team1,
{
}

/// A match is head-to-head exactly when the two teams resolve to different
/// policies.
pub proof fn lemma_cc_head_to_head_iff_teams_differ(p: CcPolicies)
    ensures
        (p.team1 != p.team2) <==> (p.spec_for_team(1) != p.spec_for_team(2)),
{
}

/// Team ids other than 2 resolve to team 1's interrupt policy.
pub proof fn lemma_interrupt_out_of_range_resolves_to_team1(p: InterruptPolicies, team: u8)
    requires
        team != 2,
    ensures
        p.spec_for_team(team) == p.team1,
{
}

/// A match is head-to-head on interrupts exactly when the two teams resolve
/// to different interrupt policies.
pub proof fn lemma_interrupt_head_to_head_iff_teams_differ(p: InterruptPolicies)
    ensures
        (p.team1 != p.team2) <==> (p.spec_for_team(1) != p.spec_for_team(2)),
{
}

} // verus!
