//! The discrete half of the crowd-control value model: which bound capped a
//! duration prediction, the attacker composition on a target, and which of
//! the measured dispel regimes applies.
use vstd::prelude::*;

verus! {

/// Which bound determined a `T_eff` prediction, before any dispel adjustment.
#[derive(Clone, Copy, Debug, PartialEq, Eq, Structural)]
pub enum TEffCap {
    /// The aura's own applied duration was the binding limit.
    Duration,
    /// Incoming damage is expected to exhaust the break budget first.
    BreakBudget,
}

/// How many living enemies are currently pointed at the CC target, by
/// delivery mode.
#[derive(Clone, Copy, Debug, PartialEq, Eq, Structural)]
pub struct AttackerMix {
    pub melee: u32,
    pub ranged: u32,
}

impl Default for AttackerMix {
    fn default() -> (r: Self)
        ensures
            r.melee == 0,
            r.ranged == 0,
    {
        AttackerMix { melee: 0, ranged: 0 }
    }
}

impl AttackerMix {
    /// Every attacker, melee and ranged.
    pub fn total(&self) -> (r: u32)
        requires
            self.melee + self.ranged <= u32::MAX,
        ensures
            r == self.melee + self.ranged,
    {
        self.melee + self.ranged
    }
}

/// The four measured dispel regimes, by how many free dispellers can reach
/// the aura and whether the crowd control carries its victim away from them.
#[derive(Clone, Copy, Debug, PartialEq, Eq, Structural)]
pub enum DispelRegime {
    /// Nobody able to dispel.
    Unanswered,
    /// At least one dispeller, and the victim stays put.
    StationaryAnswerable,
    /// Feared away from their only dispeller.
    FledSoleDispeller,
    /// Feared, but a second dispeller covers the gap.
    FledCovered,
}

/// The regime a `(free_dispellers, displaces_target)` pair falls in.
pub open spec fn spec_dispel_regime(free_dispellers: u32, displaces_target: bool) -> DispelRegime {
    if free_dispellers == 0 {
        DispelRegime::Unanswered
    } else if !displaces_target {
        DispelRegime::StationaryAnswerable
    } else if free_dispellers == 1 {
        DispelRegime::FledSoleDispeller
    } else {
        DispelRegime::FledCovered
    }
}

/// Select the dispel regime: no dispeller at all, a stationary answerable
/// target, a target feared away from its only dispeller, or a feared target
/// with cover.
pub fn dispel_regime(free_dispellers: u32, displaces_target: bool) -> (r: DispelRegime)
    ensures
        r == spec_dispel_regime(free_dispellers, displaces_target),
{
    match (free_dispellers, displaces_target) {
        (0, _) => DispelRegime::Unanswered,
        (_, false) => DispelRegime::StationaryAnswerable,
        (1, true) => DispelRegime::FledSoleDispeller,
        (_, true) => DispelRegime::FledCovered,
    }
}

/// Displacement matters only when someone could answer: with no free
/// dispeller the regime is the same whether or not the victim flees, and a
/// stationary victim never lands in a fled regime.
pub proof fn lemma_dispel_regime_shape(free: u32, displaces: bool)
    ensures
        free == 0 ==> spec_dispel_regime(free, displaces) == DispelRegime::Unanswered,
        free > 0 && !displaces ==> spec_dispel_regime(free, displaces)
            == DispelRegime::StationaryAnswerable,
        free >= 2 && displaces ==> spec_dispel_regime(free, displaces) == DispelRegime::FledCovered,
{
}

} // verus!
