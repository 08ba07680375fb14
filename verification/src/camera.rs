//! Camera-mode logic for the match view: cycling through follow targets,
//! switching to manual control on user input, and the mode's display label.
use vstd::prelude::*;

verus! {

/// What the match camera looks at.
#[derive(Clone, Copy, Debug, PartialEq, Eq, Structural)]
pub enum CameraMode {
    /// The centre of all living combatants.
    FollowCenter,
    /// One combatant, by entity id.
    FollowCombatant(u64),
    /// A user-controlled point.
    Manual,
}

/// Index of the first occurrence of `e` in `s`, or `s.len()` if absent.
pub open spec fn first_index_of(s: Seq<u64>, e: u64) -> int
    decreases s.len(),
{
    if s.len() == 0 {
        0
    } else if s[0] == e {
        0
    } else {
        1 + first_index_of(s.drop_first(), e)
    }
}

/// The mode the cycle key moves to, given the combatant entities in query
/// order: the centre view moves to the first combatant (or stays put when
/// there is none); a follow view moves to the combatant after the followed
/// one, or to manual control when it was the last or is gone; manual control
/// returns to the centre view.
pub open spec fn spec_cycle_camera_mode(mode: CameraMode, combatants: Seq<u64>) -> CameraMode {
    match mode {
        CameraMode::FollowCenter => if combatants.len() > 0 {
            CameraMode::FollowCombatant(combatants[0])
        } else {
            CameraMode::FollowCenter
        },
        CameraMode::FollowCombatant(cur) => {
            let i = first_index_of(combatants, cur);
            if i + 1 < combatants.len() {
                CameraMode::FollowCombatant(combatants[i + 1])
            } else {
                CameraMode::Manual
            }
        },
        CameraMode::Manual => CameraMode::FollowCenter,
    }
}

proof fn lemma_first_index_of_bounds(s: Seq<u64>, e: u64)
    ensures
        0 <= first_index_of(s, e) <= s.len(),
        first_index_of(s, e) < s.len() ==> s[first_index_of(s, e)] == e,
        forall|j: int| 0 <= j < first_index_of(s, e) ==> s[j] != e,
    decreases s.len(),
{
    if s.len() > 0 && s[0] != e {
        lemma_first_index_of_bounds(s.drop_first(), e);
        assert forall|j: int| 0 <= j < first_index_of(s, e) implies s[j] != e by {
            if j > 0 {
                assert(s[j] == s.drop_first()[j - 1]);
            }
        }
    }
}

/// Cycle the camera mode (the cycle key was pressed).
pub fn cycle_camera_mode(mode: CameraMode, combatants: &Vec<u64>) -> (r: CameraMode)
    ensures
        r == spec_cycle_camera_mode(mode, combatants@),
{
    match mode {
        CameraMode::FollowCenter => {
            if combatants.len() > 0 {
                CameraMode::FollowCombatant(combatants[0])
            } else {
                CameraMode::FollowCenter
            }
        },
        CameraMode::FollowCombatant(current) => {
            proof {
                lemma_first_index_of_bounds(combatants@, current);
            }
            let mut i: usize = 0;
            while i < combatants.len()
                invariant
                    mode == CameraMode::FollowCombatant(current),
                    0 <= i <= combatants.len(),
                    forall|j: int| 0 <= j < i ==> combatants@[j] != current,
                    0 <= first_index_of(combatants@, current) <= combatants@.len(),
                    first_index_of(combatants@, current) < combatants@.len() ==> combatants@[first_index_of(
                        combatants@,
                        current,
                    )] == current,
                    forall|j: int|
                        0 <= j < first_index_of(combatants@, current) ==> combatants@[j] != current,
                decreases combatants.len() - i,
            {
                if combatants[i] == current {
                    assert(first_index_of(combatants@, current) == i);
                    if i + 1 < combatants.len() {
                        return CameraMode::FollowCombatant(combatants[i + 1]);
                    } else {
                        return CameraMode::Manual;
                    }
                }
                i = i + 1;
            }
            assert(first_index_of(combatants@, current) == combatants@.len());
            CameraMode::Manual
        },
        CameraMode::Manual => CameraMode::FollowCenter,
    }
}

/// Dragging or keyboard panning switches a non-manual camera to manual
/// control (the caller preserves the current look-at point).
pub fn needs_manual_switch(mode: CameraMode, is_dragging: bool, keyboard_moving: bool) -> (r: bool)
    ensures
        r == ((is_dragging || keyboard_moving) && mode != CameraMode::Manual),
{
    (is_dragging || keyboard_moving) && !matches!(mode, CameraMode::Manual)
}

/// The mode's label in the camera-controls overlay.
pub open spec fn spec_camera_mode_label(mode: CameraMode) -> Seq<char> {
    match mode {
        CameraMode::FollowCenter => "Center"@,
        CameraMode::FollowCombatant(_) => "Follow Combatant"@,
        CameraMode::Manual => "Manual"@,
    }
}

/// The mode's label in the camera-controls overlay.
pub fn camera_mode_label(mode: CameraMode) -> (r: &'static str)
    ensures
        r@ == spec_camera_mode_label(mode),
{
    match mode {
        CameraMode::FollowCenter => "Center",
        CameraMode::FollowCombatant(_) => "Follow Combatant",
        CameraMode::Manual => "Manual",
    }
}

/// Pressing the cycle key from the centre view with `n` combatants (no
/// entity repeated) visits each of them in order, then manual control, then
/// the centre view again: the cycle is a tour of length `n + 2`.
pub proof fn lemma_cycle_visits_each_combatant_in_order(combatants: Seq<u64>, k: int)
    requires
        combatants.no_duplicates(),
        0 <= k < combatants.len(),
    ensures
        k == 0 ==> spec_cycle_camera_mode(CameraMode::FollowCenter, combatants)
            == CameraMode::FollowCombatant(combatants[0]),
        k + 1 < combatants.len() ==> spec_cycle_camera_mode(
            CameraMode::FollowCombatant(combatants[k]),
            combatants,
        ) == CameraMode::FollowCombatant(combatants[k + 1]),
        k + 1 == combatants.len() ==> spec_cycle_camera_mode(
            CameraMode::FollowCombatant(combatants[k]),
            combatants,
        ) == CameraMode::Manual,
        spec_cycle_camera_mode(CameraMode::Manual, combatants) == CameraMode::FollowCenter,
{
    lemma_first_index_of_bounds(combatants, combatants[k]);
    let i = first_index_of(combatants, combatants[k]);
    if i != k {
        assert(i < k);
        assert(combatants[i] == combatants[k]);
    }
}

/// With no combatants the centre view stays put under the cycle key, and a
/// follow view of a combatant that is gone falls to manual control.
pub proof fn lemma_cycle_without_combatants(cur: u64)
    ensures
        spec_cycle_camera_mode(CameraMode::FollowCenter, Seq::<u64>::empty()) == CameraMode::FollowCenter,
        spec_cycle_camera_mode(CameraMode::FollowCombatant(cur), Seq::<u64>::empty()) == CameraMode::Manual,
{
}

} // verus!
