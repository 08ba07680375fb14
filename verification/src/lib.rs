//! Verified decision core of the arena combat AI: per-team policies, aura
//! classification, crowd-control value bookkeeping, the movement-posture state
//! machines, the per-class ability ladders, camera-mode cycling and target
//! selection over a per-frame snapshot of the combatants.
pub mod policy;
pub mod roster;
pub mod aura;
pub mod cc_value;
pub mod postures;
pub mod camera;
pub mod context;
pub mod selection;
pub mod cast_guard;
pub mod kidney;
pub mod pets;
pub mod rotation;
pub mod pet_dispatch;
pub mod hunter_dip;
pub mod paladin_dip;
pub mod priest_dip;
pub mod kiting;
pub mod guards;
