//! Grid-quantized actor/solid kinematics: a platformer physics core that
//! advances every movable body in whole-unit steps, carries sub-unit motion in
//! a per-axis remainder, and stops actors flush against static solids.
//!
//! Scalars (positions, velocities, times) are fixed-point integers with
//! [`math::UNIT`] sub-units per world unit, so every trajectory is an exact,
//! reproducible function of its inputs.

pub mod animation;
pub mod body;
pub mod collision;
pub mod laws;
pub mod level;
pub mod math;
pub mod player;
pub mod sweep;
pub mod world;
