//! A verified 2D physics and collision core: a fixed-timestep rigid-body
//! integrator, a small shape library (axis-aligned box, oriented box, circle)
//! with exact intersection tests, a layer-masked pairwise collision detector,
//! and a render-time transform extrapolation scheme.
//!
//! All quantities are fixed-point integers: a value of `x` stands for the
//! real number `x / FX_ONE`. Every geometric predicate is exact integer
//! arithmetic over that representation, so each function's contract pins its
//! result completely.

pub mod actions;
pub mod bounding;
pub mod collision;
pub mod controller;
pub mod fxmath;
pub mod layers;
pub mod movement;
pub mod obb;
pub mod plugin;
pub mod rot2;
pub mod ship;
pub mod vec2;
