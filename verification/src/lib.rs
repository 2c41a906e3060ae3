//! Core logic of a 2D arcade shooter: a bounded allocator that hands out
//! shared elliptical flight-path templates, and a per-tick integrator that
//! eases each enemy toward its moving target point on the ellipse.
//!
//! All quantities are fixed-point integers in milli-units (one pixel,
//! one second or one radian is `SCALE` units), so that every step of the
//! motion model is exact and provable.

pub mod geom;
pub mod motion;
pub mod formation;
pub mod player;
pub mod systems;
pub mod trig;
