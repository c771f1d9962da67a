//! An orbit-style third-person camera controller.
//!
//! The camera keeps a [`LookTransform`] (eye position, look-at target, world-up
//! reference) and updates it once per tick from accumulated pointer, scroll and
//! button input, or from a slow automatic orbit. All quantities are fixed-point
//! integers in micro-units: the value `1_000_000` stands for `1.0` (one world
//! unit, one radian, or one second, depending on the quantity).

pub mod automatic;
pub mod control;
pub mod fixed;
pub mod transform;
pub mod trig;
pub mod vec3;

pub use control::Controller;
pub use control::LookAngles;
pub use transform::LookTransform;
