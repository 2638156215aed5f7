//! Fixed-point simulation core for a car-like rigid body.
//!
//! The library advances the pose of a car from a control sample and a time
//! delta, in two alternative models: a kinematic steering model
//! ([`steering::Car`]) and a Newtonian constant-force point mass
//! ([`point_mass::PointMassCar`]).
//!
//! All quantities are fixed-point integers scaled by 1000 ("milli" units):
//! positions in millimetres, angles in milliradians, control axes in
//! thousandths of full deflection, masses in grams, and time deltas in
//! milliseconds. The scaling keeps every update step exact integer
//! arithmetic, so each contract pins the resulting state down to the bit.

pub mod fixed;
pub mod matrix;
pub mod point_mass;
pub mod steering;
pub mod trig;
pub mod vector;
