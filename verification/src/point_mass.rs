//! The Newtonian point-mass model.
//!
//! A [`PointMassCar`] is a planar point mass under a constant applied
//! force, integrated with a fixed time step in semi-implicit (Verlet
//! style) order: the position update uses the velocity from before the
//! step plus half the acceleration term, and only then is the velocity
//! updated from the acceleration alone. The order matters: swapping it
//! changes the numerical result.
//!
//! Unlike the steering model's silent mass fallback, this constructor
//! fails on a non-positive mass — the documented validation policy of
//! this variant.

use vstd::prelude::*;

verus! {

use crate::fixed::div_trunc;
use crate::fixed::lemma_div_trunc_bound;
use crate::fixed::SCALE;
use crate::matrix::Mat4;
use crate::vector::Vec2;

/// Largest accepted time step per tick, in milliseconds.
pub const STEP_LIMIT: i64 = 60_000;

/// Largest position component magnitude accepted by an integration step.
pub const POS_LIMIT: i64 = 1_000_000_000_000;

/// Largest velocity component magnitude accepted by an integration step.
pub const VEL_LIMIT: i64 = 1_000_000_000;

/// Largest acceleration component magnitude accepted by an integration
/// step, in milli-units.
pub const ACCEL_LIMIT: i64 = 1_000_000_000;

/// Largest force component magnitude a car can be constructed with.
pub const FORCE_LIMIT: i64 = 1_000_000_000_000;

/// Divisor of the half-acceleration position term: twice the square of
/// the milli scale, absorbing the two milli-scaled time factors and the
/// factor 2 of the kinematic formula.
pub const HALF_ACCEL_DIV: i64 = 2_000_000;

/// Why a point-mass car could not be built.
#[derive(Clone, Copy, Debug, PartialEq, Eq, Structural)]
pub enum ConstructionError {
    /// The requested mass was zero or negative.
    NonPositiveMass,
}

/// The acceleration a force imparts to a mass, in milli-units:
/// `force / mass`, rescaled by the truncating division of the machine.
pub open spec fn accel_milli(force: int, mass: int) -> int {
    div_trunc(force * (SCALE as int), mass)
}

/// One position component after a step: the pre-step velocity term plus
/// half the acceleration term, each rescaled by truncating division.
pub open spec fn next_position(p: int, v: int, a: int, dt: int) -> int {
    p + div_trunc(v * dt, SCALE as int) + div_trunc(a * dt * dt, HALF_ACCEL_DIV as int)
}

/// One velocity component after a step: the acceleration term alone.
pub open spec fn next_velocity(v: int, a: int, dt: int) -> int {
    v + div_trunc(a * dt, SCALE as int)
}

/// A planar point mass under a constant force. Position, velocity and the
/// force are fixed-point vectors; the mass is in grams and positive after
/// construction.
#[derive(Debug)]
pub struct PointMassCar {
    /// Where the point mass is.
    pub position: Vec2,
    /// A rotation angle in milliradians. Present but never updated by the
    /// integrator; retained as a placeholder.
    pub rotation: i64,
    /// How fast the point mass moves.
    pub velocity: Vec2,
    /// The constant applied force, fixed at construction.
    pub force: Vec2,
    /// Mass in grams. Always positive after construction.
    pub mass: i64,
}

impl PointMassCar {
    /// The model's internal invariant: positive mass.
    pub open spec fn wf(self) -> bool {
        self.mass > 0
    }

    /// A point mass with the given initial state. Construction fails if
    /// and only if the mass is zero or negative.
    pub fn new(position: Vec2, velocity: Vec2, force: Vec2, mass: i64) -> (r: Result<
        PointMassCar,
        ConstructionError,
    >)
        ensures
            mass <= 0 <==> r is Err,
            r matches Ok(car) ==> car.position == position && car.rotation == 0
                && car.velocity == velocity && car.force == force && car.mass == mass && car.wf(),
            r matches Err(e) ==> e == ConstructionError::NonPositiveMass,
    {
        if mass <= 0 {
            Err(ConstructionError::NonPositiveMass)
        } else {
            Ok(PointMassCar { position, rotation: 0, velocity, force, mass })
        }
    }

    /// Advance the state by one fixed time step.
    ///
    /// The position moves by the pre-step velocity plus half the
    /// acceleration term; the velocity then gains the acceleration term.
    /// A zero or negative step is accepted and produces the corresponding
    /// algebraic result.
    pub fn advance(&mut self, time_step_ms: i64)
        requires
            old(self).wf(),
            -STEP_LIMIT <= time_step_ms <= STEP_LIMIT,
            -POS_LIMIT <= old(self).position.x <= POS_LIMIT,
            -POS_LIMIT <= old(self).position.y <= POS_LIMIT,
            -VEL_LIMIT <= old(self).velocity.x <= VEL_LIMIT,
            -VEL_LIMIT <= old(self).velocity.y <= VEL_LIMIT,
            -FORCE_LIMIT <= old(self).force.x <= FORCE_LIMIT,
            -FORCE_LIMIT <= old(self).force.y <= FORCE_LIMIT,
            -ACCEL_LIMIT <= accel_milli(old(self).force.x as int, old(self).mass as int) <= ACCEL_LIMIT,
            -ACCEL_LIMIT <= accel_milli(old(self).force.y as int, old(self).mass as int) <= ACCEL_LIMIT,
        ensures
            final(self).wf(),
            ({
                let ax = accel_milli(old(self).force.x as int, old(self).mass as int);
                let ay = accel_milli(old(self).force.y as int, old(self).mass as int);
                &&& final(self).position.x == next_position(old(self).position.x as int, old(self).velocity.x as int, ax, time_step_ms as int)
                &&& final(self).position.y == next_position(old(self).position.y as int, old(self).velocity.y as int, ay, time_step_ms as int)
                &&& final(self).velocity.x == next_velocity(old(self).velocity.x as int, ax, time_step_ms as int)
                &&& final(self).velocity.y == next_velocity(old(self).velocity.y as int, ay, time_step_ms as int)
            }),
            final(self).rotation == old(self).rotation,
            final(self).force == old(self).force,
            final(self).mass == old(self).mass,
    {
        let ax = self.force.x * SCALE / self.mass;
        let ay = self.force.y * SCALE / self.mass;
        let t1x = self.integration_term(self.velocity.x, time_step_ms);
        let t1y = self.integration_term(self.velocity.y, time_step_ms);
        let t2x = self.half_accel_term(ax, time_step_ms);
        let t2y = self.half_accel_term(ay, time_step_ms);
        self.position.x = self.position.x + t1x + t2x;
        self.position.y = self.position.y + t1y + t2y;
        let dvx = self.integration_term(ax, time_step_ms);
        let dvy = self.integration_term(ay, time_step_ms);
        self.velocity.x = self.velocity.x + dvx;
        self.velocity.y = self.velocity.y + dvy;
    }

    /// A rate times the time step, rescaled to milli-units.
    fn integration_term(&self, rate: i64, dt: i64) -> (r: i64)
        requires
            -ACCEL_LIMIT <= rate <= ACCEL_LIMIT,
            -STEP_LIMIT <= dt <= STEP_LIMIT,
        ensures
            r == div_trunc(rate as int * dt as int, SCALE as int),
            -60_000_000_000 <= r <= 60_000_000_000,
    {
        proof {
            assert(-60_000_000_000_000 <= rate * dt <= 60_000_000_000_000) by (nonlinear_arith)
                requires
                    -1_000_000_000 <= rate <= 1_000_000_000,
                    -60_000 <= dt <= 60_000,
            ;
            lemma_div_trunc_bound(rate as int * dt as int, SCALE as int, 60_000_000_000_000);
        }
        rate * dt / SCALE
    }

    /// Half the acceleration term of the position update: the
    /// acceleration times the squared time step, rescaled and halved.
    fn half_accel_term(&self, a: i64, dt: i64) -> (r: i64)
        requires
            -ACCEL_LIMIT <= a <= ACCEL_LIMIT,
            -STEP_LIMIT <= dt <= STEP_LIMIT,
        ensures
            r == div_trunc(a as int * dt as int * dt as int, HALF_ACCEL_DIV as int),
            -1_800_000_000_000 <= r <= 1_800_000_000_000,
    {
        proof {
            assert(
                -60_000_000_000_000 <= a * dt <= 60_000_000_000_000
                    && -3_600_000_000_000_000_000 <= a * dt * dt <= 3_600_000_000_000_000_000
            ) by (nonlinear_arith)
                requires
                    -1_000_000_000 <= a <= 1_000_000_000,
                    -60_000 <= dt <= 60_000,
            ;
            lemma_div_trunc_bound(
                a as int * dt as int * dt as int,
                HALF_ACCEL_DIV as int,
                3_600_000_000_000_000_000,
            );
        }
        a * dt * dt / HALF_ACCEL_DIV
    }

    /// Accept the camera matrices and submit nothing: in this variant the
    /// draw operation is a documented stub — a no-op that mutates no state
    /// and raises no error.
    pub fn render(&self, _view: &Mat4, _projection: &Mat4) {
    }
}

} // verus!
