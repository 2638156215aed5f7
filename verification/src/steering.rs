//! The kinematic steering model.
//!
//! A [`Car`] keeps a pose — a position and an Euler orientation whose roll
//! and pitch are held at zero — and advances it once per tick from an
//! optional control sample and a time delta. Steering authority is scaled
//! by the throttle, so a stationary car cannot be steered; the new forward
//! direction is recomputed each tick by rotating the canonical forward
//! vector through a rotation built fresh from the orientation, with the
//! homogeneous coordinate of the direction forced back to zero before the
//! projection to three dimensions.
//!
//! With no control sample the car coasts with a frozen pose: no momentum
//! decay, no drift, the state bit-for-bit unchanged.

use vstd::prelude::*;

verus! {

use crate::fixed::div_trunc;
use crate::fixed::lemma_div_trunc_bound;
use crate::fixed::lemma_div_trunc_multiple;
use crate::fixed::lemma_div_trunc_zero;
use crate::fixed::SCALE;
use crate::matrix::mat_bounded;
use crate::matrix::rotate_direction_spec;
use crate::matrix::yaw_rotation_spec;
use crate::matrix::mat_mul_spec;
use crate::matrix::translation_spec;
use crate::matrix::Mat4;
use crate::trig::cos_milli;
use crate::trig::lemma_cos_milli_range;
use crate::trig::lemma_sin_milli_range;
use crate::trig::sin_milli;
use crate::trig::TRIG_ONE;
use crate::vector::Vec3;

/// Turn-rate gain: 3.5 radians per second at full steering input, in
/// milli-units.
pub const TURN_GAIN_MILLI: i64 = 3500;

/// Speed gain: 10 metres per second at full throttle, in milli-units.
pub const SPEED_GAIN_MILLI: i64 = 10_000;

/// Divisor rescaling a product of three milli-scaled factors and a
/// milli-scaled gain back to milli-units.
pub const GAIN_DIV: i64 = 1_000_000_000;

/// Full deflection of a control axis, the fixed-point image of 1.0.
pub const AXIS_ONE: i64 = 1000;

/// Largest accepted time delta per tick, in milliseconds.
pub const DT_LIMIT: i64 = 60_000;

/// Largest position component magnitude accepted by an update.
pub const POS_LIMIT: i64 = 1_000_000_000_000;

/// Largest yaw magnitude accepted by an update, in milliradians.
pub const YAW_LIMIT: i64 = 1_000_000_000_000_000;

/// Largest position component magnitude accepted when building a draw
/// transform.
pub const DRAW_POS_LIMIT: i64 = 10_000_000;

/// Largest entry magnitude accepted for camera matrices.
pub const CAM_LIMIT: i64 = 100_000;

/// One control sample: two axes in `[-AXIS_ONE, AXIS_ONE]`, produced fresh
/// each tick by the input collaborator. The core does not validate the
/// range; the caller clamps upstream.
#[derive(Clone, Copy, Debug, PartialEq, Eq, Structural)]
pub struct Controller {
    /// Left/right axis: negative is full left, positive full right.
    pub x_axis: i64,
    /// Forward/brake axis: positive is pedal to the metal, negative the
    /// emergency brake.
    pub y_axis: i64,
}

impl Controller {
    pub fn new(x_axis: i64, y_axis: i64) -> (c: Controller)
        ensures
            c.x_axis == x_axis,
            c.y_axis == y_axis,
    {
        Controller { x_axis, y_axis }
    }

    /// The steering axis of this sample.
    pub fn get_x_axis(&self) -> (r: i64)
        ensures
            r == self.x_axis,
    {
        self.x_axis
    }

    /// The throttle axis of this sample.
    pub fn get_y_axis(&self) -> (r: i64)
        ensures
            r == self.y_axis,
    {
        self.y_axis
    }
}

/// The steering input that actually reaches the wheels: raw steering
/// scaled by the throttle, so steering authority vanishes exactly when the
/// throttle is zero.
pub open spec fn effective_steer(steer: int, throttle: int) -> int {
    steer * throttle
}

/// The yaw after one tick: the effective steering, the time delta and the
/// turn-rate gain, rescaled to milliradians and subtracted from the yaw.
pub open spec fn next_yaw(yaw: int, steer: int, throttle: int, dt: int) -> int {
    yaw - div_trunc(effective_steer(steer, throttle) * dt * (TURN_GAIN_MILLI as int), GAIN_DIV as int)
}

/// The forward direction of a yaw angle: the canonical forward vector
/// `(0, SCALE, 0)` rotated through the yaw rotation, homogeneous
/// coordinate forced to zero on the way back.
pub open spec fn forward_dir(yaw: int) -> (int, int, int) {
    rotate_direction_spec(yaw_rotation_spec(cos_milli(yaw), sin_milli(yaw)), 0, SCALE as int, 0)
}

/// One position component after one tick: a forward-direction component,
/// the throttle, the time delta and the speed gain, rescaled and added.
pub open spec fn pos_step(p: int, f: int, throttle: int, dt: int) -> int {
    p + div_trunc(f * throttle * dt * (SPEED_GAIN_MILLI as int), GAIN_DIV as int)
}

/// The rotation of a yaw angle sends the canonical forward vector to
/// exactly `(-sin, cos, 0)`: the fixed-point rescaling cancels against the
/// canonical vector's scale.
pub proof fn lemma_forward_dir(yaw: int)
    ensures
        forward_dir(yaw) == (-sin_milli(yaw), cos_milli(yaw), 0int),
{
    lemma_div_trunc_multiple(-sin_milli(yaw), SCALE as int);
    lemma_div_trunc_multiple(cos_milli(yaw), SCALE as int);
    lemma_div_trunc_zero(SCALE as int);
}

/// Zero throttle suppresses every steering input: whatever the steering
/// axis and the time delta, the yaw after the tick is the yaw before it.
pub proof fn lemma_steer_gated_by_throttle(yaw: int, steer: int, dt: int)
    ensures
        next_yaw(yaw, steer, 0, dt) == yaw,
{
    assert(effective_steer(steer, 0) == 0);
    lemma_div_trunc_zero(GAIN_DIV as int);
}

/// A car that steers and accelerates like a simplified vehicle. The pose
/// is owned exclusively by the car and mutated only by [`Car::run`].
pub struct Car {
    /// The center of mass of the car.
    ///
    /// Note that the car does not rotate around this point. It rotates
    /// around the rear axle.
    pub center_of_mass: Vec3,
    /// The Euler orientation of the car; only the yaw (`z`) component is
    /// ever nonzero — the car never rolls or pitches.
    pub orientation: Vec3,
    /// Mass of the car in grams. Always positive after construction.
    pub mass: i64,
    /// Distance of the front axle from the center of mass, in
    /// millimetres. Declared for a future bicycle model; never read by the
    /// update.
    pub dist_front_axle: i64,
    /// Distance of the rear axle from the center of mass, in millimetres.
    /// Declared for a future bicycle model; never read by the update.
    pub dist_rear_axle: i64,
}

impl Car {
    /// The car's internal invariant: positive mass, and an orientation
    /// whose roll and pitch are held at zero.
    pub open spec fn wf(self) -> bool {
        &&& self.mass > 0
        &&& self.orientation.x == 0
        &&& self.orientation.y == 0
    }

    /// A car at `center_of_mass` with the given mass in grams. A mass not
    /// above one kilogram is silently replaced by the default mass of one
    /// kilogram — the deliberate validation policy of this model, as
    /// opposed to the failing constructor of the point-mass model.
    pub fn new(center_of_mass: Vec3, mass: i64) -> (car: Car)
        ensures
            car.center_of_mass == center_of_mass,
            car.orientation.x == 0 && car.orientation.y == 0 && car.orientation.z == 0,
            car.mass == if mass > SCALE { mass as int } else { SCALE as int },
            car.dist_front_axle == SCALE,
            car.dist_rear_axle == SCALE,
            car.wf(),
    {
        let mut car: Car = Default::default();
        car.center_of_mass = center_of_mass;
        if mass > SCALE {
            car.mass = mass;
        }
        car
    }

    /// Update the car pose from the internal car state for a given time
    /// step.
    ///
    /// With no control sample the pose is frozen. With one, the yaw turns
    /// by the throttle-gated steering, and the position advances along the
    /// forward direction of the new orientation, scaled by throttle and
    /// speed gain. Orientation and position are integrated open loop, with
    /// no clamping.
    pub fn run(&mut self, delta_time_ms: i64, controller: Option<Controller>)
        requires
            old(self).wf(),
            // A controlled tick computes; only it needs the fixed-point
            // headroom. Coasting is frozen state on any pose whatever.
            controller matches Some(ct) ==> {
                &&& -DT_LIMIT <= delta_time_ms <= DT_LIMIT
                &&& -POS_LIMIT <= old(self).center_of_mass.x <= POS_LIMIT
                &&& -POS_LIMIT <= old(self).center_of_mass.y <= POS_LIMIT
                &&& -POS_LIMIT <= old(self).center_of_mass.z <= POS_LIMIT
                &&& -YAW_LIMIT <= old(self).orientation.z <= YAW_LIMIT
                &&& -AXIS_ONE <= ct.x_axis <= AXIS_ONE
                &&& -AXIS_ONE <= ct.y_axis <= AXIS_ONE
            },
        ensures
            final(self).wf(),
            final(self).mass == old(self).mass,
            final(self).dist_front_axle == old(self).dist_front_axle,
            final(self).dist_rear_axle == old(self).dist_rear_axle,
            controller is None ==> *final(self) == *old(self),
            controller matches Some(ct) ==> {
                let yaw = next_yaw(old(self).orientation.z as int, ct.x_axis as int, ct.y_axis as int, delta_time_ms as int);
                let fwd = forward_dir(yaw);
                &&& final(self).orientation.z == yaw
                &&& final(self).orientation.x == 0
                &&& final(self).orientation.y == 0
                &&& final(self).center_of_mass.x == pos_step(old(self).center_of_mass.x as int, fwd.0, ct.y_axis as int, delta_time_ms as int)
                &&& final(self).center_of_mass.y == pos_step(old(self).center_of_mass.y as int, fwd.1, ct.y_axis as int, delta_time_ms as int)
                &&& final(self).center_of_mass.z == pos_step(old(self).center_of_mass.z as int, fwd.2, ct.y_axis as int, delta_time_ms as int)
            },
    {
        if let Some(ct) = controller {
            let accel = ct.get_y_axis();
            proof {
                assert(-1_000_000 <= ct.x_axis * ct.y_axis <= 1_000_000) by (nonlinear_arith)
                    requires
                        -1000 <= ct.x_axis <= 1000,
                        -1000 <= ct.y_axis <= 1000,
                ;
            }
            let steer = ct.get_x_axis() * accel;
            proof {
                assert(
                    -210_000_000_000_000 <= steer * delta_time_ms * TURN_GAIN_MILLI <= 210_000_000_000_000
                ) by (nonlinear_arith)
                    requires
                        -1_000_000 <= steer <= 1_000_000,
                        -60_000 <= delta_time_ms <= 60_000,
                        TURN_GAIN_MILLI == 3500,
                ;
                lemma_div_trunc_bound(
                    steer as int * delta_time_ms as int * TURN_GAIN_MILLI as int,
                    GAIN_DIV as int,
                    210_000_000_000_000,
                );
            }
            let dyaw = steer * delta_time_ms * TURN_GAIN_MILLI / GAIN_DIV;
            self.orientation.z = self.orientation.z - dyaw;

            let rot_mat = Mat4::rotation(&self.orientation);
            let forward = Vec3::new(0, SCALE, 0);
            let fwd = rot_mat.rotate_direction(&forward);
            proof {
                lemma_forward_dir(self.orientation.z as int);
                lemma_sin_milli_range(self.orientation.z as int);
                lemma_cos_milli_range(self.orientation.z as int);
            }
            let dx = self.advance_component(fwd.x, accel, delta_time_ms);
            let dy = self.advance_component(fwd.y, accel, delta_time_ms);
            let dz = self.advance_component(fwd.z, accel, delta_time_ms);
            self.center_of_mass.x = self.center_of_mass.x + dx;
            self.center_of_mass.y = self.center_of_mass.y + dy;
            self.center_of_mass.z = self.center_of_mass.z + dz;
        }
    }

    /// One component of the position advance: a forward-direction
    /// component scaled by throttle, time delta and speed gain.
    fn advance_component(&self, f: i64, throttle: i64, dt: i64) -> (d: i64)
        requires
            -TRIG_ONE <= f <= TRIG_ONE,
            -AXIS_ONE <= throttle <= AXIS_ONE,
            -DT_LIMIT <= dt <= DT_LIMIT,
        ensures
            d == div_trunc(f as int * throttle as int * dt as int * (SPEED_GAIN_MILLI as int), GAIN_DIV as int),
            -600_000 <= d <= 600_000,
    {
        proof {
            assert(
                -600_000_000_000_000 <= f * throttle * dt * SPEED_GAIN_MILLI <= 600_000_000_000_000
                    && -1_000_000 <= f * throttle <= 1_000_000
                    && -60_000_000_000 <= f * throttle * dt <= 60_000_000_000
            ) by (nonlinear_arith)
                requires
                    -1000 <= f <= 1000,
                    -1000 <= throttle <= 1000,
                    -60_000 <= dt <= 60_000,
                    SPEED_GAIN_MILLI == 10_000,
            ;
            lemma_div_trunc_bound(
                f as int * throttle as int * dt as int * (SPEED_GAIN_MILLI as int),
                GAIN_DIV as int,
                600_000_000_000_000,
            );
        }
        f * throttle * dt * SPEED_GAIN_MILLI / GAIN_DIV
    }

    /// The model-view-projection transform of this pose: the model
    /// transform composes the translation to the position with the
    /// yaw-only rotation, and the camera's projection and view are applied
    /// in front. The caller hands the result to the rendering
    /// collaborator; nothing here mutates the car.
    pub fn draw_transform(&self, view: &Mat4, projection: &Mat4) -> (mvp: Mat4)
        requires
            self.wf(),
            mat_bounded(view@, CAM_LIMIT as int),
            mat_bounded(projection@, CAM_LIMIT as int),
            -DRAW_POS_LIMIT <= self.center_of_mass.x <= DRAW_POS_LIMIT,
            -DRAW_POS_LIMIT <= self.center_of_mass.y <= DRAW_POS_LIMIT,
            -DRAW_POS_LIMIT <= self.center_of_mass.z <= DRAW_POS_LIMIT,
        ensures
            mvp@ == mat_mul_spec(
                mat_mul_spec(projection@, view@),
                mat_mul_spec(
                    translation_spec(self.center_of_mass.x as int, self.center_of_mass.y as int, self.center_of_mass.z as int),
                    yaw_rotation_spec(cos_milli(self.orientation.z as int), sin_milli(self.orientation.z as int)),
                ),
            ),
    {
        // Roll and pitch are fixed to 0. No rollovers!
        let rotation = Mat4::rotation(&self.orientation);
        let translation = Mat4::translation(&self.center_of_mass);
        proof {
            crate::matrix::lemma_mat_mul_bounded(translation@, rotation@, DRAW_POS_LIMIT as int, SCALE as int);
            crate::matrix::lemma_mat_mul_bounded(projection@, view@, CAM_LIMIT as int, CAM_LIMIT as int);
        }
        let model = translation.mul(&rotation);
        let pv = projection.mul(view);
        pv.mul(&model)
    }
}

impl Default for Car {
    /// A car at the origin, facing forward, with the default mass of one
    /// kilogram and unit axle distances.
    fn default() -> (car: Car)
        ensures
            car.center_of_mass.x == 0 && car.center_of_mass.y == 0 && car.center_of_mass.z == 0,
            car.orientation.x == 0 && car.orientation.y == 0 && car.orientation.z == 0,
            car.mass == SCALE,
            car.dist_front_axle == SCALE,
            car.dist_rear_axle == SCALE,
            car.wf(),
    {
        Car {
            center_of_mass: Vec3::zero(),
            orientation: Vec3::zero(),
            mass: SCALE,
            dist_front_axle: SCALE,
            dist_rear_axle: SCALE,
        }
    }
}

} // verus!
