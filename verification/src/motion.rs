//! The per-frame motion integrator.
//!
//! Every moving object carries a linear velocity and an angular velocity
//! (radians per second about each axis, in fixed-point units). Once per
//! frame the integrator advances the object's translation by `velocity * dt`
//! component-wise and accumulates the incremental Euler angles
//! `angular_velocity * dt`; the host engine composes each increment onto the
//! object's orientation (axis order x, then y, then z). There is no
//! clamping and no failure mode; an object without these components is
//! simply left alone by the caller.

use vstd::prelude::*;
use crate::fixed::{
    fx_mul, in_lim, in_pos_lim, lemma_scale_mul_neg, scale_mul, vec_in_lim, vec_in_pos_lim,
    Vec3fx,
};

verus! {

/// Linear velocity of a moving object, in fixed-point units per second.
#[derive(Clone, Copy, PartialEq, Eq, Structural, Debug)]
pub struct Velocity {
    pub value: Vec3fx,
}

/// Angular velocity of a moving object, in fixed-point radians per second
/// about each axis.
#[derive(Clone, Copy, PartialEq, Eq, Structural, Debug)]
pub struct AngularVelocity {
    pub value: Vec3fx,
}

/// Where a moving object stands: its translation, and the Euler angle it
/// has accumulated about each axis. The increments handed to the engine
/// each frame sum to `rotation`, so for a single-axis spin `rotation` is
/// the object's total turn in fixed-point radians.
#[derive(Clone, Copy, PartialEq, Eq, Structural, Debug)]
pub struct Pose {
    pub translation: Vec3fx,
    pub rotation: Vec3fx,
}

/// One integration step of a single coordinate: the coordinate moves by the
/// fixed-point product of rate and elapsed time.
pub open spec fn step_coord(p: int, rate: int, dt: int) -> int {
    p + scale_mul(rate, dt)
}

/// Advances the translation by `velocity * dt` component-wise; the
/// accumulated rotation is untouched.
pub fn update_position(pose: &mut Pose, velocity: &Velocity, dt: i64)
    requires
        vec_in_lim(velocity.value),
        in_lim(dt as int),
        vec_in_pos_lim(old(pose).translation),
    ensures
        final(pose).translation.x as int == step_coord(
            old(pose).translation.x as int,
            velocity.value.x as int,
            dt as int,
        ),
        final(pose).translation.y as int == step_coord(
            old(pose).translation.y as int,
            velocity.value.y as int,
            dt as int,
        ),
        final(pose).translation.z as int == step_coord(
            old(pose).translation.z as int,
            velocity.value.z as int,
            dt as int,
        ),
        final(pose).rotation == old(pose).rotation,
{
    pose.translation.x = pose.translation.x + fx_mul(velocity.value.x, dt);
    pose.translation.y = pose.translation.y + fx_mul(velocity.value.y, dt);
    pose.translation.z = pose.translation.z + fx_mul(velocity.value.z, dt);
}

/// The incremental Euler angles for one frame: `angular_velocity * dt`
/// component-wise. This is the rotation the engine composes onto the
/// object's orientation for the frame.
pub fn rotation_delta(angular_velocity: &AngularVelocity, dt: i64) -> (d: Vec3fx)
    requires
        vec_in_lim(angular_velocity.value),
        in_lim(dt as int),
    ensures
        d.x as int == scale_mul(angular_velocity.value.x as int, dt as int),
        d.y as int == scale_mul(angular_velocity.value.y as int, dt as int),
        d.z as int == scale_mul(angular_velocity.value.z as int, dt as int),
        vec_in_pos_lim(d),
{
    Vec3fx {
        x: fx_mul(angular_velocity.value.x, dt),
        y: fx_mul(angular_velocity.value.y, dt),
        z: fx_mul(angular_velocity.value.z, dt),
    }
}

/// Accumulates one frame's incremental Euler angles onto the pose and
/// returns them; the translation is untouched. The increment is composed,
/// not assigned: successive frames add up.
pub fn update_rotation(pose: &mut Pose, angular_velocity: &AngularVelocity, dt: i64) -> (d: Vec3fx)
    requires
        vec_in_lim(angular_velocity.value),
        in_lim(dt as int),
        vec_in_pos_lim(old(pose).rotation),
    ensures
        d.x as int == scale_mul(angular_velocity.value.x as int, dt as int),
        d.y as int == scale_mul(angular_velocity.value.y as int, dt as int),
        d.z as int == scale_mul(angular_velocity.value.z as int, dt as int),
        final(pose).rotation.x as int == step_coord(
            old(pose).rotation.x as int,
            angular_velocity.value.x as int,
            dt as int,
        ),
        final(pose).rotation.y as int == step_coord(
            old(pose).rotation.y as int,
            angular_velocity.value.y as int,
            dt as int,
        ),
        final(pose).rotation.z as int == step_coord(
            old(pose).rotation.z as int,
            angular_velocity.value.z as int,
            dt as int,
        ),
        final(pose).translation == old(pose).translation,
{
    let d = rotation_delta(angular_velocity, dt);
    pose.rotation.x = pose.rotation.x + d.x;
    pose.rotation.y = pose.rotation.y + d.y;
    pose.rotation.z = pose.rotation.z + d.z;
    d
}

/// Spin-up rate of the optional acceleration behaviour, in fixed-point
/// radians per second squared (1.1).
pub const SPIN_UP: i64 = 3960;

/// Speeds the spin about `y` up by `SPIN_UP * dt`; the other two axes are
/// untouched.
pub fn accelerotate(angular_velocity: &mut AngularVelocity, dt: i64)
    requires
        in_lim(dt as int),
        vec_in_pos_lim(old(angular_velocity).value),
    ensures
        final(angular_velocity).value.y as int == step_coord(
            old(angular_velocity).value.y as int,
            SPIN_UP as int,
            dt as int,
        ),
        final(angular_velocity).value.x == old(angular_velocity).value.x,
        final(angular_velocity).value.z == old(angular_velocity).value.z,
{
    angular_velocity.value.y = angular_velocity.value.y + fx_mul(SPIN_UP, dt);
}

/// Where a spawned object starts: half a unit below the origin.
pub fn starting_translation() -> (t: Vec3fx)
    ensures
        t.x == 0 && t.y as int == -1800 && t.z == 0,
{
    Vec3fx { x: 0, y: -1800, z: 0 }
}

/// The velocity every spawned object starts with: half a unit per second
/// along `+z`.
pub fn starting_velocity() -> (v: Velocity)
    ensures
        v.value.x == 0 && v.value.y == 0 && v.value.z as int == 1800,
{
    Velocity { value: Vec3fx { x: 0, y: 0, z: 1800 } }
}

/// The angular velocity every spawned object starts with: one radian per
/// second about `y`.
pub fn starting_angular_velocity() -> (w: AngularVelocity)
    ensures
        w.value.x == 0 && w.value.y as int == 3600 && w.value.z == 0,
{
    AngularVelocity { value: Vec3fx { x: 0, y: 3600, z: 0 } }
}

/// Integrating forward by `dt` and then backward by `-dt` restores a
/// coordinate exactly: truncation toward zero is odd, so the backward step
/// is the exact negative of the forward one. This holds for every
/// translation component and for every accumulated Euler angle.
pub proof fn lemma_motion_reversible(p: int, rate: int, dt: int)
    ensures
        step_coord(step_coord(p, rate, dt), rate, -dt) == p,
{
    lemma_scale_mul_neg(rate, dt);
}

} // verus!
