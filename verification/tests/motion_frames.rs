use cubescene::fixed::{fx_mul, Vec3fx, FP};
use cubescene::motion::{
    accelerotate, rotation_delta, starting_angular_velocity, starting_translation,
    starting_velocity, update_position, update_rotation, AngularVelocity, Pose, Velocity,
};

/// One sixtieth of a second in fixed-point units.
const FRAME: i64 = 60;

#[test]
fn two_seconds_at_sixty_fps() {
    // Velocity (0, 0, 0.5), angular velocity (0, 1, 0), start (0, 0, -20):
    // after 120 frames of 1/60 s the object sits at (0, 0, -19) and has
    // accumulated a yaw of 2 radians.
    let mut pose = Pose {
        translation: Vec3fx { x: 0, y: 0, z: -20 * FP },
        rotation: Vec3fx { x: 0, y: 0, z: 0 },
    };
    let v = starting_velocity();
    let w = starting_angular_velocity();
    for _ in 0..120 {
        update_position(&mut pose, &v, FRAME);
        update_rotation(&mut pose, &w, FRAME);
    }
    assert_eq!(pose.translation, Vec3fx { x: 0, y: 0, z: -19 * FP });
    assert_eq!(pose.rotation, Vec3fx { x: 0, y: 2 * FP, z: 0 });
}

#[test]
fn integration_is_reversible() {
    // Forward by dt, then by -dt, restores the pose exactly — also where
    // the fixed-point product truncates (1000 * 7 / 3600 rounds to 1).
    let start = Pose {
        translation: Vec3fx { x: 123, y: -456, z: 789 },
        rotation: Vec3fx { x: 0, y: 0, z: 0 },
    };
    let v = Velocity { value: Vec3fx { x: 1000, y: -999, z: 1800 } };
    let mut pose = start;
    update_position(&mut pose, &v, 7);
    assert_ne!(pose.translation, start.translation);
    update_position(&mut pose, &v, -7);
    assert_eq!(pose, start);
}

#[test]
fn rotation_is_reversible() {
    let start = Pose {
        translation: Vec3fx { x: 0, y: 0, z: 0 },
        rotation: Vec3fx { x: 10, y: 20, z: 30 },
    };
    let w = AngularVelocity { value: Vec3fx { x: -501, y: 3600, z: 77 } };
    let mut pose = start;
    update_rotation(&mut pose, &w, 61);
    update_rotation(&mut pose, &w, -61);
    assert_eq!(pose, start);
}

#[test]
fn truncation_is_toward_zero() {
    assert_eq!(fx_mul(1000, 7), 1);
    assert_eq!(fx_mul(-1000, 7), -1);
    assert_eq!(fx_mul(1000, -7), -1);
    assert_eq!(fx_mul(-1000, -7), 1);
    assert_eq!(fx_mul(1800, 60), 30);
    assert_eq!(fx_mul(FP, FP), FP);
}

#[test]
fn rotation_delta_is_angular_velocity_times_dt() {
    let w = AngularVelocity { value: Vec3fx { x: 0, y: 3600, z: -7200 } };
    let d = rotation_delta(&w, FRAME);
    assert_eq!(d, Vec3fx { x: 0, y: 60, z: -120 });
}

#[test]
fn update_rotation_leaves_translation_alone() {
    let mut pose = Pose {
        translation: Vec3fx { x: 1, y: 2, z: 3 },
        rotation: Vec3fx { x: 0, y: 0, z: 0 },
    };
    let w = AngularVelocity { value: Vec3fx { x: 3600, y: 0, z: 0 } };
    let d = update_rotation(&mut pose, &w, FRAME);
    assert_eq!(d, Vec3fx { x: 60, y: 0, z: 0 });
    assert_eq!(pose.translation, Vec3fx { x: 1, y: 2, z: 3 });
    assert_eq!(pose.rotation, Vec3fx { x: 60, y: 0, z: 0 });
}

#[test]
fn accelerotate_speeds_the_yaw_spin() {
    // 1.1 radians per second squared over one frame: 3960 * 60 / 3600 = 66.
    let mut w = starting_angular_velocity();
    accelerotate(&mut w, FRAME);
    assert_eq!(w.value, Vec3fx { x: 0, y: 3666, z: 0 });
}

#[test]
fn starting_state_matches_the_spawn() {
    assert_eq!(starting_translation(), Vec3fx { x: 0, y: -1800, z: 0 });
    assert_eq!(starting_velocity().value, Vec3fx { x: 0, y: 0, z: 1800 });
    assert_eq!(starting_angular_velocity().value, Vec3fx { x: 0, y: 3600, z: 0 });
}
