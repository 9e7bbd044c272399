use fighting_frame::clip::{playback_phase, AnimationData, KEYFRAME_SPEED};
use fighting_frame::graphics::{AnimationKey, Animations, Keyframe};
use fighting_frame::math::Scalar;
use fighting_frame::trs::Trs;
use glam::{Mat4, Quat, Vec2, Vec3};

fn scalar(v: f32) -> Scalar {
    Scalar { raw: Vec2::new(v, 0.0) }
}

fn trs(translation: Vec3) -> Trs {
    Trs { translation, rotation: Quat::IDENTITY, scale: Vec3::ONE }
}

fn close3(a: Vec3, b: Vec3) -> bool {
    (a - b).length() < 1e-4
}

fn two_frame_clip() -> AnimationData {
    AnimationData {
        name: String::from("walk"),
        data: vec![
            vec![trs(Vec3::new(0.0, 0.0, 0.0))],
            vec![trs(Vec3::new(4.0, 0.0, 0.0))],
        ],
    }
}

#[test]
fn blend_interpolates_linearly() {
    let clip = two_frame_clip();
    let mid = clip.blend(0, 0, &scalar(0.5));
    assert!(close3(mid.translation, Vec3::new(2.0, 0.0, 0.0)));
    let quarter = clip.blend(0, 0, &scalar(0.25));
    assert!(close3(quarter.translation, Vec3::new(1.0, 0.0, 0.0)));
}

#[test]
fn blend_wraps_to_frame_zero() {
    // Blending from the last keyframe heads back to frame 0: as s nears 1
    // the result nears frame 0, not an extrapolation past the last frame.
    let clip = two_frame_clip();
    let near_end = clip.blend(1, 0, &scalar(0.999));
    assert!(close3(near_end.translation, Vec3::new(0.004, 0.0, 0.0)));
    assert!((near_end.translation.x - 0.0).abs() < 0.01);
    // Halfway from the last frame towards frame zero.
    let half = clip.blend(1, 0, &scalar(0.5));
    assert!(close3(half.translation, Vec3::new(2.0, 0.0, 0.0)));
}

#[test]
fn blend_rotation_stays_unit_length() {
    let a = Trs {
        translation: Vec3::ZERO,
        rotation: Quat::IDENTITY,
        scale: Vec3::ONE,
    };
    let b = Trs {
        translation: Vec3::ZERO,
        rotation: Quat::from_rotation_z(std::f32::consts::FRAC_PI_2),
        scale: Vec3::ONE,
    };
    let clip = AnimationData { name: String::from("turn"), data: vec![vec![a], vec![b]] };
    for i in 0..=10 {
        let s = i as f32 / 10.0;
        let out = clip.blend(0, 0, &scalar(s));
        assert!((out.rotation.length() - 1.0).abs() < 1e-5);
    }
    // Also across the wrap, and between nearly opposite quaternions.
    let out = clip.blend(1, 0, &scalar(0.7));
    assert!((out.rotation.length() - 1.0).abs() < 1e-5);
}

#[test]
fn blend_takes_shortest_arc() {
    // The endpoints differ only in sign, so they name one rotation; the
    // slerp must not swing through a half-turn.
    let a = Quat::from_rotation_z(0.2);
    let b = -a;
    let clip = AnimationData {
        name: String::from("sign"),
        data: vec![
            vec![Trs { translation: Vec3::ZERO, rotation: a, scale: Vec3::ONE }],
            vec![Trs { translation: Vec3::ZERO, rotation: b, scale: Vec3::ONE }],
        ],
    };
    let mid = clip.blend(0, 0, &scalar(0.5));
    assert!(mid.rotation.dot(a).abs() > 0.999);
}

#[test]
fn try_blend_checks_bounds() {
    let clip = two_frame_clip();
    assert!(clip.try_blend(0, 0, &scalar(0.5)).is_some());
    assert!(clip.try_blend(2, 0, &scalar(0.5)).is_none());
    assert!(clip.try_blend(0, 1, &scalar(0.5)).is_none());
    let empty = AnimationData { name: String::from("none"), data: vec![] };
    assert!(empty.try_blend(0, 0, &scalar(0.5)).is_none());
}

#[test]
fn trs_round_trips_through_matrix() {
    let original = Trs {
        translation: Vec3::new(1.0, 2.0, 3.0),
        rotation: Quat::from_rotation_z(0.3).normalize(),
        scale: Vec3::new(2.0, 1.0, 0.5),
    };
    let m = original.matrix();
    let back = Trs::from_matrix(&m, &scalar(1e-4)).expect("round trip");
    assert!(close3(back.translation, original.translation));
    assert!(close3(back.scale, original.scale));
    // A quaternion and its negation name one rotation.
    assert!(back.rotation.dot(original.rotation).abs() > 1.0 - 1e-4);
}

#[test]
fn from_matrix_rejects_shear() {
    let mut m = Mat4::IDENTITY;
    m.y_axis.x = 0.75;
    assert!(Trs::from_matrix(&m, &scalar(1e-4)).is_none());
}

#[test]
fn playback_phase_splits_counter() {
    assert_eq!(playback_phase(0), (0, 0));
    assert_eq!(playback_phase(KEYFRAME_SPEED - 1), (0, KEYFRAME_SPEED - 1));
    assert_eq!(playback_phase(KEYFRAME_SPEED), (1, 0));
    assert_eq!(playback_phase(3 * KEYFRAME_SPEED + 5), (3, 5));
}

#[test]
fn keyed_animations_hold_keyframes() {
    let set = Animations {
        data: vec![fighting_frame::graphics::AnimationData {
            animation_key: AnimationKey::WalkForward,
            keyframes: vec![Keyframe { duration: 4, transforms: vec![Mat4::IDENTITY] }],
        }],
    };
    assert_eq!(set.data.len(), 1);
    assert!(set.data[0].animation_key == AnimationKey::WalkForward);
    assert_eq!(set.data[0].keyframes[0].duration, 4);
}

#[test]
fn trs_lerp_midpoint() {
    let a = trs(Vec3::new(0.0, 2.0, 0.0));
    let b = Trs {
        translation: Vec3::new(2.0, 0.0, 0.0),
        rotation: Quat::IDENTITY,
        scale: Vec3::new(3.0, 1.0, 1.0),
    };
    let mid = a.lerp(&b, &scalar(0.5));
    assert!(close3(mid.translation, Vec3::new(1.0, 1.0, 0.0)));
    assert!(close3(mid.scale, Vec3::new(2.0, 1.0, 1.0)));
}
