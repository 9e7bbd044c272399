use fighting_frame::bake::{build_animation_list, AnimationSource};
use fighting_frame::channels::{Channel, ChannelSamples};
use fighting_frame::error::BakeError;
use fighting_frame::math::Scalar;
use fighting_frame::scene::SceneNode;
use glam::{Mat4, Quat, Vec2, Vec3};

fn scalar(v: f32) -> Scalar {
    Scalar { raw: Vec2::new(v, 0.0) }
}

fn tolerance() -> Scalar {
    scalar(1e-4)
}

fn node(translation: Vec3, children: Vec<usize>, has_mesh: bool) -> SceneNode {
    SceneNode { transform: Mat4::from_translation(translation), children, has_mesh }
}

fn close3(a: Vec3, b: Vec3) -> bool {
    (a - b).length() < 1e-4
}

#[test]
fn composition_order_chain() {
    // root -> child -> grandchild, each translated along its own axis:
    // the grandchild's world translation is the sum (1, 1, 1).
    let scene = vec![
        node(Vec3::new(1.0, 0.0, 0.0), vec![1], false),
        node(Vec3::new(0.0, 1.0, 0.0), vec![2], false),
        node(Vec3::new(0.0, 0.0, 1.0), vec![], true),
    ];
    let animations = vec![AnimationSource { name: String::from("bind"), channels: vec![] }];
    let clips = build_animation_list(&scene, &animations, &tolerance()).expect("bake");
    assert_eq!(clips.len(), 1);
    assert_eq!(clips[0].name, "bind");
    // No channels: exactly one frame, one mesh bone.
    assert_eq!(clips[0].data.len(), 1);
    assert_eq!(clips[0].data[0].len(), 1);
    let world = clips[0].data[0][0];
    assert!(close3(world.translation, Vec3::new(1.0, 1.0, 1.0)));
}

#[test]
fn gap_fill_holds_last_value() {
    // A single mesh root with bind translation (5, 0, 0) and one
    // translation sample landing in frame slot 5: frames 0..=4 show the
    // bind value, frames 5.. show the sampled value.
    let scene = vec![node(Vec3::new(5.0, 0.0, 0.0), vec![], true)];
    let channels = vec![Channel {
        target: 0,
        samples: ChannelSamples::Translation(vec![(scalar(5.2), Vec3::new(9.0, 9.0, 9.0))]),
    }];
    let animations = vec![AnimationSource { name: String::from("hold"), channels }];
    let clips = build_animation_list(&scene, &animations, &tolerance()).expect("bake");
    let data = &clips[0].data;
    assert_eq!(data.len(), 6);
    for f in 0..5 {
        assert!(close3(data[f][0].translation, Vec3::new(5.0, 0.0, 0.0)));
    }
    assert!(close3(data[5][0].translation, Vec3::new(9.0, 9.0, 9.0)));
}

#[test]
fn last_write_wins_in_one_slot() {
    // Two samples of one channel quantize into slot 1; the later wins.
    let scene = vec![node(Vec3::ZERO, vec![], true)];
    let channels = vec![Channel {
        target: 0,
        samples: ChannelSamples::Translation(vec![
            (scalar(1.1), Vec3::new(1.0, 0.0, 0.0)),
            (scalar(1.9), Vec3::new(2.0, 0.0, 0.0)),
        ]),
    }];
    let animations = vec![AnimationSource { name: String::from("lww"), channels }];
    let clips = build_animation_list(&scene, &animations, &tolerance()).expect("bake");
    let data = &clips[0].data;
    assert_eq!(data.len(), 2);
    assert!(close3(data[1][0].translation, Vec3::new(2.0, 0.0, 0.0)));
}

#[test]
fn later_channel_wins_per_slot() {
    // Two translation channels target the same node. The later channel
    // owns the slots it writes; slots only the earlier channel wrote keep
    // its values.
    let scene = vec![node(Vec3::ZERO, vec![], true)];
    let channels = vec![
        Channel {
            target: 0,
            samples: ChannelSamples::Translation(vec![
                (scalar(0.0), Vec3::new(1.0, 0.0, 0.0)),
                (scalar(2.0), Vec3::new(2.0, 0.0, 0.0)),
            ]),
        },
        Channel {
            target: 0,
            samples: ChannelSamples::Translation(vec![(scalar(2.5), Vec3::new(7.0, 0.0, 0.0))]),
        },
    ];
    let animations = vec![AnimationSource { name: String::from("merge"), channels }];
    let clips = build_animation_list(&scene, &animations, &tolerance()).expect("bake");
    let data = &clips[0].data;
    assert_eq!(data.len(), 3);
    assert!(close3(data[0][0].translation, Vec3::new(1.0, 0.0, 0.0)));
    // Frame 1 was never written: it holds frame 0's value.
    assert!(close3(data[1][0].translation, Vec3::new(1.0, 0.0, 0.0)));
    assert!(close3(data[2][0].translation, Vec3::new(7.0, 0.0, 0.0)));
}

#[test]
fn rotation_and_scale_fill_from_bind() {
    // The bind pose carries a scale; a rotation channel starts at frame 1,
    // so frame 0's rotation falls back to the bind while the scale holds
    // throughout.
    let bind = Mat4::from_scale_rotation_translation(
        Vec3::new(2.0, 2.0, 2.0),
        Quat::IDENTITY,
        Vec3::ZERO,
    );
    let scene = vec![SceneNode { transform: bind, children: vec![], has_mesh: true }];
    let turned = Quat::from_rotation_z(0.5);
    let channels = vec![Channel {
        target: 0,
        samples: ChannelSamples::Rotation(vec![(scalar(1.0), turned)]),
    }];
    let animations = vec![AnimationSource { name: String::from("turn"), channels }];
    let clips = build_animation_list(&scene, &animations, &tolerance()).expect("bake");
    let data = &clips[0].data;
    assert_eq!(data.len(), 2);
    assert!(data[0][0].rotation.dot(Quat::IDENTITY).abs() > 0.9999);
    assert!(data[1][0].rotation.dot(turned).abs() > 0.9999);
    assert!(close3(data[0][0].scale, Vec3::new(2.0, 2.0, 2.0)));
    assert!(close3(data[1][0].scale, Vec3::new(2.0, 2.0, 2.0)));
}

#[test]
fn cyclic_hierarchy_rejected() {
    // Node 0 claims node 1 and node 1 claims node 0: each is declared once,
    // so the table builds, but the parent chains never reach a root.
    let scene = vec![
        node(Vec3::ZERO, vec![1], true),
        node(Vec3::ZERO, vec![0], false),
    ];
    let animations = vec![AnimationSource { name: String::from("cycle"), channels: vec![] }];
    let err = build_animation_list(&scene, &animations, &tolerance()).unwrap_err();
    assert!(matches!(err, BakeError::CyclicHierarchy { .. }));
}

#[test]
fn duplicate_parent_rejected() {
    let scene = vec![
        node(Vec3::ZERO, vec![2], false),
        node(Vec3::ZERO, vec![2], false),
        node(Vec3::ZERO, vec![], true),
    ];
    let animations = vec![];
    let err = build_animation_list(&scene, &animations, &tolerance()).unwrap_err();
    assert_eq!(err, BakeError::DuplicateParent { child: 2 });
}

#[test]
fn child_out_of_range_rejected() {
    let scene = vec![node(Vec3::ZERO, vec![7], true)];
    let err = build_animation_list(&scene, &vec![], &tolerance()).unwrap_err();
    assert_eq!(err, BakeError::ChildOutOfRange { parent: 0, child: 7 });
}

#[test]
fn channel_target_out_of_range_rejected() {
    let scene = vec![node(Vec3::ZERO, vec![], true)];
    let channels = vec![Channel {
        target: 3,
        samples: ChannelSamples::Translation(vec![(scalar(0.0), Vec3::ZERO)]),
    }];
    let animations = vec![AnimationSource { name: String::from("bad"), channels }];
    let err = build_animation_list(&scene, &animations, &tolerance()).unwrap_err();
    assert_eq!(err, BakeError::ChannelTargetOutOfRange { channel: 0 });
}

#[test]
fn negative_sample_time_rejected() {
    let scene = vec![node(Vec3::ZERO, vec![], true)];
    let channels = vec![Channel {
        target: 0,
        samples: ChannelSamples::Scale(vec![(scalar(-0.5), Vec3::ONE)]),
    }];
    let animations = vec![AnimationSource { name: String::from("bad"), channels }];
    let err = build_animation_list(&scene, &animations, &tolerance()).unwrap_err();
    assert_eq!(err, BakeError::InvalidSampleTime { channel: 0 });
}

#[test]
fn non_monotonic_sample_times_rejected() {
    let scene = vec![node(Vec3::ZERO, vec![], true)];
    let channels = vec![Channel {
        target: 0,
        samples: ChannelSamples::Rotation(vec![
            (scalar(2.0), Quat::IDENTITY),
            (scalar(1.0), Quat::IDENTITY),
        ]),
    }];
    let animations = vec![AnimationSource { name: String::from("bad"), channels }];
    let err = build_animation_list(&scene, &animations, &tolerance()).unwrap_err();
    assert_eq!(err, BakeError::InvalidSampleTime { channel: 0 });
}

#[test]
fn sheared_bind_transform_rejected() {
    // A shear along x-y cannot be rebuilt from scale, rotation and
    // translation; the gap filler needs the decomposition (no channel
    // covers the node at frame zero), so the bake must fail.
    let mut m = Mat4::IDENTITY;
    m.y_axis.x = 0.75;
    let scene = vec![SceneNode { transform: m, children: vec![], has_mesh: true }];
    let animations = vec![AnimationSource { name: String::from("shear"), channels: vec![] }];
    let err = build_animation_list(&scene, &animations, &tolerance()).unwrap_err();
    assert_eq!(err, BakeError::NonDecomposableTransform { node: 0 });
}

#[test]
fn fully_sampled_node_ignores_sheared_bind() {
    // The same sheared bind passes when every property is sampled at frame
    // zero: nothing needs the decomposition.
    let mut m = Mat4::IDENTITY;
    m.y_axis.x = 0.75;
    let scene = vec![SceneNode { transform: m, children: vec![], has_mesh: true }];
    let channels = vec![
        Channel {
            target: 0,
            samples: ChannelSamples::Translation(vec![(scalar(0.0), Vec3::ZERO)]),
        },
        Channel {
            target: 0,
            samples: ChannelSamples::Rotation(vec![(scalar(0.0), Quat::IDENTITY)]),
        },
        Channel { target: 0, samples: ChannelSamples::Scale(vec![(scalar(0.0), Vec3::ONE)]) },
    ];
    let animations = vec![AnimationSource { name: String::from("sampled"), channels }];
    let clips = build_animation_list(&scene, &animations, &tolerance()).expect("bake");
    assert!(close3(clips[0].data[0][0].translation, Vec3::ZERO));
}

#[test]
fn no_mesh_nodes_keep_frames_with_empty_bone_rows() {
    // A valid degenerate clip: the frame count stays, each frame holding
    // an empty bone row.
    let scene = vec![node(Vec3::ZERO, vec![], false)];
    let channels = vec![Channel {
        target: 0,
        samples: ChannelSamples::Translation(vec![(scalar(2.0), Vec3::ONE)]),
    }];
    let animations = vec![
        AnimationSource { name: String::from("empty"), channels: vec![] },
        AnimationSource { name: String::from("moves"), channels },
    ];
    let clips = build_animation_list(&scene, &animations, &tolerance()).expect("bake");
    assert_eq!(clips[0].data.len(), 1);
    assert!(clips[0].data[0].is_empty());
    assert_eq!(clips[1].data.len(), 3);
    assert!(clips[1].data.iter().all(|frame| frame.is_empty()));
}

#[test]
fn bone_order_is_stable_across_clips() {
    // Nodes 0 and 2 carry meshes at distinct positions. Two clips with
    // different channels keep the same slot order: slot 0 is node 0,
    // slot 1 is node 2, in both.
    let scene = vec![
        node(Vec3::new(10.0, 0.0, 0.0), vec![], true),
        node(Vec3::new(20.0, 0.0, 0.0), vec![], false),
        node(Vec3::new(30.0, 0.0, 0.0), vec![], true),
    ];
    let move_node2 = vec![Channel {
        target: 2,
        samples: ChannelSamples::Translation(vec![(scalar(0.0), Vec3::new(31.0, 0.0, 0.0))]),
    }];
    let move_node0 = vec![Channel {
        target: 0,
        samples: ChannelSamples::Translation(vec![(scalar(0.0), Vec3::new(11.0, 0.0, 0.0))]),
    }];
    let animations = vec![
        AnimationSource { name: String::from("first"), channels: move_node2 },
        AnimationSource { name: String::from("second"), channels: move_node0 },
    ];
    let clips = build_animation_list(&scene, &animations, &tolerance()).expect("bake");
    assert_eq!(clips[0].data[0].len(), 2);
    assert_eq!(clips[1].data[0].len(), 2);
    // First clip: node 0 untouched, node 2 moved.
    assert!(close3(clips[0].data[0][0].translation, Vec3::new(10.0, 0.0, 0.0)));
    assert!(close3(clips[0].data[0][1].translation, Vec3::new(31.0, 0.0, 0.0)));
    // Second clip: node 0 moved, node 2 untouched — same slots.
    assert!(close3(clips[1].data[0][0].translation, Vec3::new(11.0, 0.0, 0.0)));
    assert!(close3(clips[1].data[0][1].translation, Vec3::new(30.0, 0.0, 0.0)));
}

#[test]
fn error_descriptions_name_the_kind() {
    assert!(BakeError::MultiPrimitiveMesh.describe().contains("primitive"));
    assert!(
        BakeError::CyclicHierarchy { node: 0 }.describe().contains("cycle")
    );
}
