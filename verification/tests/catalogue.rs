use animation_control::catalogue::SCENE_PATH;
use animation_control::{AnimationParams, AnimationsMetadata};

const NAMES: [&str; 18] = [
    "TPose",
    "ClimbDown",
    "CrouchWalk",
    "FallOpen",
    "FallDiagonal",
    "FallHeadDown",
    "RunSprint",
    "WallHang",
    "IdleStand",
    "DashPose",
    "RunFast",
    "RunJog",
    "Walk",
    "WalkStride",
    "JumpAscent",
    "LadderHandsWide",
    "LadderHandsMedium",
    "WallSlide",
];

#[test]
fn params_new_keeps_path_and_name_at_normal_speed() {
    let params = AnimationParams::new("model.glb#Animation3", "Jump");
    assert_eq!(params.path, "model.glb#Animation3");
    assert_eq!(params.name, "Jump");
    assert_eq!(params.playback_speed, 1000);
}

#[test]
fn params_new_accepts_empty_and_non_ascii_text() {
    let params = AnimationParams::new("", "Sprung \u{00fc}ber");
    assert_eq!(params.path, "");
    assert_eq!(params.name, "Sprung \u{00fc}ber");
    assert_eq!(params.playback_speed, 1000);
}

#[test]
fn params_default_is_empty_with_speed_zero() {
    let params = AnimationParams::default();
    assert_eq!(params.path, "");
    assert_eq!(params.name, "");
    assert_eq!(params.playback_speed, 0);
}

#[test]
fn metadata_default_is_empty() {
    let catalogue = AnimationsMetadata::default();
    assert!(catalogue.0.is_empty());
    assert_eq!(catalogue.len(), 0);
}

#[test]
fn bundled_catalogue_has_eighteen_clips() {
    let catalogue = AnimationsMetadata::new();
    assert_eq!(catalogue.0.len(), 18);
    assert_eq!(catalogue.len(), 18);
}

#[test]
fn bundled_catalogue_names_are_in_label_order() {
    let catalogue = AnimationsMetadata::new();
    for (i, params) in catalogue.0.iter().enumerate() {
        assert_eq!(params.name, NAMES[i]);
    }
}

#[test]
fn bundled_catalogue_paths_are_file_and_label() {
    let catalogue = AnimationsMetadata::new();
    for (i, params) in catalogue.0.iter().enumerate() {
        assert_eq!(params.path, format!("all_animations_7.glb#Animation{}", i));
    }
    assert_eq!(catalogue.0[0].path, "all_animations_7.glb#Animation0");
    assert_eq!(catalogue.0[9].path, "all_animations_7.glb#Animation9");
    assert_eq!(catalogue.0[10].path, "all_animations_7.glb#Animation10");
    assert_eq!(catalogue.0[17].path, "all_animations_7.glb#Animation17");
}

#[test]
fn bundled_catalogue_plays_every_clip_at_normal_speed() {
    let catalogue = AnimationsMetadata::new();
    for params in catalogue.0.iter() {
        assert_eq!(params.playback_speed, 1000);
    }
}

#[test]
fn bundled_catalogue_is_the_same_each_time() {
    let first = AnimationsMetadata::new();
    let second = AnimationsMetadata::new();
    assert_eq!(first.0.len(), second.0.len());
    for (a, b) in first.0.iter().zip(second.0.iter()) {
        assert_eq!(a.path, b.path);
        assert_eq!(a.name, b.name);
        assert_eq!(a.playback_speed, b.playback_speed);
    }
}

#[test]
fn descriptor_prints_its_fields() {
    let params = AnimationParams::new("a.glb#Animation0", "Idle");
    let text = format!("{:?}", params);
    assert!(text.contains("a.glb#Animation0"));
    assert!(text.contains("Idle"));
    assert!(text.contains("1000"));
}

#[test]
fn scene_path_names_the_model_scene() {
    assert_eq!(SCENE_PATH, "mixamo_character_2.glb#Scene0");
}
