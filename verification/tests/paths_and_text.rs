use waddlie_core::paths::{clean_asset_name, gltf_container_path, gltf_scene_path, memory_scene_path, scene_path_for_model};
use waddlie_core::text::{has_prefix, text_eq, trim_leading};

#[test]
fn scene_path_appends_scene_label() {
    assert_eq!(scene_path_for_model("models/soldier.glb"), "models/soldier.glb#Scene0");
    assert_eq!(scene_path_for_model(""), "#Scene0");
}

#[test]
fn gltf_scene_path_adds_memory_source() {
    assert_eq!(gltf_scene_path("robot.glb"), "models://robot.glb#Scene0");
}

#[test]
fn gltf_scene_path_keeps_existing_source() {
    assert_eq!(gltf_scene_path("models://robot.glb"), "models://robot.glb#Scene0");
}

#[test]
fn gltf_container_path_cases() {
    assert_eq!(gltf_container_path("robot.glb"), "models://robot.glb");
    assert_eq!(gltf_container_path("models://robot.glb"), "models://robot.glb");
    // A near miss of the prefix is not the prefix.
    assert_eq!(gltf_container_path("models:/robot.glb"), "models://models:/robot.glb");
}

#[test]
fn container_path_is_idempotent() {
    let once = gltf_container_path("tree.glb");
    assert_eq!(gltf_container_path(&once), once);
}

#[test]
fn clean_asset_name_strips_leading_slashes() {
    assert_eq!(clean_asset_name("///dir/a.glb"), "dir/a.glb");
    assert_eq!(clean_asset_name("a/b.glb"), "a/b.glb");
    assert_eq!(clean_asset_name("///"), "");
    assert_eq!(clean_asset_name(""), "");
}

#[test]
fn memory_scene_path_for_clean_name() {
    assert_eq!(memory_scene_path("dir/a.glb"), "models://dir/a.glb#Scene0");
}

#[test]
fn text_helpers() {
    assert!(text_eq("nudge_x", "nudge_x"));
    assert!(!text_eq("nudge_x", "nudge_y"));
    assert!(!text_eq("nudge", "nudge_x"));
    assert!(has_prefix("models://x", "models://"));
    assert!(!has_prefix("model", "models://"));
    assert!(has_prefix("abc", ""));
    assert_eq!(trim_leading("xxab", 'x'), "ab");
    assert_eq!(trim_leading("ñañ", 'ñ'), "añ");
}
