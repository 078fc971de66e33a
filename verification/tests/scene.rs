use waddlie_core::commands::WebCommandAction;
use waddlie_core::scene::{set_model_paths, EntityPose, JsonComponentKind, LoadedSceneData, SceneJsonDeserialize};
use waddlie_core::transform::Vec3Bits;

fn entity(id: u32, name: &str, components: Vec<JsonComponentKind>) -> SceneJsonDeserialize {
    SceneJsonDeserialize::Entity {
        name: name.to_string(),
        position_x: 0,
        position_y: 0,
        position_z: 0,
        rotation_x: 0,
        rotation_y: 0,
        rotation_z: 0,
        scale_x: 1.0f32.to_bits(),
        scale_y: 1.0f32.to_bits(),
        scale_z: 1.0f32.to_bits(),
        color_rgb: [0, 0, 0],
        components,
        parent_id: None,
        id,
    }
}

fn light() -> SceneJsonDeserialize {
    SceneJsonDeserialize::DirectionalLight { morningcolor: [1, 2, 3], nightcolor: [4, 5, 6] }
}

fn pose() -> EntityPose {
    EntityPose {
        position: Vec3Bits { x: 1, y: 2, z: 3 },
        rotation_degrees: Vec3Bits { x: 4, y: 5, z: 6 },
        scale: Vec3Bits { x: 7, y: 8, z: 9 },
    }
}

fn scene() -> LoadedSceneData {
    let mut s = LoadedSceneData::new();
    s.push_item(light());
    s.push_item(entity(5, "first", vec![]));
    s.push_item(entity(6, "other", vec![]));
    s.push_item(entity(5, "second", vec![]));
    s
}

fn pose_at(s: &LoadedSceneData, i: usize) -> Option<(String, [u32; 9])> {
    match &s.items[i] {
        SceneJsonDeserialize::Entity {
            name, position_x, position_y, position_z, rotation_x, rotation_y, rotation_z, scale_x, scale_y, scale_z, ..
        } => Some((
            name.clone(),
            [*position_x, *position_y, *position_z, *rotation_x, *rotation_y, *rotation_z, *scale_x, *scale_y, *scale_z],
        )),
        _ => None,
    }
}

#[test]
fn find_entity_first_match_skips_other_items() {
    let s = scene();
    assert_eq!(s.find_entity(5), Some(1));
    assert_eq!(s.find_entity(6), Some(2));
    assert_eq!(s.find_entity(7), None);
}

#[test]
fn record_pose_writes_first_entity_only() {
    let mut s = scene();
    assert!(s.record_pose(5, pose()));
    assert_eq!(pose_at(&s, 1), Some(("first".to_string(), [1, 2, 3, 4, 5, 6, 7, 8, 9])));
    let unit = 1.0f32.to_bits();
    assert_eq!(pose_at(&s, 3), Some(("second".to_string(), [0, 0, 0, 0, 0, 0, unit, unit, unit])));
    assert!(matches!(s.items[0], SceneJsonDeserialize::DirectionalLight { morningcolor: [1, 2, 3], .. }));
    assert_eq!(s.items.len(), 4);
}

#[test]
fn record_pose_missing_entity() {
    let mut s = scene();
    assert!(!s.record_pose(99, pose()));
    assert_eq!(pose_at(&s, 1).unwrap().1[0], 0);
}

#[test]
fn record_pose_twice_same_as_once() {
    let mut a = scene();
    a.record_pose(6, pose());
    let once = pose_at(&a, 2);
    a.record_pose(6, pose());
    assert_eq!(pose_at(&a, 2), once);
}

#[test]
fn record_color_command() {
    let mut s = scene();
    assert!(s.record_command(6, pose(), &WebCommandAction::SetMaterialColor([9, 9, 9])));
    match &s.items[2] {
        SceneJsonDeserialize::Entity { color_rgb, position_x, .. } => {
            assert_eq!(*color_rgb, [9, 9, 9]);
            assert_eq!(*position_x, 1);
        }
        _ => panic!("not an entity"),
    }
}

#[test]
fn record_model_path_command() {
    let mut s = LoadedSceneData::new();
    s.push_item(entity(
        3,
        "hero",
        vec![
            JsonComponentKind::GltfModel { path: "old.glb".into() },
            JsonComponentKind::Mesh { mesh_type: "sphere".into() },
            JsonComponentKind::GltfModel { path: "other.glb".into() },
        ],
    ));
    assert!(s.record_command(3, pose(), &WebCommandAction::SetModelPath("new.glb".into())));
    match &s.items[0] {
        SceneJsonDeserialize::Entity { components, color_rgb, .. } => {
            assert_eq!(*color_rgb, [0, 0, 0]);
            assert!(matches!(&components[0], JsonComponentKind::GltfModel { path } if path == "new.glb"));
            assert!(matches!(&components[1], JsonComponentKind::Mesh { mesh_type } if mesh_type == "sphere"));
            assert!(matches!(&components[2], JsonComponentKind::GltfModel { path } if path == "new.glb"));
        }
        _ => panic!("not an entity"),
    }
}

#[test]
fn record_command_for_missing_entity() {
    let mut s = scene();
    assert!(!s.record_command(8, pose(), &WebCommandAction::NudgeX(3)));
}

#[test]
fn set_model_paths_only_models() {
    let mut cs = vec![JsonComponentKind::ProceduralSky, JsonComponentKind::GltfModel { path: "a".into() }];
    set_model_paths(&mut cs, &"b".to_string());
    assert!(matches!(cs[0], JsonComponentKind::ProceduralSky));
    assert!(matches!(&cs[1], JsonComponentKind::GltfModel { path } if path == "b"));
}
