use waddlie_core::loader::{component_spawn, import_action, mesh_shape, parent_links, ComponentSpawn, ImportAction, MeshShape};
use waddlie_core::scene::{JsonComponentKind, SceneJsonDeserialize};

fn entity(id: u32, parent: Option<u32>) -> SceneJsonDeserialize {
    SceneJsonDeserialize::Entity {
        name: format!("e{}", id),
        position_x: 0,
        position_y: 0,
        position_z: 0,
        rotation_x: 0,
        rotation_y: 0,
        rotation_z: 0,
        scale_x: 0,
        scale_y: 0,
        scale_z: 0,
        color_rgb: [0, 0, 0],
        components: vec![],
        parent_id: parent,
        id,
    }
}

#[test]
fn mesh_shapes() {
    assert_eq!(mesh_shape("camera"), None);
    assert_eq!(mesh_shape("sphere"), Some(MeshShape::Sphere));
    assert_eq!(mesh_shape("cube"), Some(MeshShape::Cuboid));
    assert_eq!(mesh_shape(""), Some(MeshShape::Cuboid));
}

#[test]
fn component_spawns() {
    assert!(matches!(component_spawn(&JsonComponentKind::Mesh { mesh_type: "camera".into() }), ComponentSpawn::Nothing));
    assert!(matches!(
        component_spawn(&JsonComponentKind::Mesh { mesh_type: "sphere".into() }),
        ComponentSpawn::Mesh(MeshShape::Sphere)
    ));
    assert!(matches!(component_spawn(&JsonComponentKind::Material { color_rgb: [1, 2, 3] }), ComponentSpawn::Material([1, 2, 3])));
    match component_spawn(&JsonComponentKind::GltfModel { path: "a.glb".into() }) {
        ComponentSpawn::Model { scene_path, marker_path } => {
            assert_eq!(scene_path, "a.glb#Scene0");
            assert_eq!(marker_path, "a.glb");
        }
        _ => panic!("expected a model"),
    }
    assert!(matches!(component_spawn(&JsonComponentKind::ProceduralSky), ComponentSpawn::Atmosphere));
    assert!(matches!(
        component_spawn(&JsonComponentKind::ImageSkybox { path: "s".into(), brightness: 0 }),
        ComponentSpawn::Nothing
    ));
    assert!(matches!(
        component_spawn(&JsonComponentKind::ActiveAnimation { animation_name: "run".into(), looping: true }),
        ComponentSpawn::Nothing
    ));
}

#[test]
fn import_actions() {
    match import_action(&JsonComponentKind::GltfModel { path: "a.glb".into() }) {
        ImportAction::AttachModel { scene_path, container_path, marker_path } => {
            assert_eq!(scene_path, "models://a.glb#Scene0");
            assert_eq!(container_path, "models://a.glb");
            assert_eq!(marker_path, "a.glb");
        }
        _ => panic!("expected a model"),
    }
    match import_action(&JsonComponentKind::ActiveAnimation { animation_name: "run".into(), looping: true }) {
        ImportAction::ConfigureAnimation { animation_name, looping } => {
            assert_eq!(animation_name, "run");
            assert!(looping);
        }
        _ => panic!("expected an animation"),
    }
    assert!(matches!(import_action(&JsonComponentKind::ProceduralSky), ImportAction::Nothing));
}

#[test]
fn parent_links_resolve_last_id() {
    let items = vec![
        entity(1, None),
        SceneJsonDeserialize::DayNightCycle { active: true, time: 0, speed: 0 },
        entity(2, Some(1)),
        entity(3, Some(9)),
        entity(1, None),
        entity(4, Some(2)),
    ];
    assert_eq!(parent_links(&items), vec![(2, 4), (5, 2)]);
}

#[test]
fn parent_links_empty() {
    assert_eq!(parent_links(&Vec::new()), Vec::<(usize, usize)>::new());
    assert_eq!(parent_links(&vec![entity(1, Some(1))]), vec![(0, 0)]);
}
