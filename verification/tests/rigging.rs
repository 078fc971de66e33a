use waddlie_core::rigging::{find_target, position_of, RiggingSetupState, SceneTarget};

fn targets() -> Vec<SceneTarget> {
    vec![
        SceneTarget { entity: 100, json_id: 1 },
        SceneTarget { entity: 200, json_id: 2 },
        SceneTarget { entity: 300, json_id: 2 },
    ]
}

#[test]
fn find_target_takes_first_match() {
    assert_eq!(find_target(&targets(), 2), Some(200));
    assert_eq!(find_target(&targets(), 1), Some(100));
    assert_eq!(find_target(&targets(), 9), None);
    assert_eq!(find_target(&Vec::new(), 1), None);
}

#[test]
fn activate_targets_entity_and_clears_bones() {
    let mut st = RiggingSetupState::new();
    st.select_bone("Spine".to_string(), false);
    st.apply_command(2, true, &targets());
    assert!(st.is_active);
    assert_eq!(st.target_entity, Some(200));
    assert!(st.selected_bones.is_empty());
}

#[test]
fn activate_unknown_id_has_no_target() {
    let mut st = RiggingSetupState::default();
    st.apply_command(42, true, &targets());
    assert!(st.is_active);
    assert_eq!(st.target_entity, None);
}

#[test]
fn deactivate_clears_everything() {
    let mut st = RiggingSetupState::new();
    st.apply_command(1, true, &targets());
    st.select_bone("Head".to_string(), false);
    st.apply_command(1, false, &targets());
    assert!(!st.is_active);
    assert_eq!(st.target_entity, None);
    assert!(st.selected_bones.is_empty());
}

#[test]
fn batch_only_last_counts() {
    let mut st = RiggingSetupState::new();
    st.apply_commands(&vec![(1, true), (2, false), (2, true)], &targets());
    assert!(st.is_active);
    assert_eq!(st.target_entity, Some(200));
    st.select_bone("Arm".to_string(), false);
    st.apply_commands(&Vec::new(), &targets());
    assert_eq!(st.selected_bones, vec!["Arm".to_string()]);
}

#[test]
fn single_select_replaces() {
    let mut st = RiggingSetupState::new();
    st.select_bone("A".to_string(), true);
    st.select_bone("B".to_string(), true);
    st.select_bone("C".to_string(), false);
    assert_eq!(st.selected_bones, vec!["C".to_string()]);
}

#[test]
fn multi_select_toggles() {
    let mut st = RiggingSetupState::new();
    st.select_bone("A".to_string(), true);
    st.select_bone("B".to_string(), true);
    st.select_bone("C".to_string(), true);
    assert_eq!(st.selected_bones, vec!["A".to_string(), "B".to_string(), "C".to_string()]);
    st.select_bone("B".to_string(), true);
    assert_eq!(st.selected_bones, vec!["A".to_string(), "C".to_string()]);
    assert!(st.is_bone_selected(&"A".to_string()));
    assert!(!st.is_bone_selected(&"B".to_string()));
    st.select_bone("B".to_string(), true);
    assert_eq!(st.selected_bones, vec!["A".to_string(), "C".to_string(), "B".to_string()]);
}

#[test]
fn double_toggle_of_new_bone_restores() {
    let mut st = RiggingSetupState::new();
    st.select_bone("A".to_string(), true);
    let before = st.selected_bones.clone();
    st.select_bone("Z".to_string(), true);
    st.select_bone("Z".to_string(), true);
    assert_eq!(st.selected_bones, before);
}

#[test]
fn position_of_first() {
    let v = vec!["x".to_string(), "y".to_string(), "x".to_string()];
    assert_eq!(position_of(&v, &"x".to_string()), Some(0));
    assert_eq!(position_of(&v, &"y".to_string()), Some(1));
    assert_eq!(position_of(&v, &"z".to_string()), None);
}
