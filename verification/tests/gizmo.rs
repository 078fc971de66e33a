use waddlie_core::gizmo::{EditorSelection, GizmoInput, GizmoMode, GizmoOverlay, SelectedAxis, TransformPlan};
use waddlie_core::transform::{Axis, QuatBits, TransformBits, Vec3Bits};

fn no_input() -> GizmoInput {
    GizmoInput {
        toggle_space: false,
        translate_key: false,
        rotate_key: false,
        scale_key: false,
        axis_x_key: false,
        axis_y_key: false,
        axis_z_key: false,
        escape: false,
        left_just_pressed: false,
        right_just_pressed: false,
        right_pressed: false,
    }
}

fn start() -> TransformBits {
    TransformBits {
        translation: Vec3Bits { x: 1, y: 2, z: 3 },
        rotation: QuatBits { x: 0, y: 0, z: 0, w: 1.0f32.to_bits() },
        scale: Vec3Bits { x: 10, y: 11, z: 12 },
    }
}

fn edited() -> TransformBits {
    TransformBits {
        translation: Vec3Bits { x: 100, y: 200, z: 300 },
        rotation: QuatBits { x: 9, y: 9, z: 9, w: 9 },
        scale: Vec3Bits { x: 50, y: 51, z: 52 },
    }
}

fn cursor() -> Vec3Bits {
    Vec3Bits { x: 5, y: 6, z: 0 }
}

fn selected_entity() -> EditorSelection {
    let mut sel = EditorSelection::new();
    let click = GizmoInput { left_just_pressed: true, ..no_input() };
    assert!(sel.pick(false, click, Some(77)));
    sel
}

#[test]
fn new_selection_is_idle() {
    let sel = EditorSelection::default();
    assert_eq!(sel.selected, None);
    assert_eq!(sel.mode, GizmoMode::Inactive);
    assert_eq!(sel.active_axis, None);
    assert!(!sel.is_local);
    assert_eq!(sel.overlay(), None);
    assert_eq!(sel.transform_plan(), None);
}

#[test]
fn click_selects_hit_and_resets_mode() {
    let mut sel = EditorSelection::new();
    sel.mode = GizmoMode::Rotate;
    let click = GizmoInput { left_just_pressed: true, ..no_input() };
    assert!(sel.pick(false, click, Some(7)));
    assert_eq!(sel.selected, Some(7));
    assert_eq!(sel.mode, GizmoMode::Inactive);
    assert!(sel.pick(false, click, None));
    assert_eq!(sel.selected, None);
}

#[test]
fn click_ignored_while_rigging_or_right_held() {
    let mut sel = EditorSelection::new();
    let click = GizmoInput { left_just_pressed: true, ..no_input() };
    assert!(!sel.pick(true, click, Some(7)));
    assert_eq!(sel.selected, None);
    let both = GizmoInput { left_just_pressed: true, right_pressed: true, ..no_input() };
    assert!(!sel.pick(false, both, Some(7)));
    assert_eq!(sel.selected, None);
}

#[test]
fn toggle_space_flips() {
    let mut sel = EditorSelection::new();
    sel.toggle_space(true);
    assert!(sel.is_local);
    sel.toggle_space(false);
    assert!(sel.is_local);
    sel.toggle_space(true);
    assert!(!sel.is_local);
}

#[test]
fn digit_keys_choose_mode() {
    let mut sel = EditorSelection::new();
    sel.switch_mode_from_digits(false, true, true);
    assert_eq!(sel.mode, GizmoMode::Rotate);
    sel.switch_mode_from_digits(true, false, true);
    assert_eq!(sel.mode, GizmoMode::Translate);
    sel.switch_mode_from_digits(false, false, false);
    assert_eq!(sel.mode, GizmoMode::Translate);
    sel.switch_mode_from_digits(false, false, true);
    assert_eq!(sel.mode, GizmoMode::Scale);
}

#[test]
fn g_starts_free_translate_with_backup() {
    let mut sel = selected_entity();
    sel.begin_edit(GizmoInput { translate_key: true, rotate_key: true, ..no_input() }, Some(start()), cursor());
    assert_eq!(sel.mode, GizmoMode::Translate);
    assert_eq!(sel.active_axis, Some(SelectedAxis::Free));
    assert_eq!(sel.backup_translation, Some(start().translation));
    assert_eq!(sel.backup_rotation, Some(start().rotation));
    assert_eq!(sel.backup_scale, Some(start().scale));
    assert_eq!(sel.last_intersect_point, Some(cursor()));
    assert_eq!(sel.transform_plan(), Some(TransformPlan::DragInViewPlane));
    assert_eq!(sel.overlay(), Some(GizmoOverlay::AxisCross));
}

#[test]
fn edit_needs_selection_and_transform() {
    let mut sel = EditorSelection::new();
    sel.begin_edit(GizmoInput { rotate_key: true, ..no_input() }, Some(start()), cursor());
    assert_eq!(sel.active_axis, None);
    let mut sel = selected_entity();
    sel.begin_edit(GizmoInput { rotate_key: true, ..no_input() }, None, cursor());
    assert_eq!(sel.active_axis, None);
    sel.begin_edit(no_input(), Some(start()), cursor());
    assert_eq!(sel.active_axis, None);
}

#[test]
fn axis_lock_restores_backup_and_plans() {
    let mut sel = selected_entity();
    sel.begin_edit(GizmoInput { rotate_key: true, ..no_input() }, Some(start()), cursor());
    let new_cursor = Vec3Bits { x: 42, y: 43, z: 0 };
    let restored = sel.lock_axis(GizmoInput { axis_y_key: true, axis_z_key: true, ..no_input() }, new_cursor, Some(edited()));
    assert_eq!(restored, Some(start()));
    assert_eq!(sel.active_axis, Some(SelectedAxis::Y));
    assert_eq!(sel.last_intersect_point, Some(new_cursor));
    assert_eq!(sel.transform_plan(), Some(TransformPlan::RotateWorld(Axis::Y)));
    sel.toggle_space(true);
    assert_eq!(sel.transform_plan(), Some(TransformPlan::RotateLocal(Axis::Y)));
    assert_eq!(sel.overlay(), Some(GizmoOverlay::AxisLine(Axis::Y)));
}

#[test]
fn axis_keys_without_edit_do_nothing() {
    let mut sel = selected_entity();
    let r = sel.lock_axis(GizmoInput { axis_x_key: true, ..no_input() }, cursor(), Some(edited()));
    assert_eq!(r, None);
    assert_eq!(sel.active_axis, None);
    assert_eq!(sel.overlay(), Some(GizmoOverlay::Handles));
}

#[test]
fn plans_for_scale_and_translate() {
    let mut sel = selected_entity();
    sel.begin_edit(GizmoInput { scale_key: true, ..no_input() }, Some(start()), cursor());
    assert_eq!(sel.transform_plan(), Some(TransformPlan::ScaleUniform));
    sel.lock_axis(GizmoInput { axis_x_key: true, ..no_input() }, cursor(), Some(edited()));
    assert_eq!(sel.transform_plan(), Some(TransformPlan::ScaleAxis(Axis::X)));
    let mut sel = selected_entity();
    sel.begin_edit(GizmoInput { translate_key: true, ..no_input() }, Some(start()), cursor());
    sel.lock_axis(GizmoInput { axis_z_key: true, ..no_input() }, cursor(), None);
    assert_eq!(sel.transform_plan(), Some(TransformPlan::TranslateWorld(Axis::Z)));
    sel.toggle_space(true);
    assert_eq!(sel.transform_plan(), Some(TransformPlan::TranslateLocal(Axis::Z)));
    let mut sel = selected_entity();
    sel.begin_edit(GizmoInput { rotate_key: true, ..no_input() }, Some(start()), cursor());
    assert_eq!(sel.transform_plan(), Some(TransformPlan::RotateAboutView));
}

#[test]
fn left_click_confirms() {
    let mut sel = selected_entity();
    sel.begin_edit(GizmoInput { translate_key: true, ..no_input() }, Some(start()), cursor());
    let out = sel.finish_edit(GizmoInput { left_just_pressed: true, ..no_input() }, edited());
    assert!(out.commit);
    assert_eq!(out.restored, None);
    assert_eq!(sel.active_axis, None);
    assert_eq!(sel.mode, GizmoMode::Inactive);
    assert_eq!(sel.selected, Some(77));
}

#[test]
fn escape_cancels_and_restores() {
    let mut sel = selected_entity();
    sel.begin_edit(GizmoInput { scale_key: true, ..no_input() }, Some(start()), cursor());
    let out = sel.finish_edit(GizmoInput { escape: true, ..no_input() }, edited());
    assert!(!out.commit);
    assert_eq!(out.restored, Some(start()));
    assert_eq!(sel.active_axis, None);
    assert_eq!(sel.mode, GizmoMode::Inactive);
}

#[test]
fn both_buttons_commit_then_restore() {
    let mut sel = selected_entity();
    sel.begin_edit(GizmoInput { rotate_key: true, ..no_input() }, Some(start()), cursor());
    let out = sel.finish_edit(GizmoInput { left_just_pressed: true, right_just_pressed: true, ..no_input() }, edited());
    assert!(out.commit);
    assert_eq!(out.restored, Some(start()));
}

#[test]
fn finish_without_edit_does_nothing() {
    let mut sel = selected_entity();
    let out = sel.finish_edit(GizmoInput { left_just_pressed: true, escape: true, ..no_input() }, edited());
    assert!(!out.commit);
    assert_eq!(out.restored, None);
}

#[test]
fn click_during_edit_does_not_reselect() {
    let mut sel = selected_entity();
    sel.begin_edit(GizmoInput { translate_key: true, ..no_input() }, Some(start()), cursor());
    assert!(!sel.pick(false, GizmoInput { left_just_pressed: true, ..no_input() }, Some(5)));
    assert_eq!(sel.selected, Some(77));
}

#[test]
fn restore_keeps_components_without_backup() {
    let sel = EditorSelection::new();
    assert_eq!(sel.restore(edited()), edited());
}
