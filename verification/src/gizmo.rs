use vstd::prelude::*;

use crate::transform::{Axis, QuatBits, TransformBits, Vec3Bits};

verus! {

/// The kind of edit the gizmo performs on the selected entity.
#[derive(Clone, Copy, PartialEq, Eq, Structural, Debug)]
pub enum GizmoMode {
    Translate,
    Rotate,
    Scale,
    /// No edit mode chosen.
    Inactive,
}

impl Default for GizmoMode {
    fn default() -> (r: Self)
        ensures
            r == GizmoMode::Inactive,
    {
        GizmoMode::Inactive
    }
}

/// The axis an edit is locked to; `Free` is an edit in the view plane.
#[derive(Clone, Copy, PartialEq, Eq, Structural, Debug)]
pub enum SelectedAxis {
    X,
    Y,
    Z,
    Free,
}

/// The keys and buttons of one frame that the editor reacts to.
#[derive(Clone, Copy, PartialEq, Eq, Structural, Debug)]
pub struct GizmoInput {
    /// J was just pressed: switch between local and global coordinates.
    pub toggle_space: bool,
    /// G was just pressed.
    pub translate_key: bool,
    /// R was just pressed.
    pub rotate_key: bool,
    /// F was just pressed.
    pub scale_key: bool,
    /// X was just pressed.
    pub axis_x_key: bool,
    /// Y was just pressed.
    pub axis_y_key: bool,
    /// Z was just pressed.
    pub axis_z_key: bool,
    /// Escape was just pressed.
    pub escape: bool,
    /// The left mouse button was just pressed.
    pub left_just_pressed: bool,
    /// The right mouse button was just pressed.
    pub right_just_pressed: bool,
    /// The right mouse button is held.
    pub right_pressed: bool,
}

/// What the caller does to the selected entity's transform this frame.
#[derive(Clone, Copy, PartialEq, Eq, Structural, Debug)]
pub enum TransformPlan {
    /// Move the entity with the cursor in the plane through it facing the camera.
    DragInViewPlane,
    /// Rotate the entity about the camera's forward direction.
    RotateAboutView,
    /// Scale the entity uniformly.
    ScaleUniform,
    /// Move along the entity's own axis.
    TranslateLocal(Axis),
    /// Move along a world axis.
    TranslateWorld(Axis),
    /// Rotate about the entity's own axis.
    RotateLocal(Axis),
    /// Rotate about a world axis.
    RotateWorld(Axis),
    /// Scale one component.
    ScaleAxis(Axis),
    /// Leave the transform as it is.
    Idle,
}

/// What the overlay draws around the selected entity.
#[derive(Clone, Copy, PartialEq, Eq, Structural, Debug)]
pub enum GizmoOverlay {
    /// A long guide line along the locked axis.
    AxisLine(Axis),
    /// Short faint lines along all three axes (free edit).
    AxisCross,
    /// The three axis handles (no edit in progress).
    Handles,
}

/// The result of the confirm/cancel step of a frame.
#[derive(Clone, Copy, PartialEq, Eq, Structural, Debug)]
pub struct FinishOutcome {
    /// The edit was confirmed: the current transform is to be recorded in the scene.
    pub commit: bool,
    /// The edit was cancelled: the transform to put back on the entity.
    pub restored: Option<TransformBits>,
}

/// Editor selection and gizmo state.
pub struct EditorSelection {
    pub selected: Option<u64>,
    pub mode: GizmoMode,
    pub active_axis: Option<SelectedAxis>,
    pub initial_drag_value: Option<Vec3Bits>,
    pub last_intersect_point: Option<Vec3Bits>,
    pub backup_translation: Option<Vec3Bits>,
    pub backup_rotation: Option<QuatBits>,
    pub backup_scale: Option<Vec3Bits>,
    pub is_local: bool,
}

/// The axis of a locked edit.
pub open spec fn axis_of(a: SelectedAxis) -> Axis {
    match a {
        SelectedAxis::X => Axis::X,
        SelectedAxis::Y => Axis::Y,
        _ => Axis::Z,
    }
}

/// The mode the edit keys of a frame ask for (G before R before F).
pub open spec fn requested_mode(input: GizmoInput) -> GizmoMode {
    if input.translate_key {
        GizmoMode::Translate
    } else if input.rotate_key {
        GizmoMode::Rotate
    } else if input.scale_key {
        GizmoMode::Scale
    } else {
        GizmoMode::Inactive
    }
}

/// The axis the axis keys of a frame ask for (X before Y before Z).
pub open spec fn requested_axis(input: GizmoInput) -> Option<SelectedAxis> {
    if input.axis_x_key {
        Some(SelectedAxis::X)
    } else if input.axis_y_key {
        Some(SelectedAxis::Y)
    } else if input.axis_z_key {
        Some(SelectedAxis::Z)
    } else {
        None
    }
}

/// The mode the number keys 1, 2, 3 select, if one of them was pressed.
pub open spec fn digit_mode(d1: bool, d2: bool, d3: bool) -> Option<GizmoMode> {
    if d1 {
        Some(GizmoMode::Translate)
    } else if d2 {
        Some(GizmoMode::Rotate)
    } else if d3 {
        Some(GizmoMode::Scale)
    } else {
        None
    }
}

/// The transform edit for a mode, a locked axis and the coordinate space.
pub open spec fn plan_for(mode: GizmoMode, axis: SelectedAxis, is_local: bool) -> TransformPlan {
    if axis == SelectedAxis::Free {
        match mode {
            GizmoMode::Translate => TransformPlan::DragInViewPlane,
            GizmoMode::Rotate => TransformPlan::RotateAboutView,
            GizmoMode::Scale => TransformPlan::ScaleUniform,
            GizmoMode::Inactive => TransformPlan::Idle,
        }
    } else {
        match mode {
            GizmoMode::Translate => if is_local {
                TransformPlan::TranslateLocal(axis_of(axis))
            } else {
                TransformPlan::TranslateWorld(axis_of(axis))
            },
            GizmoMode::Rotate => if is_local {
                TransformPlan::RotateLocal(axis_of(axis))
            } else {
                TransformPlan::RotateWorld(axis_of(axis))
            },
            GizmoMode::Scale => TransformPlan::ScaleAxis(axis_of(axis)),
            GizmoMode::Inactive => TransformPlan::Idle,
        }
    }
}

/// The overlay for an edit state.
pub open spec fn overlay_for(active_axis: Option<SelectedAxis>) -> GizmoOverlay {
    match active_axis {
        Some(SelectedAxis::Free) => GizmoOverlay::AxisCross,
        Some(a) => GizmoOverlay::AxisLine(axis_of(a)),
        None => GizmoOverlay::Handles,
    }
}

/// `p` edits along the axis that `axis` names, in the space and of the kind that
/// `mode` and `is_local` ask for: stated case by case, without `plan_for`.
pub open spec fn plan_matches_state(p: TransformPlan, mode: GizmoMode, axis: SelectedAxis, is_local: bool) -> bool {
    match mode {
        GizmoMode::Inactive => p == TransformPlan::Idle,
        GizmoMode::Translate => match axis {
            SelectedAxis::Free => p == TransformPlan::DragInViewPlane,
            SelectedAxis::X => p == (if is_local { TransformPlan::TranslateLocal(Axis::X) } else { TransformPlan::TranslateWorld(Axis::X) }),
            SelectedAxis::Y => p == (if is_local { TransformPlan::TranslateLocal(Axis::Y) } else { TransformPlan::TranslateWorld(Axis::Y) }),
            SelectedAxis::Z => p == (if is_local { TransformPlan::TranslateLocal(Axis::Z) } else { TransformPlan::TranslateWorld(Axis::Z) }),
        },
        GizmoMode::Rotate => match axis {
            SelectedAxis::Free => p == TransformPlan::RotateAboutView,
            SelectedAxis::X => p == (if is_local { TransformPlan::RotateLocal(Axis::X) } else { TransformPlan::RotateWorld(Axis::X) }),
            SelectedAxis::Y => p == (if is_local { TransformPlan::RotateLocal(Axis::Y) } else { TransformPlan::RotateWorld(Axis::Y) }),
            SelectedAxis::Z => p == (if is_local { TransformPlan::RotateLocal(Axis::Z) } else { TransformPlan::RotateWorld(Axis::Z) }),
        },
        GizmoMode::Scale => match axis {
            SelectedAxis::Free => p == TransformPlan::ScaleUniform,
            SelectedAxis::X => p == TransformPlan::ScaleAxis(Axis::X),
            SelectedAxis::Y => p == TransformPlan::ScaleAxis(Axis::Y),
            SelectedAxis::Z => p == TransformPlan::ScaleAxis(Axis::Z),
        },
    }
}

/// The axis a plan acts along, if it acts along one.
pub open spec fn plan_axis(p: TransformPlan) -> Option<Axis> {
    match p {
        TransformPlan::TranslateLocal(a) => Some(a),
        TransformPlan::TranslateWorld(a) => Some(a),
        TransformPlan::RotateLocal(a) => Some(a),
        TransformPlan::RotateWorld(a) => Some(a),
        TransformPlan::ScaleAxis(a) => Some(a),
        _ => None,
    }
}

fn axis_from_selected(a: SelectedAxis) -> (r: Axis)
    ensures
        r == axis_of(a),
{
    match a {
        SelectedAxis::X => Axis::X,
        SelectedAxis::Y => Axis::Y,
        _ => Axis::Z,
    }
}

impl EditorSelection {
    /// Consistency of an edit in progress: an edit has a mode, a selected entity, a
    /// backup of the transform it started from, and a cursor anchor.
    pub open spec fn wf(self) -> bool {
        self.active_axis is Some ==> {
            &&& self.mode != GizmoMode::Inactive
            &&& self.selected is Some
            &&& self.backup_translation is Some
            &&& self.backup_rotation is Some
            &&& self.backup_scale is Some
            &&& self.last_intersect_point is Some
        }
    }

    /// `t` with each component for which a backup is held replaced by that backup.
    pub open spec fn restored(self, t: TransformBits) -> TransformBits {
        TransformBits {
            translation: match self.backup_translation {
                Some(p) => p,
                None => t.translation,
            },
            rotation: match self.backup_rotation {
                Some(q) => q,
                None => t.rotation,
            },
            scale: match self.backup_scale {
                Some(s) => s,
                None => t.scale,
            },
        }
    }

    /// The state after the coordinate-space key of a frame.
    pub open spec fn after_toggle_space(self, pressed: bool) -> Self {
        if pressed {
            EditorSelection { is_local: !self.is_local, ..self }
        } else {
            self
        }
    }

    /// Whether a click of this frame picks (or clears) the selection.
    pub open spec fn picks(self, rigging_active: bool, input: GizmoInput) -> bool {
        !rigging_active && self.active_axis is None && input.left_just_pressed
            && !input.right_pressed
    }

    /// The state after a click that hit `hit` (the nearest entity under the cursor, if any).
    pub open spec fn after_pick(self, rigging_active: bool, input: GizmoInput, hit: Option<u64>) -> Self {
        if self.picks(rigging_active, input) {
            EditorSelection { selected: hit, mode: GizmoMode::Inactive, ..self }
        } else {
            self
        }
    }

    /// Whether the edit keys of a frame start an edit of the selected entity, whose
    /// transform is `transform` when the entity has one.
    pub open spec fn begins(self, input: GizmoInput, transform: Option<TransformBits>) -> bool {
        &&& self.selected is Some
        &&& self.active_axis is None
        &&& transform is Some
        &&& requested_mode(input) != GizmoMode::Inactive
    }

    /// The state after the edit keys of a frame.
    pub open spec fn after_begin(
        self,
        input: GizmoInput,
        transform: Option<TransformBits>,
        cursor: Vec3Bits,
    ) -> Self {
        if self.begins(input, transform) {
            let t = transform->0;
            EditorSelection {
                mode: requested_mode(input),
                last_intersect_point: Some(cursor),
                backup_translation: Some(t.translation),
                backup_rotation: Some(t.rotation),
                backup_scale: Some(t.scale),
                active_axis: Some(SelectedAxis::Free),
                ..self
            }
        } else {
            self
        }
    }

    /// Whether the axis keys of a frame lock the edit in progress to an axis.
    pub open spec fn locks(self, input: GizmoInput) -> bool {
        self.active_axis is Some && requested_axis(input) is Some
    }

    /// The state after the axis keys of a frame.
    pub open spec fn after_lock(self, input: GizmoInput, cursor: Vec3Bits) -> Self {
        if self.locks(input) {
            EditorSelection {
                active_axis: requested_axis(input),
                last_intersect_point: Some(cursor),
                ..self
            }
        } else {
            self
        }
    }

    /// Whether the confirm/cancel step runs this frame.
    pub open spec fn editing(self) -> bool {
        self.active_axis is Some && self.selected is Some
    }

    /// Whether the edit is cancelled this frame.
    pub open spec fn cancels(self, input: GizmoInput) -> bool {
        self.editing() && (input.right_just_pressed || input.escape)
    }

    /// Whether the edit is confirmed this frame.
    pub open spec fn confirms(self, input: GizmoInput) -> bool {
        self.editing() && input.left_just_pressed
    }

    /// The state after the confirm/cancel step.
    pub open spec fn after_finish(self, input: GizmoInput) -> Self {
        if self.confirms(input) || self.cancels(input) {
            EditorSelection { active_axis: None, mode: GizmoMode::Inactive, ..self }
        } else {
            self
        }
    }

    /// A selection with nothing selected and no edit in progress.
    pub fn new() -> (r: Self)
        ensures
            r.selected is None,
            r.mode == GizmoMode::Inactive,
            r.active_axis is None,
            r.initial_drag_value is None,
            r.last_intersect_point is None,
            r.backup_translation is None,
            r.backup_rotation is None,
            r.backup_scale is None,
            !r.is_local,
            r.wf(),
    {
        EditorSelection {
            selected: None,
            mode: GizmoMode::Inactive,
            active_axis: None,
            initial_drag_value: None,
            last_intersect_point: None,
            backup_translation: None,
            backup_rotation: None,
            backup_scale: None,
            is_local: false,
        }
    }

    /// Switches between local and global coordinates when `pressed`.
    pub fn toggle_space(&mut self, pressed: bool)
        ensures
            *final(self) == old(self).after_toggle_space(pressed),
            old(self).wf() ==> final(self).wf(),
    {
        if pressed {
            self.is_local = !self.is_local;
        }
    }

    /// Number keys 1, 2, 3 select the translate, rotate and scale modes.
    pub fn switch_mode_from_digits(&mut self, d1: bool, d2: bool, d3: bool)
        ensures
            *final(self) == (match digit_mode(d1, d2, d3) {
                Some(m) => EditorSelection { mode: m, ..*old(self) },
                None => *old(self),
            }),
            old(self).wf() ==> final(self).wf(),
    {
        if d1 {
            self.mode = GizmoMode::Translate;
        } else if d2 {
            self.mode = GizmoMode::Rotate;
        } else if d3 {
            self.mode = GizmoMode::Scale;
        }
    }

    /// A left click (without the right button held) outside an edit selects the
    /// entity `hit`, or clears the selection when nothing was hit; either way the
    /// mode is reset. Returns whether the click was taken.
    pub fn pick(&mut self, rigging_active: bool, input: GizmoInput, hit: Option<u64>) -> (r: bool)
        ensures
            r == old(self).picks(rigging_active, input),
            *final(self) == old(self).after_pick(rigging_active, input, hit),
            old(self).wf() ==> final(self).wf(),
    {
        if !rigging_active && self.active_axis.is_none() && input.left_just_pressed
            && !input.right_pressed {
            self.selected = hit;
            self.mode = GizmoMode::Inactive;
            true
        } else {
            false
        }
    }

    /// G, R or F start a free edit of the selected entity, whose transform is
    /// `transform`: the transform is backed up and the cursor anchored at `cursor`.
    pub fn begin_edit(&mut self, input: GizmoInput, transform: Option<TransformBits>, cursor: Vec3Bits)
        ensures
            *final(self) == old(self).after_begin(input, transform, cursor),
            old(self).wf() ==> final(self).wf(),
    {
        if self.selected.is_some() && self.active_axis.is_none() {
            if let Some(t) = transform {
                let chosen = if input.translate_key {
                    GizmoMode::Translate
                } else if input.rotate_key {
                    GizmoMode::Rotate
                } else if input.scale_key {
                    GizmoMode::Scale
                } else {
                    GizmoMode::Inactive
                };
                if chosen != GizmoMode::Inactive {
                    self.mode = chosen;
                    self.last_intersect_point = Some(cursor);
                    self.backup_translation = Some(t.translation);
                    self.backup_rotation = Some(t.rotation);
                    self.backup_scale = Some(t.scale);
                    self.active_axis = Some(SelectedAxis::Free);
                }
            }
        }
    }

    /// X, Y or Z lock the edit in progress to an axis and re-anchor the cursor.
    /// When the selected entity has a transform (`current`), the transform to put
    /// back on it, the backed-up one, is returned.
    pub fn lock_axis(&mut self, input: GizmoInput, cursor: Vec3Bits, current: Option<TransformBits>) -> (r: Option<TransformBits>)
        ensures
            *final(self) == old(self).after_lock(input, cursor),
            r == (if old(self).locks(input) && old(self).selected is Some && current is Some {
                Some(old(self).restored(current->0))
            } else {
                None
            }),
            old(self).wf() ==> final(self).wf(),
    {
        if self.active_axis.is_some() {
            let new_axis = if input.axis_x_key {
                Some(SelectedAxis::X)
            } else if input.axis_y_key {
                Some(SelectedAxis::Y)
            } else if input.axis_z_key {
                Some(SelectedAxis::Z)
            } else {
                None
            };
            if new_axis.is_some() {
                self.active_axis = new_axis;
                let restored = if self.selected.is_some() {
                    match current {
                        Some(t) => Some(self.restore(t)),
                        None => None,
                    }
                } else {
                    None
                };
                self.last_intersect_point = Some(cursor);
                return restored;
            }
        }
        None
    }

    /// `t` with the backed-up components put back.
    pub fn restore(&self, t: TransformBits) -> (r: TransformBits)
        ensures
            r == self.restored(t),
    {
        TransformBits {
            translation: match self.backup_translation {
                Some(p) => p,
                None => t.translation,
            },
            rotation: match self.backup_rotation {
                Some(q) => q,
                None => t.rotation,
            },
            scale: match self.backup_scale {
                Some(s) => s,
                None => t.scale,
            },
        }
    }

    /// The transform edit of this frame, when an edit of the selected entity is in progress.
    pub fn transform_plan(&self) -> (r: Option<TransformPlan>)
        ensures
            r == (if self.editing() {
                Some(plan_for(self.mode, self.active_axis->0, self.is_local))
            } else {
                None
            }),
            r is Some <==> self.editing(),
            r matches Some(p) ==> plan_matches_state(p, self.mode, self.active_axis->0, self.is_local),
    {
        if self.selected.is_none() {
            return None;
        }
        match self.active_axis {
            None => None,
            Some(axis) => {
                let plan = if axis == SelectedAxis::Free {
                    match self.mode {
                        GizmoMode::Translate => TransformPlan::DragInViewPlane,
                        GizmoMode::Rotate => TransformPlan::RotateAboutView,
                        GizmoMode::Scale => TransformPlan::ScaleUniform,
                        GizmoMode::Inactive => TransformPlan::Idle,
                    }
                } else {
                    let a = axis_from_selected(axis);
                    match self.mode {
                        GizmoMode::Translate => if self.is_local {
                            TransformPlan::TranslateLocal(a)
                        } else {
                            TransformPlan::TranslateWorld(a)
                        },
                        GizmoMode::Rotate => if self.is_local {
                            TransformPlan::RotateLocal(a)
                        } else {
                            TransformPlan::RotateWorld(a)
                        },
                        GizmoMode::Scale => TransformPlan::ScaleAxis(a),
                        GizmoMode::Inactive => TransformPlan::Idle,
                    }
                };
                Some(plan)
            },
        }
    }

    /// Ends the edit in progress: a left click confirms it, a right click or Escape
    /// cancels it and hands back the backed-up transform for the entity, whose
    /// transform after this frame's edit is `current`. Both may happen in one frame.
    pub fn finish_edit(&mut self, input: GizmoInput, current: TransformBits) -> (r: FinishOutcome)
        ensures
            *final(self) == old(self).after_finish(input),
            r.commit == old(self).confirms(input),
            r.restored == (if old(self).cancels(input) {
                Some(old(self).restored(current))
            } else {
                None
            }),
            old(self).wf() ==> final(self).wf(),
            final(self).selected == old(self).selected,
            final(self).is_local == old(self).is_local,
            final(self).backup_translation == old(self).backup_translation,
            final(self).backup_rotation == old(self).backup_rotation,
            final(self).backup_scale == old(self).backup_scale,
            final(self).last_intersect_point == old(self).last_intersect_point,
            old(self).confirms(input) || old(self).cancels(input) ==> final(self).active_axis is None
                && final(self).mode == GizmoMode::Inactive,
            !(old(self).confirms(input) || old(self).cancels(input)) ==> *final(self) == *old(self),
    {
        if self.active_axis.is_none() || self.selected.is_none() {
            return FinishOutcome { commit: false, restored: None };
        }
        let mut commit = false;
        if input.left_just_pressed {
            self.active_axis = None;
            self.mode = GizmoMode::Inactive;
            commit = true;
        }
        let mut restored = None;
        if input.right_just_pressed || input.escape {
            restored = Some(self.restore(current));
            self.active_axis = None;
            self.mode = GizmoMode::Inactive;
        }
        FinishOutcome { commit, restored }
    }

    /// What to draw around the selected entity, if one is selected.
    pub fn overlay(&self) -> (r: Option<GizmoOverlay>)
        ensures
            r == (if self.selected is Some {
                Some(overlay_for(self.active_axis))
            } else {
                None
            }),
    {
        if self.selected.is_none() {
            return None;
        }
        match self.active_axis {
            Some(SelectedAxis::Free) => Some(GizmoOverlay::AxisCross),
            Some(a) => Some(GizmoOverlay::AxisLine(axis_from_selected(a))),
            None => Some(GizmoOverlay::Handles),
        }
    }
}

impl Default for EditorSelection {
    fn default() -> (r: Self)
        ensures
            r.selected is None,
            r.mode == GizmoMode::Inactive,
            r.active_axis is None,
            r.initial_drag_value is None,
            r.last_intersect_point is None,
            r.backup_translation is None,
            r.backup_rotation is None,
            r.backup_scale is None,
            !r.is_local,
    {
        EditorSelection::new()
    }
}

/// Cancelling an edit puts back the transform the entity had when the edit began,
/// whatever the edit did to it meanwhile and whichever axis was locked on the way.
pub proof fn lemma_cancel_restores_start(
    sel: EditorSelection,
    begin_input: GizmoInput,
    start: TransformBits,
    begin_cursor: Vec3Bits,
    lock_input: GizmoInput,
    lock_cursor: Vec3Bits,
    end_input: GizmoInput,
    current: TransformBits,
)
    requires
        sel.wf(),
        sel.begins(begin_input, Some(start)),
        end_input.right_just_pressed || end_input.escape,
    ensures
        ({
            let editing = sel.after_begin(begin_input, Some(start), begin_cursor).after_lock(
                lock_input,
                lock_cursor,
            );
            &&& editing.wf()
            &&& editing.cancels(end_input)
            &&& editing.restored(current) == start
            &&& editing.after_finish(end_input).active_axis is None
            &&& editing.after_finish(end_input).mode == GizmoMode::Inactive
        }),
{
}

/// Locking an axis puts back the transform the entity had when the edit began.
pub proof fn lemma_lock_restores_start(
    sel: EditorSelection,
    begin_input: GizmoInput,
    start: TransformBits,
    begin_cursor: Vec3Bits,
    lock_input: GizmoInput,
    current: TransformBits,
)
    requires
        sel.begins(begin_input, Some(start)),
        requested_axis(lock_input) is Some,
    ensures
        ({
            let editing = sel.after_begin(begin_input, Some(start), begin_cursor);
            &&& editing.locks(lock_input)
            &&& editing.selected is Some
            &&& editing.restored(current) == start
        }),
{
}

/// Confirming an edit ends it and keeps the edited transform (nothing is restored).
pub proof fn lemma_confirm_ends_edit(sel: EditorSelection, input: GizmoInput)
    requires
        sel.editing(),
        input.left_just_pressed,
        !input.right_just_pressed,
        !input.escape,
    ensures
        sel.confirms(input),
        !sel.cancels(input),
        sel.after_finish(input).active_axis is None,
        sel.after_finish(input).mode == GizmoMode::Inactive,
        sel.after_finish(input).selected == sel.selected,
{
}

/// Switching the coordinate space twice changes nothing.
pub proof fn lemma_toggle_space_twice(sel: EditorSelection)
    ensures
        sel.after_toggle_space(true).after_toggle_space(true) == sel,
{
}

/// The edit of a frame always acts along the locked axis: X on X, Y on Y, Z on Z,
/// and along no single axis for a free edit; translation and rotation act in the
/// entity's own space exactly when local coordinates are on.
pub proof fn lemma_plan_follows_locked_axis(sel: EditorSelection)
    requires
        sel.editing(),
        sel.mode != GizmoMode::Inactive,
    ensures
        ({
            let p = plan_for(sel.mode, sel.active_axis->0, sel.is_local);
            &&& sel.active_axis == Some(SelectedAxis::X) ==> plan_axis(p) == Some(Axis::X)
            &&& sel.active_axis == Some(SelectedAxis::Y) ==> plan_axis(p) == Some(Axis::Y)
            &&& sel.active_axis == Some(SelectedAxis::Z) ==> plan_axis(p) == Some(Axis::Z)
            &&& sel.active_axis == Some(SelectedAxis::Free) ==> plan_axis(p) is None
            &&& (p is TranslateLocal || p is RotateLocal) ==> sel.is_local
            &&& (p is TranslateWorld || p is RotateWorld) ==> !sel.is_local
            &&& (p is TranslateLocal || p is TranslateWorld || p is DragInViewPlane) <==> sel.mode == GizmoMode::Translate
            &&& (p is RotateLocal || p is RotateWorld || p is RotateAboutView) <==> sel.mode == GizmoMode::Rotate
            &&& (p is ScaleAxis || p is ScaleUniform) <==> sel.mode == GizmoMode::Scale
            &&& plan_matches_state(p, sel.mode, sel.active_axis->0, sel.is_local)
        }),
{
}

/// Finishing an edit, by confirming or cancelling it, never changes which entity is
/// selected, the coordinate space, or the backups; it only ends the edit.
pub proof fn lemma_finish_keeps_selection(sel: EditorSelection, input: GizmoInput)
    ensures
        sel.after_finish(input).selected == sel.selected,
        sel.after_finish(input).is_local == sel.is_local,
        sel.after_finish(input).backup_translation == sel.backup_translation,
        sel.after_finish(input).backup_rotation == sel.backup_rotation,
        sel.after_finish(input).backup_scale == sel.backup_scale,
        (input.right_just_pressed || input.escape || input.left_just_pressed) && sel.editing()
            ==> sel.after_finish(input).active_axis is None
            && sel.after_finish(input).mode == GizmoMode::Inactive
            && sel.after_finish(input).selected == sel.selected,
{
}

} // verus!
