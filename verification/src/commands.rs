use vstd::prelude::*;

use crate::text::text_eq;
use crate::transform::{vec3_with, Axis, TransformBits};

verus! {

/// A command from the web page for one scene entity. Numeric values are `f32`
/// bit patterns.
pub enum WebCommandAction {
    NudgeX(u32),
    NudgeY(u32),
    NudgeZ(u32),
    SetScaleX(u32),
    SetScaleY(u32),
    SetScaleZ(u32),
    SetRotationX(u32),
    SetRotationY(u32),
    SetRotationZ(u32),
    SetModelPath(String),
    SetMaterialColor([u32; 3]),
    CreateNewEntity(String),
}

/// A command together with the scene id of the entity it is for.
pub struct WebCommandPayload {
    pub entity_id: u32,
    pub action: WebCommandAction,
}

/// The action that the command named `name` stands for, carrying `value_str` or
/// `value_num`; `None` for an unknown name.
pub open spec fn command_action(name: Seq<char>, value_str: String, value_num: u32) -> Option<WebCommandAction> {
    if name == "nudge_x"@ {
        Some(WebCommandAction::NudgeX(value_num))
    } else if name == "nudge_y"@ {
        Some(WebCommandAction::NudgeY(value_num))
    } else if name == "nudge_z"@ {
        Some(WebCommandAction::NudgeZ(value_num))
    } else if name == "scale_x"@ {
        Some(WebCommandAction::SetScaleX(value_num))
    } else if name == "scale_y"@ {
        Some(WebCommandAction::SetScaleY(value_num))
    } else if name == "scale_z"@ {
        Some(WebCommandAction::SetScaleZ(value_num))
    } else if name == "rotation_x"@ {
        Some(WebCommandAction::SetRotationX(value_num))
    } else if name == "rotation_y"@ {
        Some(WebCommandAction::SetRotationY(value_num))
    } else if name == "rotation_z"@ {
        Some(WebCommandAction::SetRotationZ(value_num))
    } else if name == "model_path"@ {
        Some(WebCommandAction::SetModelPath(value_str))
    } else if name == "material_color"@ {
        Some(WebCommandAction::SetMaterialColor([value_num, value_num, value_num]))
    } else {
        None
    }
}

/// Builds the command for entity `entity_id` from the page's command name and
/// values; `None` for an unknown command name.
pub fn web_command_payload(entity_id: u32, command: &str, value_str: String, value_num: u32) -> (r: Option<WebCommandPayload>)
    ensures
        match command_action(command@, value_str, value_num) {
            Some(a) => r matches Some(p) && p.entity_id == entity_id && p.action == a,
            None => r is None,
        },
{
    let action = if text_eq(command, "nudge_x") {
        WebCommandAction::NudgeX(value_num)
    } else if text_eq(command, "nudge_y") {
        WebCommandAction::NudgeY(value_num)
    } else if text_eq(command, "nudge_z") {
        WebCommandAction::NudgeZ(value_num)
    } else if text_eq(command, "scale_x") {
        WebCommandAction::SetScaleX(value_num)
    } else if text_eq(command, "scale_y") {
        WebCommandAction::SetScaleY(value_num)
    } else if text_eq(command, "scale_z") {
        WebCommandAction::SetScaleZ(value_num)
    } else if text_eq(command, "rotation_x") {
        WebCommandAction::SetRotationX(value_num)
    } else if text_eq(command, "rotation_y") {
        WebCommandAction::SetRotationY(value_num)
    } else if text_eq(command, "rotation_z") {
        WebCommandAction::SetRotationZ(value_num)
    } else if text_eq(command, "model_path") {
        WebCommandAction::SetModelPath(value_str)
    } else if text_eq(command, "material_color") {
        WebCommandAction::SetMaterialColor([value_num, value_num, value_num])
    } else {
        return None;
    };
    Some(WebCommandPayload { entity_id, action })
}

/// The transform after the position or scale part of `action`; other actions
/// leave it as it is.
pub open spec fn transform_after(action: WebCommandAction, t: TransformBits) -> TransformBits {
    match action {
        WebCommandAction::NudgeX(v) => TransformBits { translation: vec3_with(t.translation, Axis::X, v), ..t },
        WebCommandAction::NudgeY(v) => TransformBits { translation: vec3_with(t.translation, Axis::Y, v), ..t },
        WebCommandAction::NudgeZ(v) => TransformBits { translation: vec3_with(t.translation, Axis::Z, v), ..t },
        WebCommandAction::SetScaleX(v) => TransformBits { scale: vec3_with(t.scale, Axis::X, v), ..t },
        WebCommandAction::SetScaleY(v) => TransformBits { scale: vec3_with(t.scale, Axis::Y, v), ..t },
        WebCommandAction::SetScaleZ(v) => TransformBits { scale: vec3_with(t.scale, Axis::Z, v), ..t },
        _ => t,
    }
}

/// The Euler angle (axis, degrees as bits) that a rotation command sets.
pub open spec fn rotation_set_by(action: WebCommandAction) -> Option<(Axis, u32)> {
    match action {
        WebCommandAction::SetRotationX(v) => Some((Axis::X, v)),
        WebCommandAction::SetRotationY(v) => Some((Axis::Y, v)),
        WebCommandAction::SetRotationZ(v) => Some((Axis::Z, v)),
        _ => None,
    }
}

/// `r` is `t` with exactly the component the command names set to its value: a
/// nudge sets one translation component, a scale command one scale component, and
/// every other command (and every other component) is left as it was.
pub open spec fn edits_only_named_component(action: WebCommandAction, t: TransformBits, r: TransformBits) -> bool {
    &&& r.rotation == t.rotation
    &&& match action {
        WebCommandAction::NudgeX(v) => r.translation.x == v && r.translation.y == t.translation.y
            && r.translation.z == t.translation.z && r.scale == t.scale,
        WebCommandAction::NudgeY(v) => r.translation.x == t.translation.x && r.translation.y == v
            && r.translation.z == t.translation.z && r.scale == t.scale,
        WebCommandAction::NudgeZ(v) => r.translation.x == t.translation.x && r.translation.y == t.translation.y
            && r.translation.z == v && r.scale == t.scale,
        WebCommandAction::SetScaleX(v) => r.scale.x == v && r.scale.y == t.scale.y && r.scale.z == t.scale.z
            && r.translation == t.translation,
        WebCommandAction::SetScaleY(v) => r.scale.x == t.scale.x && r.scale.y == v && r.scale.z == t.scale.z
            && r.translation == t.translation,
        WebCommandAction::SetScaleZ(v) => r.scale.x == t.scale.x && r.scale.y == t.scale.y && r.scale.z == v
            && r.translation == t.translation,
        _ => r == t,
    }
}

/// A command changes exactly the transform component it names: a scale command
/// never moves the entity, a nudge never rescales it, neither rotates it, and the
/// other commands leave the transform alone.
pub proof fn lemma_command_edits_named_component(action: WebCommandAction, t: TransformBits)
    ensures
        edits_only_named_component(action, t, transform_after(action, t)),
        transform_after(action, t).rotation == t.rotation,
        (action is SetScaleX || action is SetScaleY || action is SetScaleZ)
            ==> transform_after(action, t).translation == t.translation,
        (action is NudgeX || action is NudgeY || action is NudgeZ)
            ==> transform_after(action, t).scale == t.scale,
{
}

impl WebCommandAction {
    /// Applies the position or scale part of this command to `t`.
    pub fn apply_to_transform(&self, t: TransformBits) -> (r: TransformBits)
        ensures
            r == transform_after(*self, t),
            edits_only_named_component(*self, t, r),
    {
        match self {
            WebCommandAction::NudgeX(v) => TransformBits { translation: t.translation.with_component(Axis::X, *v), ..t },
            WebCommandAction::NudgeY(v) => TransformBits { translation: t.translation.with_component(Axis::Y, *v), ..t },
            WebCommandAction::NudgeZ(v) => TransformBits { translation: t.translation.with_component(Axis::Z, *v), ..t },
            WebCommandAction::SetScaleX(v) => TransformBits { scale: t.scale.with_component(Axis::X, *v), ..t },
            WebCommandAction::SetScaleY(v) => TransformBits { scale: t.scale.with_component(Axis::Y, *v), ..t },
            WebCommandAction::SetScaleZ(v) => TransformBits { scale: t.scale.with_component(Axis::Z, *v), ..t },
            _ => t,
        }
    }

    /// The Euler angle this command sets, if it is a rotation command.
    pub fn rotation_target(&self) -> (r: Option<(Axis, u32)>)
        ensures
            r == rotation_set_by(*self),
    {
        match self {
            WebCommandAction::SetRotationX(v) => Some((Axis::X, *v)),
            WebCommandAction::SetRotationY(v) => Some((Axis::Y, *v)),
            WebCommandAction::SetRotationZ(v) => Some((Axis::Z, *v)),
            _ => None,
        }
    }
}

} // verus!
