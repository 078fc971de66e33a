//! Verified editing logic of the Waddlie scene editor: the scene document and its
//! edits, the gizmo selection/edit state machine, bone rigging selection, web
//! commands, asset paths, scene loading plans and hierarchy look-ups.

pub mod animations;
pub mod commands;
pub mod gizmo;
pub mod hierarchy;
pub mod loader;
pub mod paths;
pub mod rigging;
pub mod scene;
pub mod text;
pub mod transform;
