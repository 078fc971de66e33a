use vstd::prelude::*;

use crate::commands::WebCommandAction;
use crate::transform::Vec3Bits;

verus! {

/// A named group of bones of an animation rig.
pub struct BoneGroupJson {
    pub group_name: String,
    pub bone_names: Vec<String>,
}

/// A component attached to a scene entity in the scene file. Numbers are `f32`
/// bit patterns.
pub enum JsonComponentKind {
    Mesh { mesh_type: String },
    Material { color_rgb: [u32; 3] },
    GltfModel { path: String },
    ActiveAnimation { animation_name: String, looping: bool },
    ExternalComponent { file_name: String },
    ProceduralSky,
    ImageSkybox { path: String, brightness: u32 },
    AnimationRig { bone_groups: Vec<BoneGroupJson> },
}

/// An item of the scene file. Numbers are `f32` bit patterns; rotations are
/// Euler angles in degrees.
pub enum SceneJsonDeserialize {
    Entity {
        name: String,
        position_x: u32,
        position_y: u32,
        position_z: u32,
        rotation_x: u32,
        rotation_y: u32,
        rotation_z: u32,
        scale_x: u32,
        scale_y: u32,
        scale_z: u32,
        color_rgb: [u32; 3],
        components: Vec<JsonComponentKind>,
        parent_id: Option<u32>,
        id: u32,
    },
    DirectionalLight { morningcolor: [u32; 3], nightcolor: [u32; 3] },
    DayNightCycle { active: bool, time: u32, speed: u32 },
}

/// Position, Euler rotation in degrees and scale of an entity, as `f32` bit patterns.
#[derive(Clone, Copy, PartialEq, Eq, Structural, Debug)]
pub struct EntityPose {
    pub position: Vec3Bits,
    pub rotation_degrees: Vec3Bits,
    pub scale: Vec3Bits,
}

/// The scene as the editor holds it, kept in step with the live entities.
pub struct LoadedSceneData {
    pub items: Vec<SceneJsonDeserialize>,
}

/// Whether the scene file has been turned into entities.
pub struct SceneSpawnStatus {
    pub spawned: bool,
}

/// The scene id of an item, if it is an entity.
pub open spec fn entity_id(item: SceneJsonDeserialize) -> Option<u32> {
    match item {
        SceneJsonDeserialize::Entity { id, .. } => Some(id),
        _ => None,
    }
}

/// `i` is the first entity item with scene id `id`.
pub open spec fn is_first_entity(items: Seq<SceneJsonDeserialize>, id: u32, i: int) -> bool {
    &&& 0 <= i < items.len()
    &&& entity_id(items[i]) == Some(id)
    &&& forall|j: int| 0 <= j < i ==> entity_id(items[j]) != Some(id)
}

/// The first entity item with scene id `id`, if there is one.
pub open spec fn first_entity(items: Seq<SceneJsonDeserialize>, id: u32) -> Option<int> {
    if exists|i: int| is_first_entity(items, id, i) {
        Some(choose|i: int| is_first_entity(items, id, i))
    } else {
        None
    }
}

/// `item` with the pose `p` written into it, if it is an entity.
pub open spec fn with_pose(item: SceneJsonDeserialize, p: EntityPose) -> SceneJsonDeserialize {
    match item {
        SceneJsonDeserialize::Entity { name, color_rgb, components, parent_id, id, .. } => SceneJsonDeserialize::Entity {
            name,
            position_x: p.position.x,
            position_y: p.position.y,
            position_z: p.position.z,
            rotation_x: p.rotation_degrees.x,
            rotation_y: p.rotation_degrees.y,
            rotation_z: p.rotation_degrees.z,
            scale_x: p.scale.x,
            scale_y: p.scale.y,
            scale_z: p.scale.z,
            color_rgb,
            components,
            parent_id,
            id,
        },
        other => other,
    }
}

/// The pose stored in an entity item.
pub open spec fn pose_of(item: SceneJsonDeserialize) -> Option<EntityPose> {
    match item {
        SceneJsonDeserialize::Entity {
            position_x, position_y, position_z,
            rotation_x, rotation_y, rotation_z,
            scale_x, scale_y, scale_z, ..
        } => Some(EntityPose {
            position: Vec3Bits { x: position_x, y: position_y, z: position_z },
            rotation_degrees: Vec3Bits { x: rotation_x, y: rotation_y, z: rotation_z },
            scale: Vec3Bits { x: scale_x, y: scale_y, z: scale_z },
        }),
        _ => None,
    }
}

/// `new` is `old` with only the nine pose fields of an entity changed, to `p`: the
/// name, colour, components, parent id and id stay; other items stay as they are.
pub open spec fn writes_only_pose(old: SceneJsonDeserialize, new: SceneJsonDeserialize, p: EntityPose) -> bool {
    match old {
        SceneJsonDeserialize::Entity { name, color_rgb, components, parent_id, id, .. } => match new {
            SceneJsonDeserialize::Entity {
                name: n_name,
                color_rgb: n_color,
                components: n_components,
                parent_id: n_parent,
                id: n_id,
                ..
            } => {
                &&& pose_of(new) == Some(p)
                &&& n_name == name
                &&& n_color == color_rgb
                &&& n_components == components
                &&& n_parent == parent_id
                &&& n_id == id
            },
            _ => false,
        },
        _ => new == old,
    }
}

/// Writing a pose into an item changes nothing but its nine pose fields.
pub proof fn lemma_pose_write_keeps_other_fields(item: SceneJsonDeserialize, p: EntityPose)
    ensures
        writes_only_pose(item, with_pose(item, p), p),
{
}

/// A component with its model path replaced by `path`, if it is a glTF model.
pub open spec fn with_model_path(c: JsonComponentKind, path: String) -> JsonComponentKind {
    match c {
        JsonComponentKind::GltfModel { .. } => JsonComponentKind::GltfModel { path },
        other => other,
    }
}

/// The components `cs` with every glTF model path replaced by `path`.
pub open spec fn components_with_model_path(cs: Seq<JsonComponentKind>, path: String) -> Seq<JsonComponentKind> {
    cs.map_values(|c: JsonComponentKind| with_model_path(c, path))
}

/// `new` is `old` after the scene record of a command: the pose `p` is written
/// and, for a colour command, the colour; for a model command, every model path.
/// Items that are not entities are left as they are.
pub open spec fn records_command(
    old: SceneJsonDeserialize,
    new: SceneJsonDeserialize,
    p: EntityPose,
    action: WebCommandAction,
) -> bool {
    match old {
        SceneJsonDeserialize::Entity { name, color_rgb, components, parent_id, id, .. } => match new {
            SceneJsonDeserialize::Entity {
                name: n_name,
                color_rgb: n_color,
                components: n_components,
                parent_id: n_parent,
                id: n_id,
                ..
            } => {
                &&& pose_of(new) == Some(p)
                &&& n_name == name
                &&& n_parent == parent_id
                &&& n_id == id
                &&& n_color == (match action {
                    WebCommandAction::SetMaterialColor(rgb) => rgb,
                    _ => color_rgb,
                })
                &&& n_components@ == (match action {
                    WebCommandAction::SetModelPath(path) => components_with_model_path(components@, path),
                    _ => components@,
                })
            },
            _ => false,
        },
        _ => new == old,
    }
}

proof fn lemma_first_entity_unique(items: Seq<SceneJsonDeserialize>, id: u32, i: int)
    requires
        is_first_entity(items, id, i),
    ensures
        first_entity(items, id) == Some(i),
{
    let k = choose|k: int| is_first_entity(items, id, k);
    assert(is_first_entity(items, id, k));
    if k < i {
        assert(entity_id(items[k]) != Some(id));
    } else if i < k {
        assert(entity_id(items[i]) != Some(id));
    }
}

fn item_id(item: &SceneJsonDeserialize) -> (r: Option<u32>)
    ensures
        r == entity_id(*item),
{
    match item {
        SceneJsonDeserialize::Entity { id, .. } => Some(*id),
        _ => None,
    }
}

fn set_pose(item: SceneJsonDeserialize, p: EntityPose) -> (r: SceneJsonDeserialize)
    ensures
        r == with_pose(item, p),
        writes_only_pose(item, r, p),
{
    match item {
        SceneJsonDeserialize::Entity { name, color_rgb, components, parent_id, id, .. } => SceneJsonDeserialize::Entity {
            name,
            position_x: p.position.x,
            position_y: p.position.y,
            position_z: p.position.z,
            rotation_x: p.rotation_degrees.x,
            rotation_y: p.rotation_degrees.y,
            rotation_z: p.rotation_degrees.z,
            scale_x: p.scale.x,
            scale_y: p.scale.y,
            scale_z: p.scale.z,
            color_rgb,
            components,
            parent_id,
            id,
        },
        other => other,
    }
}

/// Replaces the path of every glTF model component in `components` by `path`.
pub fn set_model_paths(components: &mut Vec<JsonComponentKind>, path: &String)
    ensures
        final(components)@ == components_with_model_path(old(components)@, *path),
{
    let ghost orig = components@;
    let mut k: usize = 0;
    while k < components.len()
        invariant
            components@.len() == orig.len(),
            k <= components@.len(),
            forall|j: int| 0 <= j < k ==> components@[j] == with_model_path(orig[j], *path),
            forall|j: int| k <= j < components@.len() ==> components@[j] == orig[j],
        decreases components@.len() - k,
    {
        let is_model = match &components[k] {
            JsonComponentKind::GltfModel { .. } => true,
            _ => false,
        };
        if is_model {
            components[k] = JsonComponentKind::GltfModel { path: path.clone() };
        }
        k = k + 1;
    }
    assert(components@ =~= components_with_model_path(orig, *path));
}

/// An item to hold a slot of the scene while its entry is being rebuilt.
fn placeholder_item() -> (r: SceneJsonDeserialize)
    ensures
        r == (SceneJsonDeserialize::DayNightCycle { active: false, time: 0, speed: 0 }),
{
    SceneJsonDeserialize::DayNightCycle { active: false, time: 0, speed: 0 }
}

impl LoadedSceneData {
    /// An empty scene.
    pub fn new() -> (r: Self)
        ensures
            r.items@.len() == 0,
    {
        LoadedSceneData { items: Vec::new() }
    }

    /// The position of the first entity item with scene id `json_id`.
    pub fn find_entity(&self, json_id: u32) -> (r: Option<usize>)
        ensures
            r matches Some(i) ==> first_entity(self.items@, json_id) == Some(i as int),
            r is None ==> first_entity(self.items@, json_id) is None,
    {
        let mut i: usize = 0;
        while i < self.items.len()
            invariant
                i <= self.items@.len(),
                forall|j: int| 0 <= j < i ==> entity_id(self.items@[j]) != Some(json_id),
            decreases self.items@.len() - i,
        {
            if item_id(&self.items[i]) == Some(json_id) {
                proof {
                    lemma_first_entity_unique(self.items@, json_id, i as int);
                }
                return Some(i);
            }
            i = i + 1;
        }
        proof {
            if exists|k: int| is_first_entity(self.items@, json_id, k) {
                let k = choose|k: int| is_first_entity(self.items@, json_id, k);
                assert(entity_id(self.items@[k]) == Some(json_id));
            }
        }
        None
    }

    /// Writes the pose of the entity with scene id `json_id` (its first entity item)
    /// into the scene. Returns whether there was such an item.
    pub fn record_pose(&mut self, json_id: u32, pose: EntityPose) -> (r: bool)
        ensures
            final(self).items@.len() == old(self).items@.len(),
            forall|j: int| 0 <= j < old(self).items@.len() && Some(j) != first_entity(old(self).items@, json_id)
                ==> final(self).items@[j] == old(self).items@[j],
            first_entity(old(self).items@, json_id) matches Some(i) ==> writes_only_pose(
                old(self).items@[i],
                final(self).items@[i],
                pose,
            ),
            final(self).items@ == items_with_pose(old(self).items@, json_id, pose),
            match first_entity(old(self).items@, json_id) {
                Some(i) => r && final(self).items@ == old(self).items@.update(
                    i,
                    with_pose(old(self).items@[i], pose),
                ),
                None => !r && final(self).items@ == old(self).items@,
            },
    {
        match self.find_entity(json_id) {
            None => false,
            Some(i) => {
                let mut item = placeholder_item();
                std::mem::swap(&mut item, &mut self.items[i]);
                self.items[i] = set_pose(item, pose);
                true
            },
        }
    }

    /// Records the effect of a web command on the entity with scene id `json_id`
    /// (its first entity item): the entity's pose after the command is written,
    /// and a colour or model path that the command sets. Returns whether there was
    /// such an item.
    pub fn record_command(&mut self, json_id: u32, pose: EntityPose, action: &WebCommandAction) -> (r: bool)
        ensures
            final(self).items@.len() == old(self).items@.len(),
            match first_entity(old(self).items@, json_id) {
                Some(i) => {
                    &&& r
                    &&& records_command(old(self).items@[i], final(self).items@[i], pose, *action)
                    &&& forall|j: int| 0 <= j < old(self).items@.len() && j != i
                        ==> final(self).items@[j] == old(self).items@[j]
                },
                None => !r && final(self).items@ == old(self).items@,
            },
    {
        match self.find_entity(json_id) {
            None => false,
            Some(i) => {
                let mut item = placeholder_item();
                std::mem::swap(&mut item, &mut self.items[i]);
                let ghost old_item = item;
                let updated = match item {
                    SceneJsonDeserialize::Entity { name, color_rgb, components, parent_id, id, .. } => {
                        let mut components = components;
                        let color = match action {
                            WebCommandAction::SetMaterialColor(rgb) => *rgb,
                            _ => color_rgb,
                        };
                        match action {
                            WebCommandAction::SetModelPath(path) => set_model_paths(&mut components, path),
                            _ => {},
                        }
                        SceneJsonDeserialize::Entity {
                            name,
                            position_x: pose.position.x,
                            position_y: pose.position.y,
                            position_z: pose.position.z,
                            rotation_x: pose.rotation_degrees.x,
                            rotation_y: pose.rotation_degrees.y,
                            rotation_z: pose.rotation_degrees.z,
                            scale_x: pose.scale.x,
                            scale_y: pose.scale.y,
                            scale_z: pose.scale.z,
                            color_rgb: color,
                            components,
                            parent_id,
                            id,
                        }
                    },
                    other => other,
                };
                self.items[i] = updated;
                true
            },
        }
    }

    /// Appends an item to the scene.
    pub fn push_item(&mut self, item: SceneJsonDeserialize)
        ensures
            final(self).items@ == old(self).items@.push(item),
    {
        self.items.push(item);
    }
}

/// Writing a pose into an item keeps its scene id.
proof fn lemma_with_pose_keeps_id(item: SceneJsonDeserialize, p: EntityPose)
    ensures
        entity_id(with_pose(item, p)) == entity_id(item),
{
}

/// The scene after writing pose `p` for entity `id`.
pub open spec fn items_with_pose(items: Seq<SceneJsonDeserialize>, id: u32, p: EntityPose) -> Seq<SceneJsonDeserialize> {
    match first_entity(items, id) {
        Some(i) => items.update(i, with_pose(items[i], p)),
        None => items,
    }
}

/// After the pose of entity `id` is recorded, the scene holds that pose for it, and
/// every entity is still found where it was.
pub proof fn lemma_recorded_pose_reads_back(items: Seq<SceneJsonDeserialize>, id: u32, p: EntityPose, other: u32)
    requires
        first_entity(items, id) is Some,
    ensures
        first_entity(items_with_pose(items, id, p), id) == first_entity(items, id),
        pose_of(items_with_pose(items, id, p)[first_entity(items, id)->0]) == Some(p),
        first_entity(items_with_pose(items, id, p), other) == first_entity(items, other),
{
    let i = first_entity(items, id)->0;
    let after = items_with_pose(items, id, p);
    assert(is_first_entity(items, id, i));
    lemma_with_pose_keeps_id(items[i], p);
    assert forall|j: int| 0 <= j < items.len() implies entity_id(#[trigger] after[j]) == entity_id(items[j]) by {
        if j == i {
            lemma_with_pose_keeps_id(items[i], p);
        }
    }
    assert(is_first_entity(after, id, i));
    lemma_first_entity_unique(after, id, i);
    if exists|k: int| is_first_entity(items, other, k) {
        let k = choose|k: int| is_first_entity(items, other, k);
        assert(is_first_entity(after, other, k));
        lemma_first_entity_unique(after, other, k);
        lemma_first_entity_unique(items, other, k);
    } else {
        if exists|k: int| is_first_entity(after, other, k) {
            let k = choose|k: int| is_first_entity(after, other, k);
            assert(entity_id(after[k]) == entity_id(items[k]));
            assert forall|j: int| 0 <= j < k implies entity_id(items[j]) != Some(other) by {
                assert(entity_id(after[j]) == entity_id(items[j]));
            }
            assert(is_first_entity(items, other, k));
        }
    }
}

/// Recording the same pose twice is the same as recording it once.
pub proof fn lemma_record_pose_idempotent(items: Seq<SceneJsonDeserialize>, id: u32, p: EntityPose)
    ensures
        items_with_pose(items_with_pose(items, id, p), id, p) == items_with_pose(items, id, p),
{
    match first_entity(items, id) {
        Some(i) => {
            lemma_recorded_pose_reads_back(items, id, p, id);
            let once = items_with_pose(items, id, p);
            assert(with_pose(once[i], p) == once[i]);
            assert(once.update(i, with_pose(once[i], p)) =~= once);
        },
        None => {},
    }
}

} // verus!
