use vstd::prelude::*;

use std::collections::HashMap;

use crate::paths::{gltf_container_path, gltf_scene_path, in_memory_source, scene_label_path, scene_path_for_model};
use crate::scene::{entity_id, JsonComponentKind, SceneJsonDeserialize};
use crate::text::text_eq;

verus! {

broadcast use vstd::std_specs::hash::group_hash_axioms;

/// The primitive mesh a mesh component stands for.
#[derive(Clone, Copy, PartialEq, Eq, Structural, Debug)]
pub enum MeshShape {
    Sphere,
    Cuboid,
}

/// What spawning a scene file's component adds to its entity.
pub enum ComponentSpawn {
    /// A primitive mesh.
    Mesh(MeshShape),
    /// A material of the given linear RGB colour (`f32` bit patterns).
    Material([u32; 3]),
    /// A child entity showing the scene `scene_path`, marked with the model path `marker_path`.
    Model { scene_path: String, marker_path: String },
    /// A procedural sky atmosphere.
    Atmosphere,
    /// Nothing.
    Nothing,
}

/// What importing an entity from the web page does for one of its components.
pub enum ImportAction {
    /// A child entity showing `scene_path`, marked with `marker_path`; the glTF
    /// container at `container_path` is loaded to inspect its animations.
    AttachModel { scene_path: String, container_path: String, marker_path: String },
    /// The entity is configured to play the named animation.
    ConfigureAnimation { animation_name: String, looping: bool },
    /// Nothing.
    Nothing,
}

/// The mesh for a mesh type name: none for a camera, a sphere for "sphere", a
/// cuboid otherwise.
pub open spec fn mesh_for(mesh_type: Seq<char>) -> Option<MeshShape> {
    if mesh_type == "camera"@ {
        None
    } else if mesh_type == "sphere"@ {
        Some(MeshShape::Sphere)
    } else {
        Some(MeshShape::Cuboid)
    }
}

/// The mesh for a mesh component's type name.
pub fn mesh_shape(mesh_type: &str) -> (r: Option<MeshShape>)
    ensures
        r == mesh_for(mesh_type@),
{
    if text_eq(mesh_type, "camera") {
        None
    } else if text_eq(mesh_type, "sphere") {
        Some(MeshShape::Sphere)
    } else {
        Some(MeshShape::Cuboid)
    }
}

/// What spawning the component `c` of a scene-file entity adds to it.
pub fn component_spawn(c: &JsonComponentKind) -> (r: ComponentSpawn)
    ensures
        match *c {
            JsonComponentKind::Mesh { mesh_type } => match mesh_for(mesh_type@) {
                Some(shape) => r == ComponentSpawn::Mesh(shape),
                None => r is Nothing,
            },
            JsonComponentKind::Material { color_rgb } => r == ComponentSpawn::Material(color_rgb),
            JsonComponentKind::GltfModel { path } => r matches ComponentSpawn::Model { scene_path, marker_path }
                && scene_path@ == scene_label_path(path@) && marker_path@ == path@,
            JsonComponentKind::ProceduralSky => r is Atmosphere,
            _ => r is Nothing,
        },
{
    match c {
        JsonComponentKind::Mesh { mesh_type } => match mesh_shape(mesh_type.as_str()) {
            Some(shape) => ComponentSpawn::Mesh(shape),
            None => ComponentSpawn::Nothing,
        },
        JsonComponentKind::Material { color_rgb } => ComponentSpawn::Material(*color_rgb),
        JsonComponentKind::GltfModel { path } => ComponentSpawn::Model {
            scene_path: scene_path_for_model(path.as_str()),
            marker_path: path.clone(),
        },
        JsonComponentKind::ProceduralSky => ComponentSpawn::Atmosphere,
        _ => ComponentSpawn::Nothing,
    }
}

/// What importing the component `c` of an entity sent by the web page does.
pub fn import_action(c: &JsonComponentKind) -> (r: ImportAction)
    ensures
        match *c {
            JsonComponentKind::GltfModel { path } => r matches ImportAction::AttachModel {
                scene_path,
                container_path,
                marker_path,
            } && scene_path@ == scene_label_path(in_memory_source(path@))
                && container_path@ == in_memory_source(path@) && marker_path@ == path@,
            JsonComponentKind::ActiveAnimation { animation_name, looping } => r matches ImportAction::ConfigureAnimation {
                animation_name: name,
                looping: l,
            } && name@ == animation_name@ && l == looping,
            _ => r is Nothing,
        },
{
    match c {
        JsonComponentKind::GltfModel { path } => ImportAction::AttachModel {
            scene_path: gltf_scene_path(path.as_str()),
            container_path: gltf_container_path(path.as_str()),
            marker_path: path.clone(),
        },
        JsonComponentKind::ActiveAnimation { animation_name, looping } => ImportAction::ConfigureAnimation {
            animation_name: animation_name.clone(),
            looping: *looping,
        },
        _ => ImportAction::Nothing,
    }
}

/// The parent scene id of an entity item.
pub open spec fn entity_parent(item: SceneJsonDeserialize) -> Option<u32> {
    match item {
        SceneJsonDeserialize::Entity { parent_id, .. } => parent_id,
        _ => None,
    }
}

/// `j` is the last entity item with scene id `id`.
pub open spec fn is_last_entity(items: Seq<SceneJsonDeserialize>, id: u32, j: int) -> bool {
    &&& 0 <= j < items.len()
    &&& entity_id(items[j]) == Some(id)
    &&& forall|k: int| j < k < items.len() ==> entity_id(items[k]) != Some(id)
}

/// The last entity item with scene id `id`, if any: later items with the same
/// id take the place of earlier ones.
pub open spec fn last_entity(items: Seq<SceneJsonDeserialize>, id: u32) -> Option<int> {
    if exists|j: int| is_last_entity(items, id, j) {
        Some(choose|j: int| is_last_entity(items, id, j))
    } else {
        None
    }
}

/// The parent link of item `i`: the item itself and the entity item its parent id names.
pub open spec fn link_at(items: Seq<SceneJsonDeserialize>, i: int) -> Option<(usize, usize)> {
    match entity_parent(items[i]) {
        Some(p) => match last_entity(items, p) {
            Some(j) => Some((i as usize, j as usize)),
            None => None,
        },
        None => None,
    }
}

/// The parent links of the first `n` items, in item order.
pub open spec fn links_upto(items: Seq<SceneJsonDeserialize>, n: int) -> Seq<(usize, usize)>
    decreases n,
{
    if n <= 0 {
        Seq::empty()
    } else {
        links_upto(items, n - 1) + match link_at(items, n - 1) {
            Some(l) => seq![l],
            None => Seq::empty(),
        }
    }
}

proof fn lemma_last_entity_unique(items: Seq<SceneJsonDeserialize>, id: u32, j: int)
    requires
        is_last_entity(items, id, j),
    ensures
        last_entity(items, id) == Some(j),
{
    let k = choose|k: int| is_last_entity(items, id, k);
    assert(is_last_entity(items, id, k));
    if k < j {
        assert(entity_id(items[j]) != Some(id));
    } else if j < k {
        assert(entity_id(items[k]) != Some(id));
    }
}

fn item_id(item: &SceneJsonDeserialize) -> (r: Option<u32>)
    ensures
        r == entity_id(*item),
{
    match item {
        SceneJsonDeserialize::Entity { id, .. } => Some(*id),
        _ => None,
    }
}

fn item_parent(item: &SceneJsonDeserialize) -> (r: Option<u32>)
    ensures
        r == entity_parent(*item),
{
    match item {
        SceneJsonDeserialize::Entity { parent_id, .. } => *parent_id,
        _ => None,
    }
}

/// The parent links of a scene file, as pairs (child item, parent item): one for
/// each entity whose parent id names an entity of the file, the last one with that id.
pub fn parent_links(items: &Vec<SceneJsonDeserialize>) -> (r: Vec<(usize, usize)>)
    ensures
        r@ == links_upto(items@, items@.len() as int),
{
    let n = items.len();
    let mut index: HashMap<u32, usize> = HashMap::new();
    let mut i: usize = 0;
    while i < n
        invariant
            n == items@.len(),
            i <= n,
            forall|id: u32| #[trigger] index@.contains_key(id) ==> {
                &&& index@[id] < i
                &&& entity_id(items@[index@[id] as int]) == Some(id)
                &&& forall|k: int| index@[id] < k < i ==> entity_id(items@[k]) != Some(id)
            },
            forall|k: int| 0 <= k < i && (#[trigger] entity_id(items@[k])) is Some
                ==> index@.contains_key(entity_id(items@[k])->0),
        decreases n - i,
    {
        if let Some(id) = item_id(&items[i]) {
            index.insert(id, i);
        }
        i = i + 1;
    }
    let mut links: Vec<(usize, usize)> = Vec::new();
    let mut i: usize = 0;
    while i < n
        invariant
            n == items@.len(),
            i <= n,
            links@ == links_upto(items@, i as int),
            forall|id: u32| #[trigger] index@.contains_key(id) ==> {
                &&& index@[id] < n
                &&& entity_id(items@[index@[id] as int]) == Some(id)
                &&& forall|k: int| index@[id] < k < n ==> entity_id(items@[k]) != Some(id)
            },
            forall|k: int| 0 <= k < n && (#[trigger] entity_id(items@[k])) is Some
                ==> index@.contains_key(entity_id(items@[k])->0),
        decreases n - i,
    {
        if let Some(p) = item_parent(&items[i]) {
            match index.get(&p) {
                Some(j) => {
                    proof {
                        lemma_last_entity_unique(items@, p, *j as int);
                    }
                    links.push((i, *j));
                },
                None => {
                    proof {
                        if exists|j: int| is_last_entity(items@, p, j) {
                            let j = choose|j: int| is_last_entity(items@, p, j);
                            assert(entity_id(items@[j]) == Some(p));
                        }
                    }
                },
            }
        }
        i = i + 1;
    }
    links
}

/// Every parent link joins an entity to the entity its parent id names (the last
/// one with that id), children come in item order, and no entity gets two parents.
pub proof fn lemma_links_well_formed(items: Seq<SceneJsonDeserialize>, n: int)
    requires
        0 <= n <= items.len(),
        items.len() <= usize::MAX,
    ensures
        forall|l: int| 0 <= l < links_upto(items, n).len() ==> {
            let link = #[trigger] links_upto(items, n)[l];
            &&& link.0 < n
            &&& entity_parent(items[link.0 as int]) is Some
            &&& is_last_entity(items, entity_parent(items[link.0 as int])->0, link.1 as int)
        },
        forall|l: int, m: int| 0 <= l < m < links_upto(items, n).len()
            ==> (#[trigger] links_upto(items, n)[l]).0 < (#[trigger] links_upto(items, n)[m]).0,
    decreases n,
{
    if n > 0 {
        lemma_links_well_formed(items, n - 1);
        let prev = links_upto(items, n - 1);
        let cur = links_upto(items, n);
        match link_at(items, n - 1) {
            Some(link) => {
                let pid = entity_parent(items[n - 1])->0;
                assert(exists|w: int| is_last_entity(items, pid, w));
                let w = choose|w: int| is_last_entity(items, pid, w);
                assert(link == ((n - 1) as usize, w as usize));
                assert(cur =~= prev.push(link));
                assert forall|l: int| 0 <= l < cur.len() implies {
                    let lk = #[trigger] cur[l];
                    &&& lk.0 < n
                    &&& entity_parent(items[lk.0 as int]) is Some
                    &&& is_last_entity(items, entity_parent(items[lk.0 as int])->0, lk.1 as int)
                } by {
                    if l < prev.len() {
                        assert(cur[l] == prev[l]);
                    } else {
                        assert(cur[l] == link);
                    }
                }
                assert forall|l: int, m: int| 0 <= l < m < cur.len() implies (#[trigger] cur[l]).0 < (#[trigger] cur[m]).0 by {
                    assert(cur[l] == prev[l]);
                    if m < prev.len() {
                        assert(cur[m] == prev[m]);
                    } else {
                        assert(cur[m] == link);
                    }
                }
            },
            None => {
                assert(cur =~= prev);
            },
        }
    }
}

} // verus!
