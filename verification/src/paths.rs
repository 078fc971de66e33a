use vstd::prelude::*;

use crate::text::{has_prefix, leading_count, seq_has_prefix, trim_leading};

verus! {

/// Asset path of the first scene inside a glTF container at `path`.
pub open spec fn scene_label_path(path: Seq<char>) -> Seq<char> {
    path + "#Scene0"@
}

/// `path` placed in the in-memory `models://` asset source, unless it names that source already.
pub open spec fn in_memory_source(path: Seq<char>) -> Seq<char> {
    if seq_has_prefix(path, "models://"@) {
        path
    } else {
        "models://"@ + path
    }
}

/// Path of the first scene of a model that the scene file names by `path`.
pub fn scene_path_for_model(path: &str) -> (r: String)
    ensures
        r@ == scene_label_path(path@),
{
    let mut s = String::from_str(path);
    s.append("#Scene0");
    s
}

/// Path of the glTF container of an imported model, in the `models://` source.
pub fn gltf_container_path(path: &str) -> (r: String)
    ensures
        r@ == in_memory_source(path@),
{
    if has_prefix(path, "models://") {
        String::from_str(path)
    } else {
        let mut s = String::from_str("models://");
        s.append(path);
        s
    }
}

/// Path of the first scene of an imported model, in the `models://` source.
pub fn gltf_scene_path(path: &str) -> (r: String)
    ensures
        r@ == scene_label_path(in_memory_source(path@)),
{
    let mut s = gltf_container_path(path);
    s.append("#Scene0");
    s
}

/// The registration key of an uploaded file: its name without leading slashes.
pub fn clean_asset_name(file_name: &str) -> (r: String)
    ensures
        exists|k: int| leading_count(file_name@, '/', k) && r@ == file_name@.skip(k),
{
    String::from_str(trim_leading(file_name, '/'))
}

/// Path of the first scene of a file registered in memory under `clean_name`.
pub fn memory_scene_path(clean_name: &str) -> (r: String)
    ensures
        r@ == scene_label_path("models://"@ + clean_name@),
{
    let mut s = String::from_str("models://");
    s.append(clean_name);
    s.append("#Scene0");
    proof {
        assert(s@ =~= scene_label_path("models://"@ + clean_name@));
    }
    s
}

/// Putting a path into the in-memory source twice is the same as once, and the
/// result always lies in that source.
pub proof fn lemma_in_memory_source_idempotent(path: Seq<char>)
    ensures
        seq_has_prefix(in_memory_source(path), "models://"@),
        in_memory_source(in_memory_source(path)) == in_memory_source(path),
{
    if !seq_has_prefix(path, "models://"@) {
        let q = "models://"@ + path;
        assert(q.subrange(0, "models://"@.len() as int) =~= "models://"@);
    }
}

/// A cleaned asset name does not start with a slash, and cleaning it again changes nothing.
pub proof fn lemma_clean_name_has_no_leading_slash(name: Seq<char>, k: int)
    requires
        leading_count(name, '/', k),
    ensures
        name.skip(k).len() == 0 || name.skip(k)[0] != '/',
        leading_count(name.skip(k), '/', 0),
{
}

} // verus!
