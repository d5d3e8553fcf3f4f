//! Derivation of an object artifact's path: the source's path relative to
//! the project root, re-rooted under the build directory, with the
//! extension replaced by the toolchain's object extension.

use vstd::prelude::*;

use crate::error::BuildError;
use crate::paths::{joined, replace_extension, join_str, set_extension_str};
use crate::source::Source;

verus! {

/// The relative path from `base` to `path`, as the path-difference routine
/// computes it; `None` when no relative path exists (a relative `path`
/// against an absolute `base`, or a base with unmatched parent components).
pub uninterp spec fn rel_path_of(path: Seq<char>, base: Seq<char>) -> Option<Seq<char>>;

/// Relies on pathdiff::diff_paths: constructs the relative path from `base`
/// to `path`. The result is computed from the two strings alone.
#[verifier::external_body]
fn diff_paths(path: &str, base: &str) -> (r: Option<String>)
    ensures
        match r {
            Some(s) => rel_path_of(path@, base@) == Some(s@),
            None => rel_path_of(path@, base@) is None,
        },
{
    pathdiff::diff_paths(path, base).map(|p| p.to_string_lossy().into_owned())
}

/// The deterministic object path of one source unit: the source's path
/// relative to `project_dir`, joined under `build_dir`, with its extension
/// replaced by `obj_ext`. Fails when the source cannot be expressed
/// relative to the project root.
pub fn get_object_target_path(src: &Source, project_dir: &str, build_dir: &str, obj_ext: &str) -> (r:
    Result<String, BuildError>)
    ensures
        match rel_path_of(src.path_spec(), project_dir@) {
            Some(rel) => match r {
                Ok(p) => p@ == replace_extension(joined(build_dir@, rel), obj_ext@),
                Err(_) => false,
            },
            None => match r {
                Ok(_) => false,
                Err(e) => match e {
                    BuildError::NoRelativePath { path } => path@ == src.path_spec(),
                    _ => false,
                },
            },
        },
{
    match diff_paths(src.get_path(), project_dir) {
        Some(rel) => {
            let joined_path = join_str(build_dir, rel.as_str());
            Ok(set_extension_str(joined_path.as_str(), obj_ext))
        },
        None => Err(
            BuildError::NoRelativePath { path: String::from_str(src.get_path()) },
        ),
    }
}

} // verus!
