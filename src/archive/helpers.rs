use crate::archive::info::ArchiveInfo;
use std::path::Path;
use vstd::prelude::*;

verus! {

/// What `Path::join` makes of a base directory and a relative child.
pub uninterp spec fn joined_path(base: Seq<char>, child: Seq<char>) -> Seq<char>;

/// Relies on `Path::join`: the child appended to the base as a path; both are
/// UTF-8, so the joined path converts to a string without loss.
#[verifier::external_body]
fn join_path(base: &str, child: &str) -> (r: String)
    ensures
        r@ == joined_path(base@, child@),
{
    Path::new(base).join(child).to_string_lossy().into_owned()
}

/// Relies on `Path::is_dir`: whether a directory exists at `path` right now.
/// The answer depends on the file system, so nothing is stated.
#[verifier::external_body]
fn is_directory(path: &str) -> (r: bool) {
    Path::new(path).is_dir()
}

/// The directory to treat as an extracted archive's root: its single
/// top-level directory where there is one and it exists on disk, else the
/// extraction root itself.
pub fn determine_root_dir(info: &ArchiveInfo, extraction_root: &str) -> (r: String)
    ensures
        r@ == extraction_root@ || (info.top_level_dirs@.len() == 1 && r@ == joined_path(
            extraction_root@,
            info.top_level_dirs@[0]@,
        )),
        info.top_level_dirs@.len() != 1 ==> r@ == extraction_root@,
{
    if let Some(dir) = info.single_top_level_dir() {
        let candidate = join_path(extraction_root, dir.as_str());
        if is_directory(candidate.as_str()) {
            return candidate;
        }
    }
    extraction_root.to_string()
}

} // verus!
