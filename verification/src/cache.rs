//! Cache probe: a rendition directory is "ready" iff a well-known marker file
//! exists directly under it. Building the marker path is verified; the single
//! filesystem probe is a trusted call whose result feeds back into verified
//! decision logic (see `worker::plan_job`).

use vstd::prelude::*;

use crate::text::{path_join, path_join_spec};

verus! {

/// Relative path of the bootstrap file whose presence signals that a
/// rendition directory is complete and ready for the reader.
pub open spec fn marker_rel_path() -> Seq<char> {
    "META-INF/container.xml"@
}

/// Full path of the marker file for the rendition directory `dir`:
/// `dir` joined with `marker_rel_path()`.
pub open spec fn marker_path_spec(dir: Seq<char>) -> Seq<char> {
    path_join_spec(dir, marker_rel_path())
}

/// Path of the marker file whose presence makes `reader_path` ready.
pub fn marker_path(reader_path: &str) -> (r: String)
    ensures
        r@ == marker_path_spec(reader_path@),
{
    path_join(reader_path, "META-INF/container.xml")
}

/// Relies on `std::path::Path::is_file`: returns whether `path` currently
/// names a regular file. The result depends on the state of the filesystem
/// (and any I/O failure reads as `false`), so nothing is promised of it;
/// callers hand it to verified decision logic as a plain observation.
#[verifier::external_body]
fn path_is_file(path: &str) -> bool {
    std::path::Path::new(path).is_file()
}

/// True iff a complete rendition is already cached under `reader_path`:
/// probes the filesystem for exactly the marker file of `reader_path`.
/// The probe's outcome depends on the disk, so no result is promised here;
/// what the rest of the pipeline does with either outcome is verified
/// downstream (`worker::plan_job` takes it as an argument).
pub fn check_cache_availability(reader_path: &str) -> bool {
    let checker_path = marker_path(reader_path);
    path_is_file(checker_path.as_str())
}

} // verus!
