//! The two questions that the library asks of the disk.
use vstd::prelude::*;

verus! {

/// `std::path::Path::is_dir`: whether the path, at the moment of the call,
/// names a directory that can be read. Nothing is claimed of the answer: it
/// depends on the disk.
#[verifier::external_body]
pub(crate) fn path_is_dir(path: &String) -> (is_dir: bool) {
    std::path::Path::new(path).is_dir()
}

/// `std::path::Path::exists`: whether the path, at the moment of the call,
/// names anything that can be reached. Nothing is claimed of the answer: it
/// depends on the disk.
#[verifier::external_body]
pub(crate) fn path_exists(path: &String) -> (present: bool) {
    std::path::Path::new(path).exists()
}

} // verus!
