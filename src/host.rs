//! Queries of the host that the library makes in the middle of its logic: the
//! file system and the user's home directory.  Their answers depend on the
//! machine at the moment of the call, so they promise nothing about them.
use vstd::prelude::*;

verus! {

/// Relies on `std::path::Path::exists`: whether something is at `p` right now.
#[verifier::external_body]
pub(crate) fn path_exists(p: &str) -> (r: bool) {
    std::path::Path::new(p).exists()
}

/// Relies on `std::path::Path::is_file`: whether a regular file is at `p` right now.
#[verifier::external_body]
pub(crate) fn path_is_file(p: &str) -> (r: bool) {
    std::path::Path::new(p).is_file()
}

/// Relies on `std::path::Path::read_dir`: whether the directory at `p` can be
/// opened for listing right now.
#[verifier::external_body]
pub(crate) fn dir_is_listable(p: &str) -> (r: bool) {
    std::path::Path::new(p).read_dir().is_ok()
}

/// Relies on `glob::glob`: the paths that match `pattern` on the file system,
/// each `None` where reading the entry failed or its name is not UTF-8; `None`
/// as a whole when the pattern does not compile.
#[verifier::external_body]
pub(crate) fn glob_paths(pattern: &str) -> (r: Option<Vec<Option<String>>>) {
    match glob::glob(pattern) {
        Ok(paths) => Some(
            paths.map(|entry| entry.ok().and_then(|p| p.into_os_string().into_string().ok())).collect(),
        ),
        Err(_) => None,
    }
}

/// Relies on `dirs::home_dir`: the current user's home directory, when it can
/// be determined and is UTF-8.
#[verifier::external_body]
pub(crate) fn home_dir() -> (r: Option<String>) {
    dirs::home_dir().and_then(|p| p.into_os_string().into_string().ok())
}

} // verus!
