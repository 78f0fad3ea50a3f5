//! The directories that the platform assigns to the user.
//!
//! They are looked up by the `dirs` crate, from the environment and the
//! platform's own records, so nothing is claimed of what is found. Paths are
//! handed out as text: the parts of a path that are not valid Unicode are
//! replaced on the way.

use vstd::prelude::*;

verus! {

/// Calls `dirs::data_local_dir`: the directory for the data of applications
/// that stays on this machine, where the platform has one.
#[verifier::external_body]
pub(crate) fn data_local_dir() -> (dir: Option<String>) {
    match dirs::data_local_dir() {
        Some(path) => Some(path.to_string_lossy().into_owned()),
        None => None,
    }
}

/// Calls `dirs::home_dir`: the user's home directory, where the platform
/// gives one.
#[verifier::external_body]
pub(crate) fn home_dir() -> (dir: Option<String>) {
    match dirs::home_dir() {
        Some(path) => Some(path.to_string_lossy().into_owned()),
        None => None,
    }
}

} // verus!
