//! The platform's own answers: the home directory and the base directories
//! for caches and for configuration, as the `dirs` crate finds them.
//!
//! What comes back depends on the host's environment and user database, so
//! none of the three functions promises anything about its result.

use vstd::prelude::*;

verus! {

/// Calls `dirs::home_dir`: the user's home directory, or `None` where the
/// platform knows none. A path that is not valid Unicode cannot be held as a
/// text and is reported as `None` too. Nothing is claimed of the result.
#[verifier::external_body]
pub(crate) fn home_dir() -> (found: Option<String>) {
    match dirs::home_dir() {
        Some(path) => path.into_os_string().into_string().ok(),
        None => None,
    }
}

/// Calls `dirs::cache_dir`: the base directory that the platform sets aside
/// for caches, or `None` where it names none. A path that is not valid
/// Unicode is reported as `None` too. Nothing is claimed of the result.
#[verifier::external_body]
pub(crate) fn cache_dir() -> (found: Option<String>) {
    match dirs::cache_dir() {
        Some(path) => path.into_os_string().into_string().ok(),
        None => None,
    }
}

/// Calls `dirs::config_dir`: the base directory that the platform sets aside
/// for configuration, or `None` where it names none. A path that is not valid
/// Unicode is reported as `None` too. Nothing is claimed of the result.
#[verifier::external_body]
pub(crate) fn config_dir() -> (found: Option<String>) {
    match dirs::config_dir() {
        Some(path) => path.into_os_string().into_string().ok(),
        None => None,
    }
}

} // verus!
