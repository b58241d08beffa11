//! Commands exposed to the front end: querying for updates, installing one,
//! and reading the application's version.
//!
//! None of them touches storage, the network or any other outside state:
//! each takes its inputs by value and returns a fresh result.

use vstd::prelude::*;

verus! {

/// Version of the application, as declared in its build manifest.
pub const APP_VERSION: &'static str = "0.1.0";

/// Error reported by `install_update` while installation is unsupported.
pub const INSTALL_UNSUPPORTED: &'static str = "Update installation not yet implemented";

/// Outcome of a query for updates.
#[derive(Clone, Debug, PartialEq, Eq)]
pub struct UpdateStatus {
    /// Whether a newer release than the running one is published.
    pub available: bool,
    /// Version of that release, if any.
    pub version: Option<String>,
    /// Release notes of that release, if any.
    pub body: Option<String>,
}

impl UpdateStatus {
    /// The status that reports no update: not available, no version, no notes.
    pub open spec fn is_none_available(self) -> bool {
        &&& !self.available
        &&& self.version is None
        &&& self.body is None
    }
}

/// Reports whether an update is available.
///
/// No update channel is consulted yet, so the answer is always that none is
/// available, with neither a version nor release notes.
pub fn check_for_updates() -> (r: Result<UpdateStatus, String>)
    ensures
        r is Ok,
        r->Ok_0.is_none_available(),
{
    Ok(UpdateStatus { available: false, version: None, body: None })
}

/// Installs the update to `version`.
///
/// Installation is not supported yet: every call fails with the message
/// `INSTALL_UNSUPPORTED`, whatever version it names.
pub fn install_update(_version: String) -> (r: Result<(), String>)
    ensures
        r is Err,
        r->Err_0@ == INSTALL_UNSUPPORTED@,
{
    Err(INSTALL_UNSUPPORTED.to_string())
}

/// Returns the application's version as declared in its build manifest.
pub fn get_app_version() -> (r: Result<String, String>)
    ensures
        r is Ok,
        r->Ok_0@ == APP_VERSION@,
        r->Ok_0@.len() > 0,
{
    proof {
        reveal_strlit("0.1.0");
    }
    Ok(APP_VERSION.to_string())
}

} // verus!
