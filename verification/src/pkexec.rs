//! Locating the Polkit helper and deciding whether elevation is needed
//! for the current user.  The PATH lookup and the user-name probe are
//! host facts behind trusted wrappers; everything downstream of them is
//! verified.

use vstd::prelude::*;
use vstd::string::StringExecFns;

use crate::strings::str_eq;

verus! {

/// Errors that can occur while locating the pkexec helper.
#[derive(Debug, Clone, PartialEq)]
pub enum PkexecError {
    /// The helper could not be resolved on the PATH; carries the
    /// resolver's description of the failure.
    Resolution(String),
}

/// Relies on `which::which`: resolves an executable's name against the
/// PATH, returning the full path of the match or the lookup failure's
/// description.
#[verifier::external_body]
pub(crate) fn which_lookup(name: &str) -> Result<String, String> {
    match which::which(name) {
        Ok(path) => Ok(path.to_string_lossy().into_owned()),
        Err(e) => Err(e.to_string()),
    }
}

/// Gets the path to the pkexec binary, as the PATH resolver reports it.
pub fn get_path() -> (r: Result<String, PkexecError>)
    ensures
        r matches Err(e) ==> e is Resolution,
{
    match which_lookup("pkexec") {
        Ok(p) => Ok(p),
        Err(m) => Err(PkexecError::Resolution(m)),
    }
}

/// The resolved path when the lookup succeeded, else the conventional
/// location of pkexec.
pub fn resolved_or_fallback(lookup: Result<String, PkexecError>) -> (r: String)
    ensures
        lookup matches Ok(p) ==> r@ == p@,
        lookup is Err ==> r@ == "/usr/bin/pkexec"@,
{
    match lookup {
        Ok(p) => p,
        Err(_) => "/usr/bin/pkexec".to_owned(),
    }
}

/// Gets the path to pkexec, falling back to the conventional location
/// when it cannot be resolved on the PATH; never fails.
pub fn get_path_or_default() -> (r: String) {
    let lookup = get_path();
    resolved_or_fallback(lookup)
}

/// Relies on `whoami::username`: reports the name of the user the
/// process runs as, or the lookup failure's description.
#[verifier::external_body]
fn current_username() -> Result<String, String> {
    match whoami::username() {
        Ok(u) => Ok(u),
        Err(e) => Err(e.to_string()),
    }
}

/// Whether a user of the given name needs privilege elevation: everyone
/// but root does.
pub fn needs_elevation_for_user(user: &str) -> (r: bool)
    ensures
        r == (user@ != "root"@),
{
    !str_eq(user, "root")
}

/// Determines whether privilege elevation is needed: false when the
/// process already runs as root, true otherwise.  A failed user lookup
/// is answered conservatively with true.
pub fn should_elevate_perms() -> (r: bool) {
    match current_username() {
        Ok(u) => needs_elevation_for_user(u.as_str()),
        Err(_) => true,
    }
}

/// Relies on `std::path::Path::is_file`: whether the path names an
/// existing regular file on disk.
#[verifier::external_body]
pub fn pkexec_found(pkexec_path: &String) -> bool {
    std::path::Path::new(pkexec_path.as_str()).is_file()
}

} // verus!
