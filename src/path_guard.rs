//! The single directory this library may touch, and the check that a path
//! is exactly that directory.

use vstd::prelude::*;

use crate::cache_cleaner::CleanError;
use crate::text::{contains_str, occurs_in, same_str};

verus! {

/// The name of the cache folder; every path that is touched must hold it.
pub open spec fn folder_name() -> Seq<char> {
    "com.apple.coresymbolicationd"@
}

/// Where the cache lies below a home directory.
pub open spec fn cache_path_under(home: Seq<char>) -> Seq<char> {
    home + "/Library/Caches/com.apple.coresymbolicationd"@
}

/// The name of the cache folder.
pub fn cache_folder_name() -> (r: &'static str)
    ensures
        r@ == folder_name(),
{
    "com.apple.coresymbolicationd"
}

/// The only path that may be cleaned: fixed below the user's home directory,
/// never taken from any other input.
pub fn get_safe_cache_path(home: &str) -> (r: String)
    ensures
        r@ == cache_path_under(home@),
{
    let mut r = String::from_str(home);
    r.append("/Library/Caches/com.apple.coresymbolicationd");
    r
}

/// A path as written, with its canonical form (links and `..` resolved; the
/// path itself where it cannot be resolved, as for a path that does not exist).
#[derive(Debug, Clone)]
pub struct ResolvedPath {
    pub path: String,
    pub canonical: String,
}

/// A path passes the guard when its canonical form is that of the allowed
/// target and its text holds the cache folder's name.
pub open spec fn path_is_safe(candidate: ResolvedPath, expected: ResolvedPath) -> bool {
    candidate.canonical@ == expected.canonical@ && occurs_in(folder_name(), candidate.path@)
}

/// Checks that `candidate` is exactly the allowed cache directory `expected`.
/// Any other path, however close, is a safety violation.
pub fn verify_safe_path(candidate: &ResolvedPath, expected: &ResolvedPath) -> (r: Result<
    (),
    CleanError,
>)
    ensures
        r is Ok <==> path_is_safe(*candidate, *expected),
        r matches Err(e) ==> e is SafetyViolation,
{
    if !same_str(candidate.canonical.as_str(), expected.canonical.as_str()) {
        let mut msg = String::from_str("Path '");
        msg.append(candidate.path.as_str());
        msg.append("' does not match expected cache location '");
        msg.append(expected.path.as_str());
        msg.append("'");
        return Err(CleanError::SafetyViolation(msg));
    }
    if !contains_str(candidate.path.as_str(), cache_folder_name()) {
        let mut msg = String::from_str("Path does not contain expected folder name '");
        msg.append(cache_folder_name());
        msg.append("'");
        return Err(CleanError::SafetyViolation(msg));
    }
    Ok(())
}

} // verus!
