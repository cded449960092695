use vstd::prelude::*;

verus! {

/// A path that may be absent, as characters.
pub open spec fn opt_chars(o: Option<String>) -> Option<Seq<char>> {
    match o {
        Some(s) => Some(s@),
        None => None,
    }
}

#[verifier::external_type_specification]
#[verifier::external_body]
pub struct ExWhichError(which::Error);

/// Relies on `which::which`: looks `name` up among the executables of the
/// directories listed in `PATH`. What it finds depends on the environment and
/// the disk, so nothing is stated of the outcome.
#[verifier::external_body]
fn which_path(name: &str) -> (r: Result<String, which::Error>) {
    match which::which(name) {
        Ok(path) => Ok(path.display().to_string()),
        Err(e) => Err(e),
    }
}

/// The path that a lookup reported, or the empty string, the sentinel for
/// "not found", when it failed for any reason.
pub fn path_or_empty(found: Result<String, which::Error>) -> (r: String)
    ensures
        r@ == match found {
            Ok(p) => p@,
            Err(_) => Seq::<char>::empty(),
        },
{
    match found {
        Ok(p) => p,
        Err(_) => String::new(),
    }
}

/// The path that a lookup reported, or `None` when it failed for any reason.
pub fn path_if_found(found: Result<String, which::Error>) -> (r: Option<String>)
    ensures
        match found {
            Ok(p) => r == Some(p),
            Err(_) => r is None,
        },
{
    match found {
        Ok(p) => Some(p),
        Err(_) => None,
    }
}

/// Finds the path of the driver executable `driver` on `PATH`; the empty
/// string when it cannot be found.
pub fn can_find_driver(driver: &str) -> (r: String) {
    path_or_empty(which_path(driver))
}

/// Finds the path of the executable `name` on `PATH`, if there is one.
pub fn find_executable(name: &str) -> (r: Option<String>) {
    path_if_found(which_path(name))
}

} // verus!
