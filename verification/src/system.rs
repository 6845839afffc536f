//! Facts about the machine the process runs on.
use crate::errors::DirectoryNotFoundError;
use vstd::prelude::*;

verus! {

/// Text of the error reported when no home directory is known.
pub open spec fn home_not_found_message() -> Seq<char> {
    "Home directory not found"@
}

/// Code of the error reported when no home directory is known.
pub const HOME_NOT_FOUND_CODE: i32 = 1;

/// What `home_from_lookup` makes of a lookup's answer.
pub open spec fn home_of(
    found: Option<String>,
    home: Result<String, DirectoryNotFoundError>,
) -> bool {
    match found {
        Some(path) => home == Ok::<String, DirectoryNotFoundError>(path),
        None => home matches Err(e) && e.message@ == home_not_found_message() && e.code
            == HOME_NOT_FOUND_CODE,
    }
}

/// Calls `env_home::env_home_dir` and renders the path it returns, if any, as
/// text. Whether a path comes back, and which, depends on the environment of
/// the process; the one thing that holds of every answer is that a path that
/// comes back is not empty, because the lookup treats an empty setting as
/// none.
#[verifier::external_body]
fn lookup_home() -> (found: Option<String>)
    ensures
        found matches Some(path) ==> path@.len() > 0,
{
    match env_home::env_home_dir() {
        Some(path) => Some(path.display().to_string()),
        None => None,
    }
}

/// Turns the answer of a home-directory lookup into the home path, or into the
/// error that says none is known.
pub fn home_from_lookup(found: Option<String>) -> (home: Result<String, DirectoryNotFoundError>)
    ensures
        home_of(found, home),
{
    match found {
        Some(path) => Ok(path),
        None => Err(
            DirectoryNotFoundError {
                message: "Home directory not found".to_owned(),
                code: HOME_NOT_FOUND_CODE,
            },
        ),
    }
}

/// The current user's home directory. Whether one is found depends on the
/// environment; a home that is found is never empty, and when none is found
/// the error is always the same one.
pub fn get_user_home() -> (home: Result<String, DirectoryNotFoundError>)
    ensures
        match home {
            Ok(path) => path@.len() > 0,
            Err(e) => e.message@ == home_not_found_message() && e.code == HOME_NOT_FOUND_CODE,
        },
{
    home_from_lookup(lookup_home())
}

} // verus!
