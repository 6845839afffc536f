//! The environment an invocation runs in.
use crate::errors::DirectoryNotFoundError;
use crate::system::get_user_home;
use vstd::prelude::*;

verus! {

/// Where the current invocation finds the user's files.
pub struct Environment {
    pub user_home: String,
}

/// Home directory used when none can be determined: the current directory.
pub open spec fn fallback_home() -> Seq<char> {
    "."@
}

/// The environment for a given outcome of the home-directory lookup: the home
/// that was found, or the current directory.
pub fn environment_for(home: Result<String, DirectoryNotFoundError>) -> (env: Environment)
    ensures
        match home {
            Ok(path) => env.user_home == path,
            Err(_) => env.user_home@ == fallback_home(),
        },
{
    match home {
        Ok(path) => Environment { user_home: path },
        Err(_) => Environment { user_home: ".".to_owned() },
    }
}

/// Looks up the user's home directory and builds the environment from it.
/// Which home is found depends on the process environment; whatever the
/// outcome, the environment names a home, and `environment_for` says which
/// one for each outcome.
pub fn initialize_environment() -> (env: Environment)
    ensures
        env.user_home@.len() > 0,
{
    proof {
        reveal_strlit(".");
    }
    environment_for(get_user_home())
}

} // verus!
