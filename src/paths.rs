//! Where the stores live, below a given home directory.

use vstd::prelude::*;
use crate::error::AppError;

verus! {

/// `home` followed by the relative path `rest`.
pub open spec fn under(home: Seq<char>, rest: Seq<char>) -> Seq<char> {
    home + rest
}

fn join(home: Option<&str>, rest: &str) -> (r: Result<String, AppError>)
    ensures
        home is None ==> r == Err::<String, AppError>(AppError::HomeNotFound),
        home matches Some(h) ==> (r matches Ok(p) && p@ == under(h@, rest@)),
{
    match home {
        None => Err(AppError::HomeNotFound),
        Some(h) => Ok(String::from_str(h).concat(rest)),
    }
}

/// The identity-provider config store.
pub fn get_aws_config_path(home: Option<&str>) -> (r: Result<String, AppError>)
    ensures
        home is None ==> r == Err::<String, AppError>(AppError::HomeNotFound),
        home matches Some(h) ==> (r matches Ok(p) && p@ == under(h@, "/.aws/config"@)),
{
    join(home, "/.aws/config")
}

/// The identity-provider credentials store.
pub fn get_aws_credentials_path(home: Option<&str>) -> (r: Result<String, AppError>)
    ensures
        home is None ==> r == Err::<String, AppError>(AppError::HomeNotFound),
        home matches Some(h) ==> (r matches Ok(p) && p@ == under(h@, "/.aws/credentials"@)),
{
    join(home, "/.aws/credentials")
}

/// The per-profile session configuration store.
pub fn get_aws_sessions_path(home: Option<&str>) -> (r: Result<String, AppError>)
    ensures
        home is None ==> r == Err::<String, AppError>(AppError::HomeNotFound),
        home matches Some(h) ==> (r matches Ok(p) && p@ == under(h@, "/.aws/sessions"@)),
{
    join(home, "/.aws/sessions")
}

/// The application's own directory.
pub fn get_user_home_dir(home: &str) -> (r: String)
    ensures
        r@ == under(home@, "/.akaw"@),
{
    String::from_str(home).concat("/.akaw")
}

/// The application's client configuration file.
pub fn get_user_config_file(home: &str) -> (r: String)
    ensures
        r@ == under(home@, "/.akaw"@) + "/config.json"@,
{
    get_user_home_dir(home).concat("/config.json")
}

/// The application's log directory.
pub fn get_user_logs_dir(home: &str) -> (r: String)
    ensures
        r@ == under(home@, "/.akaw"@) + "/logs"@,
{
    get_user_home_dir(home).concat("/logs")
}

} // verus!
