//! A module that opens a session for any user and reports the user's name.
use vstd::prelude::*;
use crate::constants::{PamResult, PamResultCode};

verus! {

/// Decides the session from the lookup of the user name, and the line the
/// module prints. A found name opens the session and prints
/// `username: <name>`; a failed lookup prints
/// `failed to get username, error code: <code>` and fails the session with
/// the lookup's code, which is never a success.
pub fn username_verdict(user: PamResult<&str>) -> (res: (PamResultCode, String))
    requires
        user matches Err(e) ==> e != PamResultCode::PAM_SUCCESS,
    ensures
        user matches Ok(name) ==> res.0 == PamResultCode::PAM_SUCCESS && res.1@ == "username: "@
            + name@,
        user matches Err(e) ==> res.0 == e && res.1@ == "failed to get username, error code: "@
            + e.spec_name(),
{
    match user {
        Ok(name) => {
            let mut line = String::from_str("username: ");
            line.append(name);
            (PamResultCode::PAM_SUCCESS, line)
        },
        Err(e) => {
            let mut line = String::from_str("failed to get username, error code: ");
            line.append(e.name());
            (e, line)
        },
    }
}

} // verus!
