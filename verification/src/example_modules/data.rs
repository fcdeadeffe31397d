//! A module that stores a greeting on the PAM handle, reads it back, and
//! authenticates when the greeting survived the round trip.
use vstd::prelude::*;
use crate::constants::{PamResult, PamResultCode};
use crate::text::str_eq;

verus! {

/// The key under which the greeting is stored.
pub open spec fn spec_data_key() -> Seq<char> {
    seq!['g', 'r', 'e', 'e', 't', 'i', 'n', 'g']
}

/// The greeting that is stored.
pub open spec fn spec_data_greeting() -> Seq<char> {
    seq!['h', 'e', 'l', 'l', 'o']
}

/// The key under which the greeting is stored.
pub fn data_key() -> (res: &'static str)
    ensures
        res@ == spec_data_key(),
{
    let key = "greeting";
    proof {
        reveal_strlit("greeting");
    }
    key
}

/// The greeting that is stored.
pub fn data_greeting() -> (res: String)
    ensures
        res@ == spec_data_greeting(),
{
    let greeting = "hello";
    proof {
        reveal_strlit("hello");
    }
    String::from_str(greeting)
}

/// Decides from the result of storing the greeting: a stored greeting lets
/// the module go on (`None`); a failed store ends the hook with the store's
/// code and the line `set_data failed, error code: <code>`.
pub fn data_stored(stored: PamResult<()>) -> (res: Option<(PamResultCode, String)>)
    ensures
        stored is Ok ==> res is None,
        stored matches Err(e) ==> (res matches Some(r) && r.0 == e && r.1@
            == "set_data failed, error code: "@ + e.spec_name()),
{
    match stored {
        Ok(()) => None,
        Err(e) => {
            let mut line = String::from_str("set_data failed, error code: ");
            line.append(e.name());
            Some((e, line))
        },
    }
}

/// Decides from the greeting read back from the handle, and the line the
/// module prints. A failed read ends the hook with the read's code and the
/// line `get_data failed, error code: <code>`. When the greeting read back is
/// the one that was stored, the user is authenticated and `data: <greeting>`
/// is printed; otherwise the user is refused with
/// [`PamResultCode::PAM_AUTH_ERR`] and nothing is printed.
pub fn data_verdict(read_back: PamResult<&str>) -> (res: (PamResultCode, Option<String>))
    ensures
        read_back matches Err(e) ==> (res.0 == e && (res.1 matches Some(line) && line@
            == "get_data failed, error code: "@ + e.spec_name())),
        read_back matches Ok(text) ==> if text@ == spec_data_greeting() {
            res.0 == PamResultCode::PAM_SUCCESS && (res.1 matches Some(line) && line@ == "data: "@
                + text@)
        } else {
            res.0 == PamResultCode::PAM_AUTH_ERR && res.1 is None
        },
{
    match read_back {
        Err(e) => {
            let mut line = String::from_str("get_data failed, error code: ");
            line.append(e.name());
            (e, Some(line))
        },
        Ok(text) => {
            let greeting = "hello";
            proof {
                reveal_strlit("hello");
                assert(greeting@ =~= spec_data_greeting());
            }
            if str_eq(text, greeting) {
                let mut line = String::from_str("data: ");
                line.append(text);
                (PamResultCode::PAM_SUCCESS, Some(line))
            } else {
                (PamResultCode::PAM_AUTH_ERR, None)
            }
        },
    }
}

} // verus!
