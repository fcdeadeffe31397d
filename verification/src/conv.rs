//! The decisions of a conversation with the PAM client: how a message is
//! framed for the C API, and what a conversation call's status means.
use vstd::prelude::*;
use vstd::string::*;
use crate::constants::{PamResult, PamResultCode};

verus! {

/// The outcome of a conversation call that returned the status number `ret`
/// and a response array that is null exactly when `response_is_null`.
pub open spec fn conversation_outcome(ret: i32, response_is_null: bool) -> PamResult<()> {
    if ret == PamResultCode::PAM_SUCCESS.spec_code() {
        if response_is_null {
            Err(PamResultCode::PAM_CONV_ERR)
        } else {
            Ok(())
        }
    } else {
        match PamResultCode::spec_from_code(ret) {
            Some(code) => Err(code),
            None => Err(PamResultCode::PAM_CONV_ERR),
        }
    }
}

/// A conversation call succeeds exactly when it reported success (status 0)
/// and handed back a response array. A success without a response array is
/// a conversation error; a failure status that names a PAM code is reported
/// as the code with that number; any other status is a conversation error.
pub proof fn law_conversation_outcome(ret: i32, response_is_null: bool)
    ensures
        conversation_outcome(ret, response_is_null) is Ok <==> (ret == 0 && !response_is_null),
        ret == 0 && response_is_null ==> conversation_outcome(ret, response_is_null) == Err::<
            (),
            PamResultCode,
        >(PamResultCode::PAM_CONV_ERR),
        ret != 0 && 0 <= ret < 32 ==> (conversation_outcome(ret, response_is_null) matches Err(c)
            && c.spec_code() == ret),
        !(0 <= ret < 32) ==> conversation_outcome(ret, response_is_null) == Err::<(), PamResultCode>(
            PamResultCode::PAM_CONV_ERR,
        ),
{
    if ret != 0 && 0 <= ret < 32 {
        let c = PamResultCode::spec_from_code(ret)->0;
        crate::constants::law_code_round_trip(c, ret);
    }
}

/// Frames `msg` as a NUL-terminated C string.
///
/// Fails with [`PamResultCode::PAM_BUF_ERR`] exactly when the message bytes
/// contain an internal 0 byte; otherwise returns the message bytes followed
/// by a single 0 byte.
pub fn encode_message(msg: &str) -> (res: PamResult<Vec<u8>>)
    ensures
        res is Err <==> msg.spec_bytes().contains(0u8),
        res matches Ok(v) ==> v@ == msg.spec_bytes().push(0u8),
        res matches Err(e) ==> e == PamResultCode::PAM_BUF_ERR,
{
    let bytes = msg.as_bytes();
    let n = bytes.len();
    let mut out: Vec<u8> = Vec::new();
    for i in 0..n
        invariant
            n == bytes@.len(),
            bytes@ == msg.spec_bytes(),
            out@ == bytes@.take(i as int),
            !bytes@.take(i as int).contains(0u8),
    {
        let b = bytes[i];
        if b == 0 {
            assert(bytes@[i as int] == 0u8);
            return Err(PamResultCode::PAM_BUF_ERR);
        }
        out.push(b);
        assert(bytes@.take(i + 1) == bytes@.take(i as int).push(b));
    }
    assert(bytes@.take(n as int) == bytes@);
    out.push(0u8);
    Ok(out)
}

/// Interprets the status of a conversation call.
///
/// A call that reports success must hand back a response array, else the
/// conversation failed ([`PamResultCode::PAM_CONV_ERR`]). A call that
/// reports failure fails with the code that it reported; a status number
/// that names no PAM code is reported as [`PamResultCode::PAM_CONV_ERR`].
pub fn conversation_status(ret: i32, response_is_null: bool) -> (res: PamResult<()>)
    ensures
        res == conversation_outcome(ret, response_is_null),
        res is Ok <==> (ret == 0 && !response_is_null),
        ret == 0 && response_is_null ==> res == Err::<(), PamResultCode>(PamResultCode::PAM_CONV_ERR),
        ret != 0 && 0 <= ret < 32 ==> (res matches Err(c) && c.spec_code() == ret),
        !(0 <= ret < 32) ==> res == Err::<(), PamResultCode>(PamResultCode::PAM_CONV_ERR),
{
    if ret == 0 {
        if response_is_null {
            Err(PamResultCode::PAM_CONV_ERR)
        } else {
            Ok(())
        }
    } else {
        match PamResultCode::from_code(ret) {
            Some(code) => Err(code),
            None => Err(PamResultCode::PAM_CONV_ERR),
        }
    }
}

} // verus!
