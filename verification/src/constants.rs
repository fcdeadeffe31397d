//! The codes and message styles of the PAM C API.
use vstd::prelude::*;

verus! {

/// The status codes that PAM functions and module hooks return.
#[allow(non_camel_case_types)]
#[derive(Clone, Copy, Debug, PartialEq, Eq, Structural)]
pub enum PamResultCode {
    PAM_SUCCESS,
    PAM_OPEN_ERR,
    PAM_SYMBOL_ERR,
    PAM_SERVICE_ERR,
    PAM_SYSTEM_ERR,
    PAM_BUF_ERR,
    PAM_PERM_DENIED,
    PAM_AUTH_ERR,
    PAM_CRED_INSUFFICIENT,
    PAM_AUTHINFO_UNAVAIL,
    PAM_USER_UNKNOWN,
    PAM_MAXTRIES,
    PAM_NEW_AUTHTOK_REQD,
    PAM_ACCT_EXPIRED,
    PAM_SESSION_ERR,
    PAM_CRED_UNAVAIL,
    PAM_CRED_EXPIRED,
    PAM_CRED_ERR,
    PAM_NO_MODULE_DATA,
    PAM_CONV_ERR,
    PAM_AUTHTOK_ERR,
    PAM_AUTHTOK_RECOVERY_ERR,
    PAM_AUTHTOK_LOCK_BUSY,
    PAM_AUTHTOK_DISABLE_AGING,
    PAM_TRY_AGAIN,
    PAM_IGNORE,
    PAM_ABORT,
    PAM_AUTHTOK_EXPIRED,
    PAM_MODULE_UNKNOWN,
    PAM_BAD_ITEM,
    PAM_CONV_AGAIN,
    PAM_INCOMPLETE,
}

impl PamResultCode {
    /// The number that the C API uses for this code.
    pub open spec fn spec_code(self) -> i32 {
        match self {
            PamResultCode::PAM_SUCCESS => 0,
            PamResultCode::PAM_OPEN_ERR => 1,
            PamResultCode::PAM_SYMBOL_ERR => 2,
            PamResultCode::PAM_SERVICE_ERR => 3,
            PamResultCode::PAM_SYSTEM_ERR => 4,
            PamResultCode::PAM_BUF_ERR => 5,
            PamResultCode::PAM_PERM_DENIED => 6,
            PamResultCode::PAM_AUTH_ERR => 7,
            PamResultCode::PAM_CRED_INSUFFICIENT => 8,
            PamResultCode::PAM_AUTHINFO_UNAVAIL => 9,
            PamResultCode::PAM_USER_UNKNOWN => 10,
            PamResultCode::PAM_MAXTRIES => 11,
            PamResultCode::PAM_NEW_AUTHTOK_REQD => 12,
            PamResultCode::PAM_ACCT_EXPIRED => 13,
            PamResultCode::PAM_SESSION_ERR => 14,
            PamResultCode::PAM_CRED_UNAVAIL => 15,
            PamResultCode::PAM_CRED_EXPIRED => 16,
            PamResultCode::PAM_CRED_ERR => 17,
            PamResultCode::PAM_NO_MODULE_DATA => 18,
            PamResultCode::PAM_CONV_ERR => 19,
            PamResultCode::PAM_AUTHTOK_ERR => 20,
            PamResultCode::PAM_AUTHTOK_RECOVERY_ERR => 21,
            PamResultCode::PAM_AUTHTOK_LOCK_BUSY => 22,
            PamResultCode::PAM_AUTHTOK_DISABLE_AGING => 23,
            PamResultCode::PAM_TRY_AGAIN => 24,
            PamResultCode::PAM_IGNORE => 25,
            PamResultCode::PAM_ABORT => 26,
            PamResultCode::PAM_AUTHTOK_EXPIRED => 27,
            PamResultCode::PAM_MODULE_UNKNOWN => 28,
            PamResultCode::PAM_BAD_ITEM => 29,
            PamResultCode::PAM_CONV_AGAIN => 30,
            PamResultCode::PAM_INCOMPLETE => 31,
        }
    }

    /// The number that the C API uses for this code.
    pub fn code(&self) -> (res: i32)
        ensures
            res == self.spec_code(),
    {
        match self {
            PamResultCode::PAM_SUCCESS => 0,
            PamResultCode::PAM_OPEN_ERR => 1,
            PamResultCode::PAM_SYMBOL_ERR => 2,
            PamResultCode::PAM_SERVICE_ERR => 3,
            PamResultCode::PAM_SYSTEM_ERR => 4,
            PamResultCode::PAM_BUF_ERR => 5,
            PamResultCode::PAM_PERM_DENIED => 6,
            PamResultCode::PAM_AUTH_ERR => 7,
            PamResultCode::PAM_CRED_INSUFFICIENT => 8,
            PamResultCode::PAM_AUTHINFO_UNAVAIL => 9,
            PamResultCode::PAM_USER_UNKNOWN => 10,
            PamResultCode::PAM_MAXTRIES => 11,
            PamResultCode::PAM_NEW_AUTHTOK_REQD => 12,
            PamResultCode::PAM_ACCT_EXPIRED => 13,
            PamResultCode::PAM_SESSION_ERR => 14,
            PamResultCode::PAM_CRED_UNAVAIL => 15,
            PamResultCode::PAM_CRED_EXPIRED => 16,
            PamResultCode::PAM_CRED_ERR => 17,
            PamResultCode::PAM_NO_MODULE_DATA => 18,
            PamResultCode::PAM_CONV_ERR => 19,
            PamResultCode::PAM_AUTHTOK_ERR => 20,
            PamResultCode::PAM_AUTHTOK_RECOVERY_ERR => 21,
            PamResultCode::PAM_AUTHTOK_LOCK_BUSY => 22,
            PamResultCode::PAM_AUTHTOK_DISABLE_AGING => 23,
            PamResultCode::PAM_TRY_AGAIN => 24,
            PamResultCode::PAM_IGNORE => 25,
            PamResultCode::PAM_ABORT => 26,
            PamResultCode::PAM_AUTHTOK_EXPIRED => 27,
            PamResultCode::PAM_MODULE_UNKNOWN => 28,
            PamResultCode::PAM_BAD_ITEM => 29,
            PamResultCode::PAM_CONV_AGAIN => 30,
            PamResultCode::PAM_INCOMPLETE => 31,
        }
    }

    /// The name of this code, as its `Debug` output writes it.
    pub open spec fn spec_name(self) -> Seq<char> {
        match self {
            PamResultCode::PAM_SUCCESS => "PAM_SUCCESS"@,
            PamResultCode::PAM_OPEN_ERR => "PAM_OPEN_ERR"@,
            PamResultCode::PAM_SYMBOL_ERR => "PAM_SYMBOL_ERR"@,
            PamResultCode::PAM_SERVICE_ERR => "PAM_SERVICE_ERR"@,
            PamResultCode::PAM_SYSTEM_ERR => "PAM_SYSTEM_ERR"@,
            PamResultCode::PAM_BUF_ERR => "PAM_BUF_ERR"@,
            PamResultCode::PAM_PERM_DENIED => "PAM_PERM_DENIED"@,
            PamResultCode::PAM_AUTH_ERR => "PAM_AUTH_ERR"@,
            PamResultCode::PAM_CRED_INSUFFICIENT => "PAM_CRED_INSUFFICIENT"@,
            PamResultCode::PAM_AUTHINFO_UNAVAIL => "PAM_AUTHINFO_UNAVAIL"@,
            PamResultCode::PAM_USER_UNKNOWN => "PAM_USER_UNKNOWN"@,
            PamResultCode::PAM_MAXTRIES => "PAM_MAXTRIES"@,
            PamResultCode::PAM_NEW_AUTHTOK_REQD => "PAM_NEW_AUTHTOK_REQD"@,
            PamResultCode::PAM_ACCT_EXPIRED => "PAM_ACCT_EXPIRED"@,
            PamResultCode::PAM_SESSION_ERR => "PAM_SESSION_ERR"@,
            PamResultCode::PAM_CRED_UNAVAIL => "PAM_CRED_UNAVAIL"@,
            PamResultCode::PAM_CRED_EXPIRED => "PAM_CRED_EXPIRED"@,
            PamResultCode::PAM_CRED_ERR => "PAM_CRED_ERR"@,
            PamResultCode::PAM_NO_MODULE_DATA => "PAM_NO_MODULE_DATA"@,
            PamResultCode::PAM_CONV_ERR => "PAM_CONV_ERR"@,
            PamResultCode::PAM_AUTHTOK_ERR => "PAM_AUTHTOK_ERR"@,
            PamResultCode::PAM_AUTHTOK_RECOVERY_ERR => "PAM_AUTHTOK_RECOVERY_ERR"@,
            PamResultCode::PAM_AUTHTOK_LOCK_BUSY => "PAM_AUTHTOK_LOCK_BUSY"@,
            PamResultCode::PAM_AUTHTOK_DISABLE_AGING => "PAM_AUTHTOK_DISABLE_AGING"@,
            PamResultCode::PAM_TRY_AGAIN => "PAM_TRY_AGAIN"@,
            PamResultCode::PAM_IGNORE => "PAM_IGNORE"@,
            PamResultCode::PAM_ABORT => "PAM_ABORT"@,
            PamResultCode::PAM_AUTHTOK_EXPIRED => "PAM_AUTHTOK_EXPIRED"@,
            PamResultCode::PAM_MODULE_UNKNOWN => "PAM_MODULE_UNKNOWN"@,
            PamResultCode::PAM_BAD_ITEM => "PAM_BAD_ITEM"@,
            PamResultCode::PAM_CONV_AGAIN => "PAM_CONV_AGAIN"@,
            PamResultCode::PAM_INCOMPLETE => "PAM_INCOMPLETE"@,
        }
    }

    /// The name of this code, as its `Debug` output writes it.
    pub fn name(&self) -> (res: &'static str)
        ensures
            res@ == self.spec_name(),
    {
        match self {
            PamResultCode::PAM_SUCCESS => "PAM_SUCCESS",
            PamResultCode::PAM_OPEN_ERR => "PAM_OPEN_ERR",
            PamResultCode::PAM_SYMBOL_ERR => "PAM_SYMBOL_ERR",
            PamResultCode::PAM_SERVICE_ERR => "PAM_SERVICE_ERR",
            PamResultCode::PAM_SYSTEM_ERR => "PAM_SYSTEM_ERR",
            PamResultCode::PAM_BUF_ERR => "PAM_BUF_ERR",
            PamResultCode::PAM_PERM_DENIED => "PAM_PERM_DENIED",
            PamResultCode::PAM_AUTH_ERR => "PAM_AUTH_ERR",
            PamResultCode::PAM_CRED_INSUFFICIENT => "PAM_CRED_INSUFFICIENT",
            PamResultCode::PAM_AUTHINFO_UNAVAIL => "PAM_AUTHINFO_UNAVAIL",
            PamResultCode::PAM_USER_UNKNOWN => "PAM_USER_UNKNOWN",
            PamResultCode::PAM_MAXTRIES => "PAM_MAXTRIES",
            PamResultCode::PAM_NEW_AUTHTOK_REQD => "PAM_NEW_AUTHTOK_REQD",
            PamResultCode::PAM_ACCT_EXPIRED => "PAM_ACCT_EXPIRED",
            PamResultCode::PAM_SESSION_ERR => "PAM_SESSION_ERR",
            PamResultCode::PAM_CRED_UNAVAIL => "PAM_CRED_UNAVAIL",
            PamResultCode::PAM_CRED_EXPIRED => "PAM_CRED_EXPIRED",
            PamResultCode::PAM_CRED_ERR => "PAM_CRED_ERR",
            PamResultCode::PAM_NO_MODULE_DATA => "PAM_NO_MODULE_DATA",
            PamResultCode::PAM_CONV_ERR => "PAM_CONV_ERR",
            PamResultCode::PAM_AUTHTOK_ERR => "PAM_AUTHTOK_ERR",
            PamResultCode::PAM_AUTHTOK_RECOVERY_ERR => "PAM_AUTHTOK_RECOVERY_ERR",
            PamResultCode::PAM_AUTHTOK_LOCK_BUSY => "PAM_AUTHTOK_LOCK_BUSY",
            PamResultCode::PAM_AUTHTOK_DISABLE_AGING => "PAM_AUTHTOK_DISABLE_AGING",
            PamResultCode::PAM_TRY_AGAIN => "PAM_TRY_AGAIN",
            PamResultCode::PAM_IGNORE => "PAM_IGNORE",
            PamResultCode::PAM_ABORT => "PAM_ABORT",
            PamResultCode::PAM_AUTHTOK_EXPIRED => "PAM_AUTHTOK_EXPIRED",
            PamResultCode::PAM_MODULE_UNKNOWN => "PAM_MODULE_UNKNOWN",
            PamResultCode::PAM_BAD_ITEM => "PAM_BAD_ITEM",
            PamResultCode::PAM_CONV_AGAIN => "PAM_CONV_AGAIN",
            PamResultCode::PAM_INCOMPLETE => "PAM_INCOMPLETE",
        }
    }

    /// The code that the C API numbers `code`, if there is one.
    pub open spec fn spec_from_code(code: i32) -> Option<PamResultCode> {
        match code {
            0 => Some(PamResultCode::PAM_SUCCESS),
            1 => Some(PamResultCode::PAM_OPEN_ERR),
            2 => Some(PamResultCode::PAM_SYMBOL_ERR),
            3 => Some(PamResultCode::PAM_SERVICE_ERR),
            4 => Some(PamResultCode::PAM_SYSTEM_ERR),
            5 => Some(PamResultCode::PAM_BUF_ERR),
            6 => Some(PamResultCode::PAM_PERM_DENIED),
            7 => Some(PamResultCode::PAM_AUTH_ERR),
            8 => Some(PamResultCode::PAM_CRED_INSUFFICIENT),
            9 => Some(PamResultCode::PAM_AUTHINFO_UNAVAIL),
            10 => Some(PamResultCode::PAM_USER_UNKNOWN),
            11 => Some(PamResultCode::PAM_MAXTRIES),
            12 => Some(PamResultCode::PAM_NEW_AUTHTOK_REQD),
            13 => Some(PamResultCode::PAM_ACCT_EXPIRED),
            14 => Some(PamResultCode::PAM_SESSION_ERR),
            15 => Some(PamResultCode::PAM_CRED_UNAVAIL),
            16 => Some(PamResultCode::PAM_CRED_EXPIRED),
            17 => Some(PamResultCode::PAM_CRED_ERR),
            18 => Some(PamResultCode::PAM_NO_MODULE_DATA),
            19 => Some(PamResultCode::PAM_CONV_ERR),
            20 => Some(PamResultCode::PAM_AUTHTOK_ERR),
            21 => Some(PamResultCode::PAM_AUTHTOK_RECOVERY_ERR),
            22 => Some(PamResultCode::PAM_AUTHTOK_LOCK_BUSY),
            23 => Some(PamResultCode::PAM_AUTHTOK_DISABLE_AGING),
            24 => Some(PamResultCode::PAM_TRY_AGAIN),
            25 => Some(PamResultCode::PAM_IGNORE),
            26 => Some(PamResultCode::PAM_ABORT),
            27 => Some(PamResultCode::PAM_AUTHTOK_EXPIRED),
            28 => Some(PamResultCode::PAM_MODULE_UNKNOWN),
            29 => Some(PamResultCode::PAM_BAD_ITEM),
            30 => Some(PamResultCode::PAM_CONV_AGAIN),
            31 => Some(PamResultCode::PAM_INCOMPLETE),
            _ => None,
        }
    }

    /// The code that the C API numbers `code`, if there is one.
    pub fn from_code(code: i32) -> (res: Option<PamResultCode>)
        ensures
            res == Self::spec_from_code(code),
            res is None <==> !(0 <= code < 32),
            res matches Some(c) ==> c.spec_code() == code,
    {
        match code {
            0 => Some(PamResultCode::PAM_SUCCESS),
            1 => Some(PamResultCode::PAM_OPEN_ERR),
            2 => Some(PamResultCode::PAM_SYMBOL_ERR),
            3 => Some(PamResultCode::PAM_SERVICE_ERR),
            4 => Some(PamResultCode::PAM_SYSTEM_ERR),
            5 => Some(PamResultCode::PAM_BUF_ERR),
            6 => Some(PamResultCode::PAM_PERM_DENIED),
            7 => Some(PamResultCode::PAM_AUTH_ERR),
            8 => Some(PamResultCode::PAM_CRED_INSUFFICIENT),
            9 => Some(PamResultCode::PAM_AUTHINFO_UNAVAIL),
            10 => Some(PamResultCode::PAM_USER_UNKNOWN),
            11 => Some(PamResultCode::PAM_MAXTRIES),
            12 => Some(PamResultCode::PAM_NEW_AUTHTOK_REQD),
            13 => Some(PamResultCode::PAM_ACCT_EXPIRED),
            14 => Some(PamResultCode::PAM_SESSION_ERR),
            15 => Some(PamResultCode::PAM_CRED_UNAVAIL),
            16 => Some(PamResultCode::PAM_CRED_EXPIRED),
            17 => Some(PamResultCode::PAM_CRED_ERR),
            18 => Some(PamResultCode::PAM_NO_MODULE_DATA),
            19 => Some(PamResultCode::PAM_CONV_ERR),
            20 => Some(PamResultCode::PAM_AUTHTOK_ERR),
            21 => Some(PamResultCode::PAM_AUTHTOK_RECOVERY_ERR),
            22 => Some(PamResultCode::PAM_AUTHTOK_LOCK_BUSY),
            23 => Some(PamResultCode::PAM_AUTHTOK_DISABLE_AGING),
            24 => Some(PamResultCode::PAM_TRY_AGAIN),
            25 => Some(PamResultCode::PAM_IGNORE),
            26 => Some(PamResultCode::PAM_ABORT),
            27 => Some(PamResultCode::PAM_AUTHTOK_EXPIRED),
            28 => Some(PamResultCode::PAM_MODULE_UNKNOWN),
            29 => Some(PamResultCode::PAM_BAD_ITEM),
            30 => Some(PamResultCode::PAM_CONV_AGAIN),
            31 => Some(PamResultCode::PAM_INCOMPLETE),
            _ => None,
        }
    }
}

/// The C number of every code, as Linux-PAM's `_pam_types.h` defines it.
pub proof fn law_code_numbers()
    ensures
        PamResultCode::PAM_SUCCESS.spec_code() == 0,
        PamResultCode::PAM_OPEN_ERR.spec_code() == 1,
        PamResultCode::PAM_SYMBOL_ERR.spec_code() == 2,
        PamResultCode::PAM_SERVICE_ERR.spec_code() == 3,
        PamResultCode::PAM_SYSTEM_ERR.spec_code() == 4,
        PamResultCode::PAM_BUF_ERR.spec_code() == 5,
        PamResultCode::PAM_PERM_DENIED.spec_code() == 6,
        PamResultCode::PAM_AUTH_ERR.spec_code() == 7,
        PamResultCode::PAM_CRED_INSUFFICIENT.spec_code() == 8,
        PamResultCode::PAM_AUTHINFO_UNAVAIL.spec_code() == 9,
        PamResultCode::PAM_USER_UNKNOWN.spec_code() == 10,
        PamResultCode::PAM_MAXTRIES.spec_code() == 11,
        PamResultCode::PAM_NEW_AUTHTOK_REQD.spec_code() == 12,
        PamResultCode::PAM_ACCT_EXPIRED.spec_code() == 13,
        PamResultCode::PAM_SESSION_ERR.spec_code() == 14,
        PamResultCode::PAM_CRED_UNAVAIL.spec_code() == 15,
        PamResultCode::PAM_CRED_EXPIRED.spec_code() == 16,
        PamResultCode::PAM_CRED_ERR.spec_code() == 17,
        PamResultCode::PAM_NO_MODULE_DATA.spec_code() == 18,
        PamResultCode::PAM_CONV_ERR.spec_code() == 19,
        PamResultCode::PAM_AUTHTOK_ERR.spec_code() == 20,
        PamResultCode::PAM_AUTHTOK_RECOVERY_ERR.spec_code() == 21,
        PamResultCode::PAM_AUTHTOK_LOCK_BUSY.spec_code() == 22,
        PamResultCode::PAM_AUTHTOK_DISABLE_AGING.spec_code() == 23,
        PamResultCode::PAM_TRY_AGAIN.spec_code() == 24,
        PamResultCode::PAM_IGNORE.spec_code() == 25,
        PamResultCode::PAM_ABORT.spec_code() == 26,
        PamResultCode::PAM_AUTHTOK_EXPIRED.spec_code() == 27,
        PamResultCode::PAM_MODULE_UNKNOWN.spec_code() == 28,
        PamResultCode::PAM_BAD_ITEM.spec_code() == 29,
        PamResultCode::PAM_CONV_AGAIN.spec_code() == 30,
        PamResultCode::PAM_INCOMPLETE.spec_code() == 31,
{
}

/// Reading a number gives the code with that number, and only numbers in
/// the C API's range `0..32` name a code; reading back the number of a code
/// gives that code.
pub proof fn law_code_round_trip(c: PamResultCode, n: i32)
    ensures
        PamResultCode::spec_from_code(n) == Some(c) <==> c.spec_code() == n,
        PamResultCode::spec_from_code(n) is None <==> !(0 <= n < 32),
        PamResultCode::spec_from_code(c.spec_code()) == Some(c),
        0 <= c.spec_code() < 32,
{
}

/// The result of a PAM operation: a value, or the code that PAM reported.
pub type PamResult<T> = Result<T, PamResultCode>;

/// The style of a conversation message, as the C API numbers it.
pub type PamMessageStyle = i32;

/// Prompt for input that is not echoed (a password).
pub const PAM_PROMPT_ECHO_OFF: PamMessageStyle = 1;
/// Prompt for input that is echoed (a user name).
pub const PAM_PROMPT_ECHO_ON: PamMessageStyle = 2;
/// Show an error message.
pub const PAM_ERROR_MSG: PamMessageStyle = 3;
/// Show an informational message.
pub const PAM_TEXT_INFO: PamMessageStyle = 4;
/// Ask a yes/no style question.
pub const PAM_RADIO_TYPE: PamMessageStyle = 5;
/// Exchange a binary message with the client.
pub const PAM_BINARY_PROMPT: PamMessageStyle = 7;

} // verus!
