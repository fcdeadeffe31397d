//! Text that crosses the boundary to PAM: decoding UTF-8, reading decimal
//! numbers, comparing strings.
use vstd::prelude::*;
use vstd::string::*;
use vstd::utf8::*;
use std::str::FromStr;
use std::str::Utf8Error;

verus! {

/// The error `std::str::from_utf8` reports for bytes that are not UTF-8.
#[verifier::external_type_specification]
#[verifier::external_body]
pub struct ExUtf8Error(Utf8Error);

/// `c` is an ASCII decimal digit.
pub open spec fn is_decimal_digit(c: char) -> bool {
    '0' as int <= c as int <= '9' as int
}

/// The value of the decimal numeral `digits`, most significant digit first.
pub open spec fn decimal_value(digits: Seq<char>) -> int
    decreases digits.len(),
{
    if digits.len() == 0 {
        0
    } else {
        10 * decimal_value(digits.drop_last()) + (digits.last() as int - '0' as int)
    }
}

/// The text after an optional leading `+` sign.
pub open spec fn unsigned_digits(s: Seq<char>) -> Seq<char> {
    if s.len() > 0 && s[0] == '+' {
        s.drop_first()
    } else {
        s
    }
}

/// What `u32::from_str` reads from `s`: an optional `+` sign followed by one
/// or more decimal digits whose value fits in a `u32`; nothing else.
pub open spec fn spec_parse_u32(s: Seq<char>) -> Option<u32> {
    let digits = unsigned_digits(s);
    if digits.len() > 0 && (forall|i: int| 0 <= i < digits.len() ==> is_decimal_digit(#[trigger] digits[i]))
        && decimal_value(digits) <= u32::MAX {
        Some(decimal_value(digits) as u32)
    } else {
        None
    }
}

/// The value of a numeral of decimal digits is not negative.
pub proof fn lemma_decimal_value_nonneg(digits: Seq<char>)
    requires
        forall|i: int| 0 <= i < digits.len() ==> is_decimal_digit(#[trigger] digits[i]),
    ensures
        decimal_value(digits) >= 0,
    decreases digits.len(),
{
    if digits.len() > 0 {
        let rest = digits.drop_last();
        assert forall|i: int| 0 <= i < rest.len() implies is_decimal_digit(#[trigger] rest[i]) by {
            assert(rest[i] == digits[i]);
        }
        lemma_decimal_value_nonneg(rest);
        assert(is_decimal_digit(digits[digits.len() - 1]));
    }
}

/// A numeral of decimal digits has the value 0 exactly when all its digits
/// are `0`.
pub proof fn lemma_decimal_value_zero(digits: Seq<char>)
    requires
        forall|i: int| 0 <= i < digits.len() ==> is_decimal_digit(#[trigger] digits[i]),
    ensures
        decimal_value(digits) == 0 <==> forall|i: int| 0 <= i < digits.len() ==> #[trigger] digits[i] == '0',
    decreases digits.len(),
{
    if digits.len() > 0 {
        let rest = digits.drop_last();
        let n = digits.len() - 1;
        assert forall|i: int| 0 <= i < rest.len() implies is_decimal_digit(#[trigger] rest[i]) by {
            assert(rest[i] == digits[i]);
        }
        lemma_decimal_value_zero(rest);
        lemma_decimal_value_nonneg(rest);
        assert(is_decimal_digit(digits[n]));
        if decimal_value(digits) == 0 {
            assert forall|i: int| 0 <= i < digits.len() implies #[trigger] digits[i] == '0' by {
                if i < n {
                    assert(rest[i] == digits[i]);
                }
            }
        }
        if forall|i: int| 0 <= i < digits.len() ==> #[trigger] digits[i] == '0' {
            assert forall|i: int| 0 <= i < rest.len() implies #[trigger] rest[i] == '0' by {
                assert(rest[i] == digits[i]);
            }
            assert(digits[n] == '0');
        }
    }
}

/// A numeral of decimal digits has the value 5 exactly when it ends in `5`
/// and all digits before that are `0`.
pub proof fn lemma_decimal_value_five(digits: Seq<char>)
    requires
        forall|i: int| 0 <= i < digits.len() ==> is_decimal_digit(#[trigger] digits[i]),
    ensures
        decimal_value(digits) == 5 <==> (digits.len() > 0 && digits.last() == '5' && forall|i: int|
            0 <= i < digits.len() - 1 ==> #[trigger] digits[i] == '0'),
{
    if digits.len() > 0 {
        let rest = digits.drop_last();
        let n = digits.len() - 1;
        assert forall|i: int| 0 <= i < rest.len() implies is_decimal_digit(#[trigger] rest[i]) by {
            assert(rest[i] == digits[i]);
        }
        lemma_decimal_value_zero(rest);
        lemma_decimal_value_nonneg(rest);
        assert(is_decimal_digit(digits[n]));
        if decimal_value(digits) == 5 {
            assert(decimal_value(rest) == 0);
            assert forall|i: int| 0 <= i < digits.len() - 1 implies #[trigger] digits[i] == '0' by {
                assert(rest[i] == digits[i]);
            }
        }
        if digits.last() == '5' && forall|i: int| 0 <= i < digits.len() - 1 ==> #[trigger] digits[i] == '0' {
            assert forall|i: int| 0 <= i < rest.len() implies #[trigger] rest[i] == '0' by {
                assert(rest[i] == digits[i]);
            }
        }
    }
}

/// Calls `std::str::from_utf8`, which by its documentation succeeds exactly
/// when the bytes are valid UTF-8 and then returns the string slice made of
/// those very bytes.
#[verifier::external_body]
pub(crate) fn str_from_utf8(bytes: &[u8]) -> (res: Result<&str, Utf8Error>)
    ensures
        res is Ok <==> valid_utf8(bytes@),
        res matches Ok(s) ==> s.spec_bytes() == bytes@,
{
    std::str::from_utf8(bytes)
}

/// Calls `<u32 as FromStr>::from_str`, keeping the number it read. Its
/// documentation accepts an optional `+` sign followed by decimal digits and
/// reports an error for anything else, for an empty text and for a value that
/// overflows `u32`.
#[verifier::external_body]
pub(crate) fn parse_u32(s: &str) -> (res: Option<u32>)
    ensures
        res == spec_parse_u32(s@),
{
    u32::from_str(s).ok()
}

/// Calls `<str as PartialEq>::eq`: two string slices are equal when they hold
/// the same characters.
#[verifier::external_body]
pub(crate) fn str_eq(a: &str, b: &str) -> (res: bool)
    ensures
        res == (a@ == b@),
{
    a == b
}

} // verus!
