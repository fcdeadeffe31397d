//! A module that authenticates whoever answers "2 + 3 = " with 5.
use vstd::prelude::*;
use vstd::string::*;
use vstd::utf8::*;
use crate::constants::{PamMessageStyle, PamResult, PamResultCode, PAM_PROMPT_ECHO_ON};
use crate::text::{
    decimal_value, is_decimal_digit, lemma_decimal_value_five, lemma_decimal_value_nonneg, parse_u32, spec_parse_u32, str_from_utf8,
    unsigned_digits,
};

verus! {

/// The style in which the quiz asks its question: an echoed prompt.
pub const QUIZ_PROMPT_STYLE: PamMessageStyle = PAM_PROMPT_ECHO_ON;

/// The question the quiz asks.
pub open spec fn spec_quiz_prompt() -> Seq<char> {
    seq!['2', ' ', '+', ' ', '3', ' ', '=', ' ']
}

/// The code that the quiz returns for the bytes that the user answered.
pub open spec fn quiz_answer_outcome(answer: Seq<u8>) -> PamResultCode {
    if valid_utf8(answer) && spec_parse_u32(decode_utf8(answer)) == Some(5u32) {
        PamResultCode::PAM_SUCCESS
    } else {
        PamResultCode::PAM_AUTH_ERR
    }
}

/// The answer bytes after an optional leading `+`.
spec fn answer_digits(answer: Seq<u8>) -> Seq<u8> {
    if answer.len() > 0 && answer[0] == 43u8 {
        answer.drop_first()
    } else {
        answer
    }
}

/// The character that an answer byte of the form `+`, `0` or `5` stands for.
spec fn answer_char(b: u8) -> char {
    if b == 43u8 {
        '+'
    } else if b == 48u8 {
        '0'
    } else {
        '5'
    }
}

/// The quiz authenticates exactly the answers that spell five: an optional
/// `+`, then any number of `0`s, then a single `5`, and nothing else. Every
/// other answer is refused with [`PamResultCode::PAM_AUTH_ERR`].
pub proof fn law_quiz_answer(answer: Seq<u8>)
    ensures
        answer.len() > 0 && answer[0] == 43u8 ==> (quiz_answer_outcome(answer)
            == PamResultCode::PAM_SUCCESS <==> (answer.len() > 1 && answer[answer.len() - 1] == 53u8
            && forall|i: int| 1 <= i < answer.len() - 1 ==> #[trigger] answer[i] == 48u8)),
        !(answer.len() > 0 && answer[0] == 43u8) ==> (quiz_answer_outcome(answer)
            == PamResultCode::PAM_SUCCESS <==> (answer.len() > 0 && answer[answer.len() - 1] == 53u8
            && forall|i: int| 0 <= i < answer.len() - 1 ==> #[trigger] answer[i] == 48u8)),
        quiz_answer_outcome(answer) != PamResultCode::PAM_SUCCESS ==> quiz_answer_outcome(answer)
            == PamResultCode::PAM_AUTH_ERR,
{
    let d = answer_digits(answer);
    let spells = d.len() > 0 && d[d.len() - 1] == 53u8 && forall|i: int| 0 <= i < d.len() - 1 ==> #[trigger] d[i] == 48u8;
    if quiz_answer_outcome(answer) == PamResultCode::PAM_SUCCESS {
        let c = decode_utf8(answer);
        let cd = unsigned_digits(c);
        decode_utf8_encode_utf8(answer);
        assert(spec_parse_u32(c) == Some(5u32));
        assert(forall|i: int| 0 <= i < cd.len() ==> is_decimal_digit(#[trigger] cd[i]));
        assert(cd.len() > 0);
        lemma_decimal_value_nonneg(cd);
        assert(decimal_value(cd) == 5);
        lemma_decimal_value_five(cd);
        assert(cd.last() == '5');
        assert(is_ascii_chars(c)) by {
            assert forall|i| 0 <= i < c.len() implies '\0' <= #[trigger] c[i] <= '\u{7f}' by {
                if c.len() > 0 && c[0] == '+' {
                    if i > 0 {
                        assert(cd[i - 1] == c[i]);
                    }
                } else {
                    assert(cd[i] == c[i]);
                }
            }
        }
        is_ascii_chars_encode_utf8(c);
        assert(answer.len() == c.len());
        assert(forall|i: int| 0 <= i < c.len() ==> c[i] as u8 == #[trigger] answer[i]);
        if c.len() > 0 && c[0] == '+' {
            assert(answer[0] == c[0] as u8);
            assert(answer[0] == 43u8);
            assert(d =~= answer.drop_first());
            assert(cd.len() == d.len());
            assert forall|i: int| 0 <= i < d.len() - 1 implies #[trigger] d[i] == 48u8 by {
                assert(cd[i] == c[i + 1]);
                assert(cd[i] == '0');
                assert(answer[i + 1] == c[i + 1] as u8);
                assert(d[i] == answer[i + 1]);
            }
            let n = d.len() - 1;
            assert(cd[n] == '5');
            assert(cd[n] == c[n + 1]);
            assert(answer[n + 1] == c[n + 1] as u8);
            assert(d[n] == answer[n + 1]);
        } else {
            assert(cd == c);
            if answer.len() > 0 {
                assert(answer[0] == c[0] as u8);
                assert(c[0] == '0' || c[0] == '5');
            }
            assert(d == answer);
            assert forall|i: int| 0 <= i < d.len() - 1 implies #[trigger] d[i] == 48u8 by {
                assert(cd[i] == '0');
                assert(answer[i] == c[i] as u8);
            }
            let n = d.len() - 1;
            assert(cd[n] == '5');
            assert(answer[n] == c[n] as u8);
        }
        assert(spells);
    }
    if spells {
        let c = Seq::new(answer.len(), |i: int| answer_char(answer[i]));
        assert(is_ascii_chars(c));
        is_ascii_chars_encode_utf8(c);
        assert(encode_utf8(c) =~= answer) by {
            assert forall|i: int| 0 <= i < answer.len() implies #[trigger] encode_utf8(c)[i] == answer[i] by {
                assert(c[i] as u8 == encode_utf8(c)[i]);
                if answer.len() > 0 && answer[0] == 43u8 {
                    if i > 0 {
                        assert(answer[i] == d[i - 1]);
                    }
                } else {
                    assert(answer[i] == d[i]);
                }
            }
        }
        encode_utf8_valid_utf8(c);
        encode_utf8_decode_utf8(c);
        assert(decode_utf8(answer) == c);
        let cd = unsigned_digits(c);
        if answer.len() > 0 && answer[0] == 43u8 {
            assert(cd =~= c.drop_first());
            assert forall|i: int| 0 <= i < cd.len() implies #[trigger] cd[i] == (if i == cd.len() - 1 { '5' } else { '0' }) by {
                assert(cd[i] == c[i + 1]);
                assert(d[i] == answer[i + 1]);
            }
        } else {
            assert(cd == c);
            assert forall|i: int| 0 <= i < cd.len() implies #[trigger] cd[i] == (if i == cd.len() - 1 { '5' } else { '0' }) by {
                assert(d[i] == answer[i]);
            }
        }
        assert(forall|i: int| 0 <= i < cd.len() ==> is_decimal_digit(#[trigger] cd[i])) by {
            assert forall|i: int| 0 <= i < cd.len() implies is_decimal_digit(#[trigger] cd[i]) by {
                assert(cd[i] == (if i == cd.len() - 1 { '5' } else { '0' }));
            }
        }
        assert(cd.len() > 0);
        assert(cd.last() == '5');
        lemma_decimal_value_five(cd);
        assert(decimal_value(cd) == 5);
        assert(spec_parse_u32(c) == Some(5u32));
        assert(valid_utf8(answer));
    }
    assert((quiz_answer_outcome(answer) == PamResultCode::PAM_SUCCESS) == spells);
    if answer.len() > 0 && answer[0] == 43u8 {
        assert(d =~= answer.drop_first());
        assert((forall|i: int| 1 <= i < answer.len() - 1 ==> #[trigger] answer[i] == 48u8) <==> (forall|
            i: int,
        | 0 <= i < d.len() - 1 ==> #[trigger] d[i] == 48u8)) by {
            if forall|i: int| 1 <= i < answer.len() - 1 ==> #[trigger] answer[i] == 48u8 {
                assert forall|i: int| 0 <= i < d.len() - 1 implies #[trigger] d[i] == 48u8 by {
                    assert(d[i] == answer[i + 1]);
                }
            }
            if forall|i: int| 0 <= i < d.len() - 1 ==> #[trigger] d[i] == 48u8 {
                assert forall|i: int| 1 <= i < answer.len() - 1 implies #[trigger] answer[i] == 48u8 by {
                    assert(d[i - 1] == answer[i]);
                }
            }
        }
        if answer.len() > 1 {
            assert(d[d.len() - 1] == answer[answer.len() - 1]);
        }
    } else {
        assert(d == answer);
    }
}

/// The question the quiz asks.
pub fn quiz_prompt() -> (res: &'static str)
    ensures
        res@ == spec_quiz_prompt(),
{
    let prompt = "2 + 3 = ";
    proof {
        reveal_strlit("2 + 3 = ");
    }
    prompt
}

/// Decides, from the lookup of the conversation item, whether the quiz can
/// ask its question: it can when a conversation was found; when none was
/// found it fails with [`PamResultCode::PAM_CONV_ERR`], and when the lookup
/// failed it fails with the lookup's code.
pub fn quiz_conversation_ready(lookup: PamResult<bool>) -> (res: PamResult<()>)
    ensures
        res == (match lookup {
            Ok(true) => Ok(()),
            Ok(false) => Err(PamResultCode::PAM_CONV_ERR),
            Err(e) => Err(e),
        }),
{
    match lookup {
        Ok(true) => Ok(()),
        Ok(false) => Err(PamResultCode::PAM_CONV_ERR),
        Err(e) => Err(e),
    }
}

/// Decides the quiz from the reply to its question.
///
/// A failed conversation fails with its code; no reply at all is a
/// conversation error; otherwise the user is authenticated exactly when the
/// reply is UTF-8 text that reads as the number 5, and else refused with
/// [`PamResultCode::PAM_AUTH_ERR`].
pub fn quiz_verdict(reply: PamResult<Option<Vec<u8>>>) -> (res: PamResultCode)
    ensures
        res == (match reply {
            Err(e) => e,
            Ok(None) => PamResultCode::PAM_CONV_ERR,
            Ok(Some(answer)) => quiz_answer_outcome(answer@),
        }),
        reply matches Ok(Some(answer)) ==> (res == PamResultCode::PAM_SUCCESS <==> valid_utf8(answer@)
            && spec_parse_u32(decode_utf8(answer@)) == Some(5u32)),
        reply matches Ok(Some(answer)) && res != PamResultCode::PAM_SUCCESS ==> res
            == PamResultCode::PAM_AUTH_ERR,
{
    match reply {
        Err(e) => e,
        Ok(None) => PamResultCode::PAM_CONV_ERR,
        Ok(Some(answer)) => {
            match str_from_utf8(answer.as_slice()) {
                Err(_) => PamResultCode::PAM_AUTH_ERR,
                Ok(text) => {
                    proof {
                        encode_utf8_decode_utf8(text@);
                    }
                    match parse_u32(text) {
                        Some(n) => {
                            if n == 5 {
                                PamResultCode::PAM_SUCCESS
                            } else {
                                PamResultCode::PAM_AUTH_ERR
                            }
                        },
                        None => PamResultCode::PAM_AUTH_ERR,
                    }
                },
            }
        },
    }
}

} // verus!
