//! The reading of settings that arrive as text.
//!
//! A setting is given as an optional text, absent where nothing was set. A
//! number is written in decimal digits, with an optional plus sign before
//! them; a time may carry its unit behind the digits; a switch is on for the
//! word `true` and off for anything else. A setting that is absent, or a
//! number that cannot be read, falls back to the default.

use vstd::prelude::*;
use vstd::string::{StrSliceExecFns, StringExecFns};
use crate::encoding::same_text;

verus! {

/// Whether `c` is one of the decimal digits.
pub open spec fn is_digit(c: char) -> bool {
    48 <= c as u32 <= 57
}

/// The value of the digit `c`; zero for a character that is no digit.
pub open spec fn digit_value(c: char) -> nat {
    if is_digit(c) {
        (c as u32 - 48) as nat
    } else {
        0
    }
}

/// The number that the digits `s` write in decimal.
pub open spec fn digits_value(s: Seq<char>) -> nat
    decreases s.len(),
{
    if s.len() == 0 {
        0
    } else {
        digits_value(s.drop_last()) * 10 + digit_value(s.last())
    }
}

/// Whether `s` holds nothing but decimal digits.
pub open spec fn all_digits(s: Seq<char>) -> bool {
    forall|i: int| 0 <= i < s.len() ==> is_digit(#[trigger] s[i])
}

/// `text` without a plus sign at its front.
pub open spec fn unsigned_part(text: Seq<char>) -> Seq<char> {
    if text.len() > 0 && text[0] == '+' {
        text.skip(1)
    } else {
        text
    }
}

/// The number that `text` writes, where it is at most `limit`: an optional
/// plus sign, then one or more decimal digits and nothing else.
pub open spec fn number_model(text: Seq<char>, limit: u64) -> Option<u64> {
    let digits = unsigned_part(text);
    if digits.len() > 0 && all_digits(digits) && digits_value(digits) <= limit {
        Some(digits_value(digits) as u64)
    } else {
        None
    }
}

/// More digits never write a smaller number.
pub proof fn lemma_digits_grow(s: Seq<char>, n: int)
    requires
        0 <= n <= s.len(),
    ensures
        digits_value(s.take(n)) <= digits_value(s),
    decreases s.len() - n,
{
    if n < s.len() {
        lemma_digits_grow(s, n + 1);
        assert(s.take(n + 1).drop_last() =~= s.take(n));
    } else {
        assert(s.take(n) =~= s);
    }
}

/// Reads the number that `text` writes, or `None` where `text` is no number
/// or the number is above `limit`.
pub fn parse_number(text: &str, limit: u64) -> (number: Option<u64>)
    ensures
        number == number_model(text@, limit),
{
    let len = text.unicode_len();
    let start: usize = if len > 0 && text.get_char(0) == '+' {
        1
    } else {
        0
    };
    if start == len {
        return None;
    }
    let ghost digits = unsigned_part(text@);
    proof {
        assert(text@.skip(0) =~= text@);
    }
    let mut value: u64 = 0;
    let mut i: usize = start;
    while i < len
        invariant
            start <= i <= len,
            len == text@.len(),
            digits == unsigned_part(text@),
            digits == text@.skip(start as int),
            all_digits(digits.take(i - start)),
            value == digits_value(digits.take(i - start)),
            value <= limit,
        decreases len - i,
    {
        let c = text.get_char(i);
        let code = c as u32;
        proof {
            assert(digits[i - start] == c);
            assert(digits.take(i - start + 1).drop_last() =~= digits.take(i - start));
            lemma_digits_grow(digits, i - start + 1);
        }
        if code < 48 || code > 57 {
            proof {
                assert(!is_digit(digits[i - start]));
            }
            return None;
        }
        let digit = (code - 48) as u64;
        proof {
            assert(is_digit(digits[i - start]));
            assert(digits_value(digits.take(i - start + 1)) == value * 10 + digit);
        }
        if digit > limit || value > (limit - digit) / 10 {
            return None;
        }
        value = value * 10 + digit;
        proof {
            assert forall|j: int| 0 <= j < i - start + 1 implies is_digit(
                #[trigger] digits.take(i - start + 1)[j],
            ) by {
                if j < i - start {
                    assert(digits.take(i - start)[j] == digits[j]);
                }
            }
        }
        i += 1;
    }
    proof {
        assert(digits.take(len - start) =~= digits);
    }
    Some(value)
}

/// `s` without the characters `c` at its end, however many there are.
pub open spec fn without_trailing(s: Seq<char>, c: char) -> Seq<char>
    decreases s.len(),
{
    if s.len() > 0 && s.last() == c {
        without_trailing(s.drop_last(), c)
    } else {
        s
    }
}

/// `s` without the pairs `first`, `second` at its end, however many there
/// are.
pub open spec fn without_trailing_pairs(s: Seq<char>, first: char, second: char) -> Seq<char>
    decreases s.len(),
{
    if s.len() >= 2 && s[s.len() - 2] == first && s[s.len() - 1] == second {
        without_trailing_pairs(s.take(s.len() - 2), first, second)
    } else {
        s
    }
}

/// `text` without the characters `c` at its end.
pub fn trim_trailing(text: &str, c: char) -> (trimmed: &str)
    ensures
        trimmed@ == without_trailing(text@, c),
{
    let mut end = text.unicode_len();
    proof {
        assert(text@.take(end as int) =~= text@);
    }
    while end > 0 && text.get_char(end - 1) == c
        invariant
            end <= text@.len(),
            without_trailing(text@, c) == without_trailing(text@.take(end as int), c),
        decreases end,
    {
        proof {
            assert(text@.take(end as int).drop_last() =~= text@.take(end - 1));
        }
        end -= 1;
    }
    proof {
        assert(text@.subrange(0, end as int) =~= text@.take(end as int));
    }
    text.substring_char(0, end)
}

/// `text` without the pairs `first`, `second` at its end.
pub fn trim_trailing_pairs(text: &str, first: char, second: char) -> (trimmed: &str)
    ensures
        trimmed@ == without_trailing_pairs(text@, first, second),
{
    let mut end = text.unicode_len();
    proof {
        assert(text@.take(end as int) =~= text@);
    }
    while end >= 2 && text.get_char(end - 2) == first && text.get_char(end - 1) == second
        invariant
            end <= text@.len(),
            without_trailing_pairs(text@, first, second) == without_trailing_pairs(
                text@.take(end as int),
                first,
                second,
            ),
        decreases end,
    {
        proof {
            assert(text@.take(end as int).take(end - 2) =~= text@.take(end - 2));
        }
        end -= 2;
    }
    proof {
        assert(text@.subrange(0, end as int) =~= text@.take(end as int));
    }
    text.substring_char(0, end)
}

/// What a numeric setting counts for: the number that it writes, or the
/// default where the setting is absent, no number, or above `limit`.
pub open spec fn number_setting_model(value: Option<&str>, default: u64, limit: u64) -> u64 {
    match value {
        Some(text) => match number_model(text@, limit) {
            Some(number) => number,
            None => default,
        },
        None => default,
    }
}

/// Reads a numeric setting that may be as large as `limit`.
pub fn number_setting(value: Option<&str>, default: u64, limit: u64) -> (number: u64)
    ensures
        number == number_setting_model(value, default, limit),
{
    match value {
        Some(text) => match parse_number(text, limit) {
            Some(number) => number,
            None => default,
        },
        None => default,
    }
}

/// What a time in seconds counts for: the number before any `s` at the end
/// of the setting, or the default where the setting is absent or the rest is
/// no number.
pub open spec fn seconds_setting_model(value: Option<&str>, default: u64) -> u64 {
    match value {
        Some(text) => match number_model(without_trailing(text@, 's'), u64::MAX) {
            Some(number) => number,
            None => default,
        },
        None => default,
    }
}

/// Reads a time in seconds, written as a number with or without an `s`
/// behind it.
pub fn seconds_setting(value: Option<&str>, default: u64) -> (seconds: u64)
    ensures
        seconds == seconds_setting_model(value, default),
{
    match value {
        Some(text) => match parse_number(trim_trailing(text, 's'), u64::MAX) {
            Some(number) => number,
            None => default,
        },
        None => default,
    }
}

/// What a time in milliseconds counts for: the number before any `ms` at the
/// end of the setting, or the default where the setting is absent or the rest
/// is no number.
pub open spec fn millis_setting_model(value: Option<&str>, default: u64) -> u64 {
    match value {
        Some(text) => match number_model(without_trailing_pairs(text@, 'm', 's'), u64::MAX) {
            Some(number) => number,
            None => default,
        },
        None => default,
    }
}

/// Reads a time in milliseconds, written as a number with or without `ms`
/// behind it.
pub fn millis_setting(value: Option<&str>, default: u64) -> (millis: u64)
    ensures
        millis == millis_setting_model(value, default),
{
    match value {
        Some(text) => match parse_number(trim_trailing_pairs(text, 'm', 's'), u64::MAX) {
            Some(number) => number,
            None => default,
        },
        None => default,
    }
}

/// Reads a switch: on for the word `true`, off for any other text, and the
/// default where the setting is absent.
pub fn flag_setting(value: Option<&str>, default: bool) -> (on: bool)
    ensures
        on == (match value {
            Some(text) => text@ == "true"@,
            None => default,
        }),
{
    match value {
        Some(text) => same_text(text, "true"),
        None => default,
    }
}

/// Reads a text: the setting itself, or the default where it is absent.
pub fn text_setting(value: Option<&str>, default: &str) -> (text: String)
    ensures
        text@ == (match value {
            Some(given) => given@,
            None => default@,
        }),
{
    match value {
        Some(given) => String::from_str(given),
        None => String::from_str(default),
    }
}

} // verus!
