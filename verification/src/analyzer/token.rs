//! Numeric tokens of the analysis tool's reports, read as fixed-point
//! readings.

use vstd::prelude::*;
use crate::analyzer::reading::Reading;
use crate::analyzer::text::{copy_range, last_index_of, lower, same_text, to_chars, to_lower};

verus! {

/// The largest whole part of a finite reading. A token beyond it reads as
/// an infinity of its sign.
pub const MAX_WHOLE: u64 = 9_000_000_000_000;

/// What a numeric token says.
#[derive(Debug, Clone, Copy, PartialEq, Eq, Structural)]
pub enum Token {
    /// A number, finite or infinite.
    Value(Reading),
    /// The not-a-number token: the value is absent, which is no error.
    NotANumber,
    /// Not a numeric token at all.
    Invalid,
}

/// An ASCII decimal digit.
pub open spec fn is_digit(c: char) -> bool {
    '0' <= c && c <= '9'
}

/// The value of a decimal digit.
pub open spec fn digit_value(c: char) -> nat {
    (c as u32 - '0' as u32) as nat
}

/// Every character is a decimal digit.
pub open spec fn all_digits(s: Seq<char>) -> bool {
    forall|i: int| 0 <= i < s.len() ==> is_digit(#[trigger] s[i])
}

/// The number that a string of digits writes.
pub open spec fn whole_value(digits: Seq<char>) -> nat
    decreases digits.len(),
{
    if digits.len() == 0 {
        0
    } else {
        whole_value(digits.drop_last()) * 10 + digit_value(digits.last())
    }
}

/// Millionths per unit of the digit at place `place` after the point; the
/// seventh and later places carry nothing.
pub open spec fn place_weight(place: int) -> nat {
    if place == 1 {
        100_000
    } else if place == 2 {
        10_000
    } else if place == 3 {
        1_000
    } else if place == 4 {
        100
    } else if place == 5 {
        10
    } else if place == 6 {
        1
    } else {
        0
    }
}

/// The millionths that the digits after the point stand for; digits past
/// the sixth are cut off.
pub open spec fn fraction_micros(digits: Seq<char>) -> nat
    decreases digits.len(),
{
    if digits.len() == 0 {
        0
    } else {
        fraction_micros(digits.drop_last()) + digit_value(digits.last()) * place_weight(
            digits.len() as int,
        )
    }
}

/// The part of an unsigned decimal before the point.
pub open spec fn whole_part(body: Seq<char>) -> Seq<char> {
    let dot = last_index_of(body, '.');
    if dot < 0 {
        body
    } else {
        body.take(dot)
    }
}

/// The part of an unsigned decimal after the point.
pub open spec fn fraction_part(body: Seq<char>) -> Seq<char> {
    let dot = last_index_of(body, '.');
    if dot < 0 {
        Seq::empty()
    } else {
        body.skip(dot + 1)
    }
}

/// Digits with at most one point among them, and at least one digit.
pub open spec fn is_decimal(body: Seq<char>) -> bool {
    &&& all_digits(whole_part(body))
    &&& all_digits(fraction_part(body))
    &&& whole_part(body).len() + fraction_part(body).len() >= 1
}

/// The reading that a decimal of the given sign stands for.
pub open spec fn decimal_reading(negative: bool, body: Seq<char>) -> Reading {
    let whole = whole_value(whole_part(body));
    if whole > MAX_WHOLE {
        if negative {
            Reading::NegInfinity
        } else {
            Reading::PosInfinity
        }
    } else {
        let magnitude = whole * 1_000_000 + fraction_micros(fraction_part(body));
        if negative {
            Reading::Finite((-magnitude) as i64)
        } else {
            Reading::Finite(magnitude as i64)
        }
    }
}

/// Whether the token begins with a minus sign.
pub open spec fn is_negative(token: Seq<char>) -> bool {
    token.len() > 0 && token[0] == '-'
}

/// The token without its sign, if it has one.
pub open spec fn unsigned_part(token: Seq<char>) -> Seq<char> {
    if token.len() > 0 && (token[0] == '-' || token[0] == '+') {
        token.drop_first()
    } else {
        token
    }
}

/// What a token says: an optional sign, then `inf` or `infinity` or `nan`
/// in any case, or a decimal.
pub open spec fn token_value(token: Seq<char>) -> Token {
    let body = unsigned_part(token);
    let word = lower(body);
    if word == "inf"@ || word == "infinity"@ {
        Token::Value(
            if is_negative(token) {
                Reading::NegInfinity
            } else {
                Reading::PosInfinity
            },
        )
    } else if word == "nan"@ {
        Token::NotANumber
    } else if is_decimal(body) {
        Token::Value(decimal_reading(is_negative(token), body))
    } else {
        Token::Invalid
    }
}

/// The value of a token as a measurement: present for a number, absent for
/// not-a-number, and an error for anything else.
pub open spec fn token_measurement(token: Seq<char>) -> Result<Option<Reading>, ()> {
    match token_value(token) {
        Token::Value(reading) => Ok(Some(reading)),
        Token::NotANumber => Ok(None),
        Token::Invalid => Err(()),
    }
}

/// The digits after the point stand for less than one unit, and those past
/// the sixth add nothing.
pub proof fn lemma_fraction_micros_bound(digits: Seq<char>)
    requires
        all_digits(digits),
    ensures
        digits.len() <= 6 ==> fraction_micros(digits) + place_weight(digits.len() as int)
            <= 1_000_000,
        digits.len() >= 6 ==> fraction_micros(digits) == fraction_micros(digits.take(6)),
        fraction_micros(digits) < 1_000_000,
    decreases digits.len(),
{
    if digits.len() > 0 {
        let shorter = digits.drop_last();
        assert(is_digit(digits[digits.len() - 1]));
        assert forall|i: int| 0 <= i < shorter.len() implies is_digit(#[trigger] shorter[i]) by {
            assert(shorter[i] == digits[i]);
        }
        lemma_fraction_micros_bound(shorter);
        if digits.len() > 6 {
            assert(shorter.take(6) == digits.take(6));
        } else if digits.len() == 6 {
            assert(digits.take(6) == digits);
        }
    }
}

/// The digits of `s` from `from` on, up to the first character that is no
/// digit: the count of digits read, their value where it stays within
/// `MAX_WHOLE`, and whether it went beyond.
fn read_whole(s: &Vec<char>, from: usize, to: usize) -> (r: (bool, u64, bool))
    requires
        from <= to <= s.len(),
    ensures
        r.0 == all_digits(s@.subrange(from as int, to as int)),
        r.0 ==> (r.2 <==> whole_value(s@.subrange(from as int, to as int)) > MAX_WHOLE),
        r.0 && !r.2 ==> r.1 == whole_value(s@.subrange(from as int, to as int)),
{
    let ghost digits = s@.subrange(from as int, to as int);
    let mut value: u64 = 0;
    let mut beyond: bool = false;
    let mut i: usize = from;
    while i < to
        invariant
            from <= i <= to,
            to <= s.len(),
            digits == s@.subrange(from as int, to as int),
            all_digits(digits.take(i - from)),
            beyond <==> whole_value(digits.take(i - from)) > MAX_WHOLE,
            !beyond ==> value == whole_value(digits.take(i - from)),
            value <= MAX_WHOLE,
        decreases to - i,
    {
        let c = s[i];
        if !('0' <= c && c <= '9') {
            assert(digits[i - from] == c);
            return (false, 0, false);
        }
        proof {
            let longer = digits.take(i - from + 1);
            assert(longer.drop_last() == digits.take(i - from));
            assert(longer.last() == c);
            assert forall|k: int| 0 <= k < longer.len() implies is_digit(#[trigger] longer[k]) by {
                if k < i - from {
                    assert(digits.take(i - from)[k] == longer[k]);
                }
            }
        }
        if !beyond {
            let next: u64 = value * 10 + (c as u32 - '0' as u32) as u64;
            if next > MAX_WHOLE {
                beyond = true;
            } else {
                value = next;
            }
        }
        i = i + 1;
    }
    assert(digits.take(to - from) == digits);
    (true, value, beyond)
}

/// The millionths written by the digits of `s` from `from` to `to`, where
/// all of them are digits.
fn read_fraction(s: &Vec<char>, from: usize, to: usize) -> (r: (bool, u64))
    requires
        from <= to <= s.len(),
    ensures
        r.0 == all_digits(s@.subrange(from as int, to as int)),
        r.0 ==> r.1 == fraction_micros(s@.subrange(from as int, to as int)),
        r.1 < 1_000_000,
{
    let ghost digits = s@.subrange(from as int, to as int);
    let mut value: u64 = 0;
    let mut weight: u64 = 100_000;
    let mut i: usize = from;
    while i < to
        invariant
            from <= i <= to,
            to <= s.len(),
            digits == s@.subrange(from as int, to as int),
            all_digits(digits.take(i - from)),
            value == fraction_micros(digits.take(i - from)),
            weight == place_weight(i - from + 1),
            value + weight <= 1_000_000 || weight == 0,
            value < 1_000_000,
        decreases to - i,
    {
        let c = s[i];
        if !('0' <= c && c <= '9') {
            assert(digits[i - from] == c);
            return (false, 0);
        }
        proof {
            let longer = digits.take(i - from + 1);
            assert(longer.drop_last() == digits.take(i - from));
            assert(longer.last() == c);
            assert forall|k: int| 0 <= k < longer.len() implies is_digit(#[trigger] longer[k]) by {
                if k < i - from {
                    assert(digits.take(i - from)[k] == longer[k]);
                }
            }
            lemma_fraction_micros_bound(longer);
        }
        value = value + (c as u32 - '0' as u32) as u64 * weight;
        weight = weight / 10;
        i = i + 1;
    }
    assert(digits.take(to - from) == digits);
    (true, value)
}

/// Reads an unsigned decimal.
fn read_decimal(body: &Vec<char>, negative: bool) -> (r: Option<Reading>)
    ensures
        r is Some == is_decimal(body@),
        r is Some ==> r->Some_0 == decimal_reading(negative, body@),
{
    let mut dot: usize = 0;
    let mut found: bool = false;
    let mut i: usize = 0;
    while i < body.len()
        invariant
            i <= body.len(),
            found ==> dot < i && dot == last_index_of(body@.take(i as int), '.'),
            !found ==> last_index_of(body@.take(i as int), '.') == -1,
        decreases body.len() - i,
    {
        assert(body@.take(i + 1).drop_last() == body@.take(i as int));
        if body[i] == '.' {
            dot = i;
            found = true;
        }
        i = i + 1;
    }
    assert(body@.take(body.len() as int) == body@);
    let whole_end: usize = if found {
        dot
    } else {
        body.len()
    };
    let fraction_start: usize = if found {
        dot + 1
    } else {
        body.len()
    };
    assert(whole_part(body@) == body@.subrange(0, whole_end as int));
    assert(fraction_part(body@) == body@.subrange(fraction_start as int, body.len() as int));
    let whole = read_whole(body, 0, whole_end);
    let fraction = read_fraction(body, fraction_start, body.len());
    if !whole.0 || !fraction.0 || whole_end + (body.len() - fraction_start) < 1 {
        return None;
    }
    if whole.2 {
        return Some(
            if negative {
                Reading::NegInfinity
            } else {
                Reading::PosInfinity
            },
        );
    }
    let magnitude: i64 = (whole.1 * 1_000_000 + fraction.1) as i64;
    Some(
        if negative {
            Reading::Finite(-magnitude)
        } else {
            Reading::Finite(magnitude)
        },
    )
}

/// Reads one numeric token.
pub fn parse_token(token: &str) -> (value: Token)
    ensures
        value == token_value(token@),
{
    let chars = to_chars(token);
    let negative = chars.len() > 0 && chars[0] == '-';
    let signed = chars.len() > 0 && (chars[0] == '-' || chars[0] == '+');
    let body = if signed {
        copy_range(&chars, 1, chars.len())
    } else {
        copy_range(&chars, 0, chars.len())
    };
    assert(body@ == unsigned_part(token@)) by {
        if signed {
            assert(chars@.subrange(1, chars.len() as int) == chars@.drop_first());
        } else {
            assert(chars@.subrange(0, chars.len() as int) == chars@);
        }
    }
    let word = to_lower(&body);
    if same_text(&word, &to_chars("inf")) || same_text(&word, &to_chars("infinity")) {
        return Token::Value(
            if negative {
                Reading::NegInfinity
            } else {
                Reading::PosInfinity
            },
        );
    }
    if same_text(&word, &to_chars("nan")) {
        return Token::NotANumber;
    }
    match read_decimal(&body, negative) {
        Some(reading) => Token::Value(reading),
        None => Token::Invalid,
    }
}

/// Reads one numeric token as a measurement.
pub fn parse_measurement(token: &str) -> (value: Result<Option<Reading>, ()>)
    ensures
        value == token_measurement(token@),
{
    match parse_token(token) {
        Token::Value(reading) => Ok(Some(reading)),
        Token::NotANumber => Ok(None),
        Token::Invalid => Err(()),
    }
}

} // verus!
