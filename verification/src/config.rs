//! The worker-count hint and how it is read from a textual setting.

use vstd::prelude::*;
use vstd::std_specs::iter::IteratorSpec;

verus! {

broadcast use vstd::string::group_string_axioms;

/// The hint used when no setting is present.
pub const DEFAULT_WORKER_HINT: usize = 8;

/// The hint used when a setting is present but is not a positive integer.
pub const FALLBACK_WORKER_HINT: usize = 1;

/// Whether `c` is one of the decimal digits `0` to `9`.
pub open spec fn is_digit(c: char) -> bool {
    '0' <= c && c <= '9'
}

/// The value of a decimal digit; zero for any other character.
pub open spec fn digit_value(c: char) -> nat {
    if is_digit(c) {
        (c as int - '0' as int) as nat
    } else {
        0
    }
}

/// The number that a sequence of decimal digits denotes, most significant
/// digit first. The empty sequence denotes zero.
pub open spec fn decimal_value(digits: Seq<char>) -> nat
    decreases digits.len(),
{
    if digits.len() == 0 {
        0
    } else {
        10 * decimal_value(digits.drop_last()) + digit_value(digits.last())
    }
}

/// The digits of a setting: the text itself, without one leading `+` if it
/// has one.
pub open spec fn unsigned_digits(text: Seq<char>) -> Seq<char> {
    if text.len() > 0 && text[0] == '+' {
        text.subrange(1, text.len() as int)
    } else {
        text
    }
}

/// The number a text denotes, if it is a decimal numeral: at least one
/// digit, nothing but digits, optionally preceded by a single `+`.
pub open spec fn decimal_numeral(text: Seq<char>) -> Option<nat> {
    let digits = unsigned_digits(text);
    if digits.len() > 0 && (forall|i: int| 0 <= i < digits.len() ==> is_digit(#[trigger] digits[i])) {
        Some(decimal_value(digits))
    } else {
        None
    }
}

/// The hint that a setting stands for: the default when there is no setting,
/// the number it denotes when that is positive and fits the machine word, and
/// the fallback for every other text.
pub open spec fn hint_of_setting(setting: Option<Seq<char>>) -> nat {
    match setting {
        None => DEFAULT_WORKER_HINT as nat,
        Some(text) => match decimal_numeral(text) {
            Some(value) => if 0 < value <= usize::MAX {
                value
            } else {
                FALLBACK_WORKER_HINT as nat
            },
            None => FALLBACK_WORKER_HINT as nat,
        },
    }
}

/// A prefix of a digit sequence never denotes more than the whole.
proof fn lemma_prefix_value_bounded(digits: Seq<char>, k: int)
    requires
        0 <= k <= digits.len(),
    ensures
        decimal_value(digits.take(k)) <= decimal_value(digits),
    decreases digits.len(),
{
    if k == digits.len() {
        assert(digits.take(k) =~= digits);
    } else {
        lemma_prefix_value_bounded(digits.drop_last(), k);
        assert(digits.drop_last().take(k) =~= digits.take(k));
    }
}

/// Appending one digit to a digit sequence multiplies its value by ten and
/// adds the digit.
proof fn lemma_value_of_longer_prefix(digits: Seq<char>, k: int)
    requires
        0 <= k < digits.len(),
    ensures
        decimal_value(digits.take(k + 1)) == 10 * decimal_value(digits.take(k)) + digit_value(
            digits[k],
        ),
{
    assert(digits.take(k + 1).drop_last() =~= digits.take(k));
}

/// Extends the number read so far by one character.
///
/// Gives the new number when the character is a digit and the number still
/// fits the machine word, and nothing otherwise.
fn push_digit(value: usize, c: char) -> (extended: Option<usize>)
    ensures
        extended == (if is_digit(c) && 10 * value + digit_value(c) <= usize::MAX {
            Some((10 * value + digit_value(c)) as usize)
        } else {
            None::<usize>
        }),
{
    if c < '0' || c > '9' {
        return None;
    }
    let digit: usize = (c as u32 - '0' as u32) as usize;
    match value.checked_mul(10) {
        Some(shifted) => shifted.checked_add(digit),
        None => None,
    }
}

/// Reads a decimal numeral that fits the machine word.
///
/// Accepts what `decimal_numeral` accepts, as long as the number is at most
/// `usize::MAX`; refuses the empty text, signs other than one leading `+`,
/// blanks, and every other character.
pub fn parse_decimal(text: &str) -> (number: Option<usize>)
    ensures
        number == (match decimal_numeral(text@) {
            Some(value) => if value <= usize::MAX {
                Some(value as usize)
            } else {
                None
            },
            None => None::<usize>,
        }),
{
    let ghost digits = unsigned_digits(text@);
    let mut chars = text.chars();
    let mut pending = chars.next();
    if let Some(c) = pending {
        if c == '+' {
            pending = chars.next();
        }
    }
    if pending.is_none() {
        return None;
    }
    let mut value: usize = 0;
    let ghost mut done: int = 0;
    while pending.is_some()
        invariant
            digits == unsigned_digits(text@),
            0 <= done <= digits.len(),
            digits.len() > 0,
            pending == (if done < digits.len() {
                Some(digits[done])
            } else {
                None::<char>
            }),
            chars.remaining() == (if done < digits.len() {
                digits.subrange(done + 1, digits.len() as int)
            } else {
                Seq::<char>::empty()
            }),
            forall|i: int| 0 <= i < done ==> is_digit(#[trigger] digits[i]),
            value == decimal_value(digits.take(done)),
        decreases digits.len() - done,
    {
        let c = pending.unwrap();
        proof {
            lemma_value_of_longer_prefix(digits, done);
            lemma_prefix_value_bounded(digits, done + 1);
        }
        match push_digit(value, c) {
            Some(extended) => {
                value = extended;
            },
            None => {
                return None;
            },
        }
        pending = chars.next();
        proof {
            done = done + 1;
        }
    }
    proof {
        assert(digits.take(done) =~= digits);
    }
    Some(value)
}

/// Resolves the configured worker-count hint.
///
/// With no setting the hint is the default, 8. A setting that denotes a
/// positive integer gives that integer. Any other setting gives 1: a setting
/// that cannot be used never falls back to the default.
pub fn worker_count_hint(setting: Option<&str>) -> (hint: usize)
    ensures
        hint == hint_of_setting(
            match setting {
                Some(text) => Some(text@),
                None => None,
            },
        ),
        hint >= 1,
{
    match setting {
        None => DEFAULT_WORKER_HINT,
        Some(text) => match parse_decimal(text) {
            Some(value) => if value > 0 {
                value
            } else {
                FALLBACK_WORKER_HINT
            },
            None => FALLBACK_WORKER_HINT,
        },
    }
}

} // verus!
