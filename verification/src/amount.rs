//! Token amounts as they arrive in text form, and the arithmetic on
//! balances that must not overflow.

use vstd::prelude::*;

verus! {

/// Whether `c` is one of the ten decimal digits.
pub open spec fn is_digit(c: char) -> bool {
    48 <= c as int <= 57
}

/// The number that a run of decimal digits denotes.
pub open spec fn digits_value(digits: Seq<char>) -> nat
    decreases digits.len(),
{
    if digits.len() == 0 {
        0
    } else {
        (digits_value(digits.drop_last()) * 10 + (digits.last() as int - 48)) as nat
    }
}

/// The digits of an amount text: the text itself, without a leading `+`.
pub open spec fn unsigned_part(text: Seq<char>) -> Seq<char> {
    if text.len() > 0 && text[0] == '+' {
        text.subrange(1, text.len() as int)
    } else {
        text
    }
}

/// The amount that a text denotes: an optional `+`, then at least one
/// decimal digit and nothing else, with a value that fits in 64 bits.
pub open spec fn parsed_amount(text: Seq<char>) -> Option<u64> {
    let digits = unsigned_part(text);
    if digits.len() > 0 && (forall|i: int| 0 <= i < digits.len() ==> is_digit(#[trigger] digits[i]))
        && digits_value(digits) <= u64::MAX {
        Some(digits_value(digits) as u64)
    } else {
        None
    }
}

/// Digits denote at least what any run of their first digits denotes.
proof fn lemma_digits_value_grows(digits: Seq<char>, k: int)
    requires
        0 <= k <= digits.len(),
        forall|i: int| 0 <= i < digits.len() ==> is_digit(#[trigger] digits[i]),
    ensures
        digits_value(digits.take(k)) <= digits_value(digits),
    decreases digits.len() - k,
{
    if k == digits.len() {
        assert(digits.take(k) =~= digits);
    } else {
        let longer = digits.take(k + 1);
        assert(longer.drop_last() =~= digits.take(k));
        assert(is_digit(digits[k]));
        assert(longer.last() == digits[k]);
        lemma_digits_value_grows(digits, k + 1);
    }
}

/// Reads an amount from its text form: an optional `+`, then decimal
/// digits only, with a value that fits in 64 bits. Any other text is no
/// amount.
pub fn parse_amount(text: &str) -> (amount: Option<u64>)
    ensures
        amount == parsed_amount(text@),
{
    broadcast use vstd::string::is_ascii_spec_bytes;

    let ghost digits = unsigned_part(text@);
    if !text.is_ascii() {
        proof {
            let at = choose|i: int|
                0 <= i < text@.len() && !('\0' <= #[trigger] text@[i] <= '\u{7f}');
            assert(!is_digit(text@[at]));
            if text@[0] == '+' {
                assert(digits[at - 1] == text@[at]);
            }
        }
        return None;
    }
    let bytes = text.as_bytes();
    let n = bytes.len();
    assert(n == text@.len());
    assert(forall|i: int| 0 <= i < n ==> bytes@[i] as int == text@[i] as int);
    let start: usize = if n > 0 && bytes[0] == 43 {
        1
    } else {
        0
    };
    assert(digits.len() == n - start);
    assert(forall|j: int| 0 <= j < digits.len() ==> digits[j] == text@[start + j]);
    if start == n {
        return None;
    }
    let mut value: u64 = 0;
    let mut i: usize = start;
    assert(digits.take(0) =~= Seq::<char>::empty());
    while i < n
        invariant
            start <= i <= n,
            n == bytes@.len(),
            digits == unsigned_part(text@),
            digits.len() == n - start,
            forall|j: int| 0 <= j < digits.len() ==> digits[j] as int == bytes@[start + j] as int,
            forall|j: int| 0 <= j < i - start ==> is_digit(#[trigger] digits[j]),
            value == digits_value(digits.take(i - start)),
        decreases n - i,
    {
        let byte = bytes[i];
        if byte < 48 || byte > 57 {
            assert(!is_digit(digits[i - start]));
            return None;
        }
        let digit: u64 = (byte - 48) as u64;
        proof {
            let longer = digits.take(i - start + 1);
            assert(longer.drop_last() =~= digits.take(i - start));
            assert(longer.last() == digits[i - start]);
            assert(digits_value(longer) == value * 10 + digit);
        }
        if value > (u64::MAX - digit) / 10 {
            proof {
                if forall|j: int| 0 <= j < digits.len() ==> is_digit(#[trigger] digits[j]) {
                    lemma_digits_value_grows(digits, i - start + 1);
                }
            }
            return None;
        }
        value = value * 10 + digit;
        i += 1;
    }
    assert(digits.take(i - start) =~= digits);
    Some(value)
}

/// The value in `0 ..= u64::MAX` nearest to `x`.
pub open spec fn clamp_u64(x: int) -> u64 {
    if x < 0 {
        0
    } else if x > u64::MAX {
        u64::MAX
    } else {
        x as u64
    }
}

/// The value in `i64::MIN ..= i64::MAX` nearest to `x`.
pub open spec fn clamp_i64(x: int) -> i64 {
    if x < i64::MIN {
        i64::MIN
    } else if x > i64::MAX {
        i64::MAX
    } else {
        x as i64
    }
}

/// The absolute value of `x`.
pub open spec fn magnitude(x: int) -> int {
    if x < 0 {
        -x
    } else {
        x
    }
}

/// The change from `pre` to `post`, held to the range of `i64`.
pub fn signed_delta(pre: u64, post: u64) -> (change: i64)
    ensures
        change == clamp_i64(post - pre),
{
    if post >= pre {
        let up: u64 = post - pre;
        if up > 9223372036854775807u64 {
            i64::MAX
        } else {
            up as i64
        }
    } else {
        let down: u64 = pre - post;
        if down >= 9223372036854775808u64 {
            i64::MIN
        } else {
            -(down as i64)
        }
    }
}

/// The absolute value of a change, which always fits in `u64`.
pub fn unsigned_magnitude(change: i64) -> (size: u64)
    ensures
        size == magnitude(change as int),
{
    if change >= 0 {
        change as u64
    } else if change == i64::MIN {
        9223372036854775808u64
    } else {
        (-change) as u64
    }
}

/// A balance moved by the difference of two totals, held to the range of
/// `u64`.
pub fn shifted_balance(balance: u64, gained: u128, lost: u128) -> (moved: u64)
    ensures
        moved == clamp_u64(balance + gained - lost),
{
    if gained >= lost {
        let up: u128 = gained - lost;
        let room: u64 = u64::MAX - balance;
        if up > room as u128 {
            u64::MAX
        } else {
            balance + (up as u64)
        }
    } else {
        let down: u128 = lost - gained;
        if down >= balance as u128 {
            0
        } else {
            balance - (down as u64)
        }
    }
}

} // verus!
