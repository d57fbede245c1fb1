//! What the session reads out of a line of input: the line without the white
//! space around it, whether two texts are the same, and task identifiers
//! written in decimal.

use vstd::prelude::*;
use vstd::utf8::{encode_utf8, encode_utf8_decode_utf8, is_ascii_chars, is_ascii_chars_encode_utf8};

verus! {

/// The text that `str::trim` returns for `text`.
pub uninterp spec fn trimmed(text: Seq<char>) -> Seq<char>;

/// Calls `str::trim`, which returns the slice of `text` that is left when
/// leading and trailing white space is removed. What counts as white space is
/// a table of the Unicode standard, so the result is only given a name here;
/// it depends on nothing but the text.
#[verifier::external_body]
pub(crate) fn trim(text: &str) -> (word: &str)
    ensures
        word@ == trimmed(text@),
{
    text.trim()
}

/// Whether two texts consist of the same characters.
pub fn same_text(left: &str, right: &str) -> (same: bool)
    ensures
        same == (left@ == right@),
{
    let a = left.as_bytes();
    let b = right.as_bytes();
    proof {
        // A text is recovered from its bytes, so equal bytes mean equal texts.
        encode_utf8_decode_utf8(left@);
        encode_utf8_decode_utf8(right@);
    }
    if a.len() != b.len() {
        return false;
    }
    let mut i: usize = 0;
    while i < a.len()
        invariant
            i <= a.len(),
            a.len() == b.len(),
            a@ == encode_utf8(left@),
            b@ == encode_utf8(right@),
            forall|k: int| 0 <= k < i ==> a@[k] == b@[k],
        decreases a.len() - i,
    {
        if a[i] != b[i] {
            return false;
        }
        i += 1;
    }
    assert(a@ =~= b@);
    true
}

/// Whether `c` is one of the ten decimal digits.
pub open spec fn is_digit(c: char) -> bool {
    '0' <= c <= '9'
}

/// The number that a decimal digit stands for; zero for any other character.
pub open spec fn digit_value(c: char) -> nat {
    if is_digit(c) {
        (c as int - '0' as int) as nat
    } else {
        0
    }
}

/// Whether `text` holds decimal digits and nothing else.
pub open spec fn all_digits(text: Seq<char>) -> bool {
    forall|i: int| 0 <= i < text.len() ==> is_digit(#[trigger] text[i])
}

/// The number that a row of decimal digits denotes, the first digit counting
/// most. The empty row denotes zero.
pub open spec fn decimal_value(digits: Seq<char>) -> nat
    decreases digits.len(),
{
    if digits.len() == 0 {
        0
    } else {
        decimal_value(digits.drop_last()) * 10 + digit_value(digits.last())
    }
}

/// `text` without the plus sign that may stand in front of a number.
pub open spec fn unsigned(text: Seq<char>) -> Seq<char> {
    if text.len() > 0 && text[0] == '+' {
        text.drop_first()
    } else {
        text
    }
}

/// The task identifier that `text` denotes, if it denotes one: an optional
/// plus sign, then one or more decimal digits whose value fits the machine
/// word. Anything else around or between the digits, white space included,
/// makes the text denote nothing.
pub open spec fn id_of(text: Seq<char>) -> Option<usize> {
    let digits = unsigned(text);
    if digits.len() > 0 && all_digits(digits) && decimal_value(digits) <= usize::MAX {
        Some(decimal_value(digits) as usize)
    } else {
        None
    }
}

/// A leading part of a row of digits never denotes more than the whole row.
pub proof fn lemma_prefix_value(digits: Seq<char>, k: int)
    requires
        0 <= k <= digits.len(),
    ensures
        decimal_value(digits.subrange(0, k)) <= decimal_value(digits),
    decreases digits.len(),
{
    if k == digits.len() {
        assert(digits.subrange(0, k) =~= digits);
    } else {
        assert(digits.drop_last().subrange(0, k) =~= digits.subrange(0, k));
        lemma_prefix_value(digits.drop_last(), k);
    }
}

/// A text with a character beyond ASCII in it denotes no identifier.
proof fn lemma_id_is_ascii(text: Seq<char>)
    requires
        !is_ascii_chars(text),
    ensures
        id_of(text) is None,
{
    let i = choose|i: int| 0 <= i < text.len() && !('\0' <= #[trigger] text[i] <= '\u{7f}');
    let digits = unsigned(text);
    // The character is no plus sign, so it stands where a digit ought to be.
    let k = if digits.len() == text.len() {
        i
    } else {
        i - 1
    };
    assert(!is_digit(digits[k]));
}

const PLUS_SIGN: u8 = 43;

const DIGIT_ZERO: u8 = 48;

const DIGIT_NINE: u8 = 57;

/// Reads a task identifier written in decimal.
pub fn parse_id(text: &str) -> (id: Option<usize>)
    ensures
        id == id_of(text@),
{
    if !text.is_ascii() {
        proof {
            lemma_id_is_ascii(text@);
        }
        return None;
    }
    let bytes = text.as_bytes();
    proof {
        // Within ASCII every character is one byte, with the same number.
        is_ascii_chars_encode_utf8(text@);
    }
    let n: usize = bytes.len();
    let mut i: usize = 0;
    if n > 0 && bytes[0] == PLUS_SIGN {
        i = 1;
    }
    let start: usize = i;
    let ghost digits = unsigned(text@);
    if i == n {
        return None;
    }
    let mut value: usize = 0;
    while i < n
        invariant
            start <= i <= n,
            n == text@.len(),
            n == bytes@.len(),
            is_ascii_chars(text@),
            forall|k: int| 0 <= k < n ==> #[trigger] text@[k] as u8 == bytes@[k],
            digits == unsigned(text@),
            digits == text@.subrange(start as int, n as int),
            all_digits(digits.subrange(0, i - start)),
            value == decimal_value(digits.subrange(0, i - start)),
        decreases n - i,
    {
        let byte: u8 = bytes[i];
        let ghost seen = digits.subrange(0, i - start);
        let ghost more = digits.subrange(0, i + 1 - start);
        assert(more.drop_last() =~= seen);
        if byte < DIGIT_ZERO || byte > DIGIT_NINE {
            assert(!is_digit(digits[i - start]));
            return None;
        }
        let digit: usize = (byte - DIGIT_ZERO) as usize;
        proof {
            // Should the digits read so far denote more than fits, so does
            // the whole row.
            lemma_prefix_value(digits, i + 1 - start);
        }
        let tens: usize = match value.checked_mul(10) {
            Some(tens) => tens,
            None => {
                return None;
            },
        };
        value = match tens.checked_add(digit) {
            Some(sum) => sum,
            None => {
                return None;
            },
        };
        i += 1;
    }
    assert(digits.subrange(0, n - start) =~= digits);
    Some(value)
}

} // verus!
