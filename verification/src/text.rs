//! Text primitives: the bytes of JSON punctuation, unsigned decimal numbers,
//! and the two calls into the standard library's text handling that the
//! verified code makes.

use vstd::prelude::*;
use vstd::string::*;
use vstd::utf8::*;

verus! {

/// The byte `"`.
pub const QUOTE: u8 = 0x22;

/// The byte `,`.
pub const COMMA: u8 = 0x2C;

/// The byte `[`.
pub const OPEN_BRACKET: u8 = 0x5B;

/// The byte `\`.
pub const BACKSLASH: u8 = 0x5C;

/// The byte `]`.
pub const CLOSE_BRACKET: u8 = 0x5D;

/// The byte `{`.
pub const OPEN_BRACE: u8 = 0x7B;

/// The byte `}`.
pub const CLOSE_BRACE: u8 = 0x7D;

/// `text` without its leading and trailing whitespace, as `str::trim` gives
/// it. Whitespace is what Unicode's `White_Space` property says it is.
pub uninterp spec fn trimmed(text: Seq<char>) -> Seq<char>;

/// Calls `str::trim`. Trusted: the result is the slice that `trimmed` names.
#[verifier::external_body]
pub(crate) fn trim_text(text: &str) -> (inner: &str)
    ensures
        inner@ == trimmed(text@),
{
    text.trim()
}

/// Calls `std::str::from_utf8`. Trusted: the bytes are read as text exactly
/// where they are well-formed UTF-8, and the text then decodes them.
#[verifier::external_body]
pub(crate) fn utf8_text(bytes: &[u8]) -> (text: Option<&str>)
    ensures
        text is Some <==> valid_utf8(bytes@),
        text matches Some(t) ==> t@ == decode_utf8(bytes@),
{
    std::str::from_utf8(bytes).ok()
}

/// The byte `+`.
pub const PLUS: u8 = 0x2B;

/// The byte `0`.
pub const DIGIT_ZERO: u8 = 0x30;

/// The byte `9`.
pub const DIGIT_NINE: u8 = 0x39;

/// Whether a byte is a decimal digit.
pub open spec fn is_digit(byte: u8) -> bool {
    DIGIT_ZERO <= byte <= DIGIT_NINE
}

/// The number that decimal digits stand for, most significant first.
pub open spec fn digits_value(digits: Seq<u8>) -> nat
    decreases digits.len(),
{
    if digits.len() == 0 {
        0
    } else {
        digits_value(digits.drop_last()) * 10 + (digits.last() - DIGIT_ZERO) as nat
    }
}

/// The digits of a number in text: the text without a leading `+`.
pub open spec fn unsigned_digits(text: Seq<u8>) -> Seq<u8> {
    if text.len() > 0 && text[0] == PLUS {
        text.drop_first()
    } else {
        text
    }
}

/// The number that `text` stands for: an optional `+`, then one or more
/// decimal digits and nothing else, with a value of at most `max`.
pub open spec fn parsed_unsigned(text: Seq<u8>, max: nat) -> Option<nat> {
    let digits = unsigned_digits(text);
    if digits.len() > 0 && (forall|i: int| 0 <= i < digits.len() ==> is_digit(#[trigger] digits[i]))
        && digits_value(digits) <= max {
        Some(digits_value(digits))
    } else {
        None
    }
}

/// More digits do not stand for a smaller number.
pub proof fn lemma_digits_value_grows(digits: Seq<u8>, shorter: int)
    requires
        0 <= shorter <= digits.len(),
        forall|i: int| 0 <= i < digits.len() ==> is_digit(#[trigger] digits[i]),
    ensures
        digits_value(digits.take(shorter)) <= digits_value(digits),
    decreases digits.len() - shorter,
{
    if shorter < digits.len() {
        let longer = digits.take(shorter + 1);
        assert(longer.drop_last() == digits.take(shorter));
        assert(longer.last() == digits[shorter]);
        lemma_digits_value_grows(digits, shorter + 1);
    } else {
        assert(digits.take(shorter) == digits);
    }
}

/// Reads an unsigned decimal number of at most `max` from text.
pub fn parse_unsigned(text: &str, max: u64) -> (number: Option<u64>)
    ensures
        number == match parsed_unsigned(text.spec_bytes(), max as nat) {
            Some(value) => Some(value as u64),
            None => None,
        },
        number matches Some(value) ==> value <= max,
{
    let bytes = text.as_bytes();
    let start: usize = if bytes.len() > 0 && bytes[0] == PLUS {
        1
    } else {
        0
    };
    let ghost digits = unsigned_digits(bytes@);
    assert(digits == bytes@.skip(start as int));
    if start == bytes.len() {
        return None;
    }
    let mut value: u64 = 0;
    let mut i: usize = start;
    while i < bytes.len()
        invariant
            start <= i <= bytes.len(),
            digits == unsigned_digits(text.spec_bytes()),
            digits == bytes@.skip(start as int),
            forall|k: int| 0 <= k < i - start ==> is_digit(#[trigger] digits[k]),
            value == digits_value(digits.take(i - start)),
            value <= max,
        decreases bytes.len() - i,
    {
        let byte: u8 = bytes[i];
        assert(digits[i - start] == byte);
        if byte < DIGIT_ZERO || byte > DIGIT_NINE {
            assert(!is_digit(digits[i - start]));
            return None;
        }
        let digit: u64 = (byte - DIGIT_ZERO) as u64;
        proof {
            let longer = digits.take(i - start + 1);
            assert(longer.drop_last() == digits.take(i - start));
            assert(longer.last() == byte);
        }
        if max < digit || value > (max - digit) / 10 {
            proof {
                if forall|k: int| 0 <= k < digits.len() ==> is_digit(#[trigger] digits[k]) {
                    lemma_digits_value_grows(digits, i - start + 1);
                }
            }
            return None;
        }
        value = value * 10 + digit;
        i = i + 1;
    }
    assert(digits.take(i - start) == digits);
    Some(value)
}

} // verus!
