//! Text as the game stores it.

use vstd::prelude::*;
use vstd::utf8::{decode_utf8 as utf8_text, valid_utf8};

verus! {

/// The text that a sequence of UTF-16 code units stands for, or `None` where
/// the units are not valid UTF-16.
pub uninterp spec fn utf16_decoding(units: Seq<u16>) -> Option<Seq<char>>;

/// Decodes UTF-16 code units with the standard library's
/// `String::from_utf16`, which gives the text that the units stand for and
/// fails if they hold any invalid data. The outcome depends on the units
/// alone.
#[verifier::external_body]
pub(crate) fn decode_utf16(units: &[u16]) -> (r: Option<String>)
    ensures
        match r {
            Some(text) => utf16_decoding(units@) == Some(text@),
            None => utf16_decoding(units@) is None,
        },
{
    String::from_utf16(units).ok()
}

/// Decodes UTF-8 bytes with the standard library's `String::from_utf8`,
/// which succeeds exactly on bytes that are valid UTF-8 and then gives the
/// text that they encode.
#[verifier::external_body]
pub(crate) fn decode_utf8(bytes: Vec<u8>) -> (r: Option<String>)
    ensures
        r is Some <==> valid_utf8(bytes@),
        r is Some ==> r->Some_0@ == utf8_text(bytes@),
{
    String::from_utf8(bytes).ok()
}

/// Whether `c` is one of the ten ASCII digits.
pub open spec fn is_digit(c: char) -> bool {
    0x30 <= c as u32 <= 0x39
}

/// The digit that stands for `d`, for a `d` below ten.
pub open spec fn digit_char(d: nat) -> char {
    (0x30 + d) as u8 as char
}

/// The number that a run of digits stands for in decimal, most significant
/// digit first. The empty run stands for zero.
pub open spec fn digits_value(digits: Seq<char>) -> int
    decreases digits.len(),
{
    if digits.len() == 0 {
        0
    } else {
        digits_value(digits.drop_last()) * 10 + (digits.last() as u32 - 0x30)
    }
}

/// The digits of `n` in decimal, most significant digit first, without
/// leading zeros. Zero is the one digit `0`.
pub open spec fn decimal_digits(n: nat) -> Seq<char>
    decreases n,
{
    if n < 10 {
        seq![digit_char(n)]
    } else {
        decimal_digits(n / 10).push(digit_char(n % 10))
    }
}

/// The number that a text stands for when it is read as a decimal number of
/// 32 bits: an optional `+`, then one or more ASCII digits and nothing
/// else, which stand for a number that fits in 32 bits. Leading zeros are in
/// order. `None` for every other text.
pub open spec fn decimal_u32(text: Seq<char>) -> Option<u32> {
    let digits = if text.len() > 0 && text[0] == '+' {
        text.drop_first()
    } else {
        text
    };
    if digits.len() > 0 && (forall|i: int| 0 <= i < digits.len() ==> is_digit(#[trigger] digits[i]))
        && digits_value(digits) <= u32::MAX {
        Some(digits_value(digits) as u32)
    } else {
        None
    }
}

/// The digits of a number are read back as that number.
pub proof fn lemma_decimal_round_trip(n: u32)
    ensures
        decimal_u32(decimal_digits(n as nat)) == Some(n),
{
    lemma_decimal_digits(n as nat);
}

/// What [`decimal_digits`] gives: at least one digit, nothing but digits,
/// and they stand for the number.
pub proof fn lemma_decimal_digits(n: nat)
    ensures
        decimal_digits(n).len() > 0,
        forall|i: int| 0 <= i < decimal_digits(n).len() ==> is_digit(#[trigger] decimal_digits(n)[i]),
        digits_value(decimal_digits(n)) == n,
    decreases n,
{
    let digits = decimal_digits(n);
    if n < 10 {
        assert(digits.drop_last() =~= Seq::<char>::empty());
        assert(digits.last() == digit_char(n));
        assert(digits_value(digits.drop_last()) == 0);
    } else {
        lemma_decimal_digits(n / 10);
        assert(digits.drop_last() =~= decimal_digits(n / 10));
        assert(digits.last() == digit_char(n % 10));
    }
}

/// Reads a decimal number with the standard library's `str::parse::<u32>`,
/// which takes an optional `+` followed by only digits, and fails on the
/// empty text, on any other character and on a number that doesn't fit in
/// 32 bits.
#[verifier::external_body]
pub(crate) fn parse_u32(text: &str) -> (r: Option<u32>)
    ensures
        r == decimal_u32(text@),
{
    text.parse::<u32>().ok()
}

/// Writes a label, a colon and a number with the standard library's
/// `format!`, which writes the label as it is and the number in decimal
/// without sign or leading zeros.
#[verifier::external_body]
pub(crate) fn labelled_number(label: &str, number: u32) -> (text: String)
    ensures
        text@ == label@ + seq![':'] + decimal_digits(number as nat),
{
    format!("{}:{}", label, number)
}

/// Where the first zero byte at or after `from` lies in `bytes`, or the
/// length of `bytes` where there is none.
pub open spec fn terminator(bytes: Seq<u8>, from: int) -> int
    decreases bytes.len() - from,
{
    if from < 0 || from >= bytes.len() {
        bytes.len() as int
    } else if bytes[from] == 0 {
        from
    } else {
        terminator(bytes, from + 1)
    }
}

/// What [`terminator`] means: no byte in front of it is zero, and the byte
/// at it is, unless it is the end of `bytes`.
pub proof fn lemma_terminator(bytes: Seq<u8>, from: int)
    requires
        0 <= from <= bytes.len(),
    ensures
        from <= terminator(bytes, from) <= bytes.len(),
        forall|i: int| from <= i < terminator(bytes, from) ==> bytes[i] != 0,
        terminator(bytes, from) < bytes.len() ==> bytes[terminator(bytes, from)] == 0,
    decreases bytes.len() - from,
{
    if from < bytes.len() && bytes[from] != 0 {
        lemma_terminator(bytes, from + 1);
    }
}

/// Returns where the zero-terminated text that starts at `from` ends: the
/// index of the first zero byte at or after `from`. `None` means that no
/// zero byte follows, so the text is not terminated inside `bytes`.
pub fn find_terminator(bytes: &[u8], from: usize) -> (r: Option<usize>)
    ensures
        r is Some <==> from <= bytes@.len() && terminator(bytes@, from as int) < bytes@.len(),
        r is Some ==> r->Some_0 == terminator(bytes@, from as int),
{
    if from > bytes.len() {
        return None;
    }
    let mut i: usize = from;
    while i < bytes.len()
        invariant
            from <= i <= bytes@.len(),
            terminator(bytes@, from as int) == terminator(bytes@, i as int),
        decreases bytes@.len() - i,
    {
        if bytes[i] == 0 {
            return Some(i);
        }
        i += 1;
    }
    None
}

/// Returns whether two runs of bytes hold the same bytes.
pub fn bytes_equal(a: &[u8], b: &[u8]) -> (same: bool)
    ensures
        same == (a@ == b@),
{
    if a.len() != b.len() {
        return false;
    }
    let mut i: usize = 0;
    while i < a.len()
        invariant
            i <= a@.len(),
            a@.len() == b@.len(),
            forall|j: int| 0 <= j < i ==> a@[j] == b@[j],
        decreases a@.len() - i,
    {
        if a[i] != b[i] {
            return false;
        }
        i += 1;
    }
    assert(a@ =~= b@);
    true
}

/// Where the text in `units` ends when it is read from `from` on: at the
/// first zero unit, or at the end of `units` where there is none.
pub open spec fn text_end(units: Seq<u16>, from: int) -> int
    decreases units.len() - from,
{
    if from < 0 || from >= units.len() {
        units.len() as int
    } else if units[from] == 0 {
        from
    } else {
        text_end(units, from + 1)
    }
}

/// The units of `units` in front of the first zero unit.
pub open spec fn terminated_text(units: Seq<u16>) -> Seq<u16> {
    units.subrange(0, text_end(units, 0))
}

/// What [`text_end`] means: no unit in front of the end is zero, and the
/// unit at the end is, unless the end is the end of `units`.
pub proof fn lemma_text_end(units: Seq<u16>, from: int)
    requires
        0 <= from <= units.len(),
    ensures
        from <= text_end(units, from) <= units.len(),
        forall|i: int| from <= i < text_end(units, from) ==> units[i] != 0,
        text_end(units, from) < units.len() ==> units[text_end(units, from)] == 0,
    decreases units.len() - from,
{
    if from < units.len() && units[from] != 0 {
        lemma_text_end(units, from + 1);
    }
}

/// Returns where the text in `units` ends: the index of the first zero unit,
/// or the length of `units` where there is none.
pub fn find_text_end(units: &[u16]) -> (end: usize)
    ensures
        end == text_end(units@, 0),
        end <= units@.len(),
{
    let mut i: usize = 0;
    while i < units.len()
        invariant
            i <= units@.len(),
            text_end(units@, 0) == text_end(units@, i as int),
        decreases units@.len() - i,
    {
        if units[i] == 0 {
            return i;
        }
        i += 1;
    }
    i
}

} // verus!
