//! Byte-level helpers: searching, decimal numbers and UTF-8.

use vstd::prelude::*;
use vstd::slice::slice_subrange;
use vstd::utf8::{
    decode_utf8, encode_scalar, is_char_boundary, is_char_boundary_iff_not_is_continuation_byte,
    is_char_boundary_start_end_of_seq, pop_first_scalar, valid_utf8, valid_utf8_split,
};

verus! {

/// The index of the first occurrence of `target` in `bytes`, or the length of
/// `bytes` where it does not occur.
pub open spec fn position(bytes: Seq<u8>, target: u8) -> int
    decreases bytes.len(),
{
    if bytes.len() == 0 || bytes[0] == target {
        0
    } else {
        1 + position(bytes.drop_first(), target)
    }
}

/// `position` is the one index that holds `target` and has no `target` before it.
pub proof fn lemma_position_unique(bytes: Seq<u8>, target: u8, i: int)
    requires
        0 <= i <= bytes.len(),
        forall|j: int| 0 <= j < i ==> bytes[j] != target,
        i < bytes.len() ==> bytes[i] == target,
    ensures
        position(bytes, target) == i,
    decreases bytes.len(),
{
    if i > 0 {
        let rest = bytes.drop_first();
        assert forall|j: int| 0 <= j < i - 1 implies rest[j] != target by {
            assert(rest[j] == bytes[j + 1]);
        }
        lemma_position_unique(rest, target, i - 1);
    }
}

/// `position` lies within the sequence, points at `target` unless it is the
/// length, and has no `target` before it.
pub proof fn lemma_position_bounds(bytes: Seq<u8>, target: u8)
    ensures
        0 <= position(bytes, target) <= bytes.len(),
        position(bytes, target) < bytes.len() ==> bytes[position(bytes, target)] == target,
        forall|j: int| 0 <= j < position(bytes, target) ==> bytes[j] != target,
    decreases bytes.len(),
{
    if bytes.len() != 0 && bytes[0] != target {
        let rest = bytes.drop_first();
        lemma_position_bounds(rest, target);
        assert forall|j: int| 0 <= j < position(bytes, target) implies bytes[j] != target by {
            if j > 0 {
                assert(rest[j - 1] == bytes[j]);
            }
        }
    }
}

/// Finds the first occurrence of `target` in `bytes`.
pub fn find_byte(bytes: &[u8], target: u8) -> (found: Option<usize>)
    ensures
        found matches Some(i) ==> i < bytes@.len() && i == position(bytes@, target),
        found is None <==> position(bytes@, target) == bytes@.len(),
{
    let mut i: usize = 0;
    while i < bytes.len()
        invariant
            i <= bytes@.len(),
            forall|j: int| 0 <= j < i ==> bytes@[j] != target,
        decreases bytes@.len() - i,
    {
        if bytes[i] == target {
            proof {
                lemma_position_unique(bytes@, target, i as int);
            }
            return Some(i);
        }
        i += 1;
    }
    proof {
        lemma_position_unique(bytes@, target, i as int);
    }
    None
}

/// True for the bytes `0` to `9`.
pub open spec fn is_digit(byte: u8) -> bool {
    0x30 <= byte <= 0x39
}

/// True when every byte is a decimal digit.
pub open spec fn all_digits(bytes: Seq<u8>) -> bool {
    forall|i: int| 0 <= i < bytes.len() ==> is_digit(#[trigger] bytes[i])
}

/// The number that a sequence of decimal digits writes.
pub open spec fn digits_value(digits: Seq<u8>) -> nat
    decreases digits.len(),
{
    if digits.len() == 0 {
        0
    } else {
        (digits_value(digits.drop_last()) * 10 + (digits.last() - 0x30)) as nat
    }
}

/// The digits of a decimal number: the text itself, without one leading `+`.
pub open spec fn unsigned_digits(text: Seq<u8>) -> Seq<u8> {
    if text.len() > 0 && text[0] == 0x2B {
        text.drop_first()
    } else {
        text
    }
}

/// The number that `text` writes in decimal: an optional `+` and then one or
/// more digits, with a value that fits in `usize`. Any other text has no value.
pub open spec fn decimal_value(text: Seq<u8>) -> Option<usize> {
    let digits = unsigned_digits(text);
    if digits.len() > 0 && all_digits(digits) && digits_value(digits) <= usize::MAX {
        Some(digits_value(digits) as usize)
    } else {
        None
    }
}

/// A number is at least as large as the number that a prefix of its digits writes.
pub proof fn lemma_digits_value_prefix(digits: Seq<u8>, k: int)
    requires
        all_digits(digits),
        0 <= k <= digits.len(),
    ensures
        digits_value(digits.subrange(0, k)) <= digits_value(digits),
    decreases digits.len() - k,
{
    if k == digits.len() {
        assert(digits.subrange(0, k) =~= digits);
    } else {
        let longer = digits.subrange(0, k + 1);
        assert(longer.drop_last() =~= digits.subrange(0, k));
        assert(is_digit(digits[k]));
        assert(longer.last() == digits[k]);
        lemma_digits_value_prefix(digits, k + 1);
    }
}

/// Reads a decimal number.
pub fn parse_decimal(text: &[u8]) -> (value: Option<usize>)
    ensures
        value == decimal_value(text@),
{
    let start: usize = if text.len() > 0 && text[0] == 0x2B {
        1
    } else {
        0
    };
    let digits = slice_subrange(text, start, text.len());
    assert(digits@ =~= unsigned_digits(text@));
    if digits.len() == 0 {
        return None;
    }
    let mut acc: usize = 0;
    let mut i: usize = 0;
    while i < digits.len()
        invariant
            i <= digits@.len(),
            digits@.len() > 0,
            digits@ == unsigned_digits(text@),
            forall|j: int| 0 <= j < i ==> is_digit(#[trigger] digits@[j]),
            acc == digits_value(digits@.subrange(0, i as int)),
        decreases digits@.len() - i,
    {
        let byte: u8 = digits[i];
        if byte < 0x30 || byte > 0x39 {
            assert(!is_digit(digits@[i as int]));
            return None;
        }
        let ghost longer = digits@.subrange(0, i + 1);
        proof {
            assert(longer.drop_last() =~= digits@.subrange(0, i as int));
            assert(longer.last() == byte);
        }
        let next = match acc.checked_mul(10) {
            Some(scaled) => scaled.checked_add((byte - 0x30) as usize),
            None => None,
        };
        match next {
            Some(n) => {
                acc = n;
            },
            None => {
                proof {
                    assert(digits_value(longer) > usize::MAX);
                    if all_digits(digits@) {
                        lemma_digits_value_prefix(digits@, i + 1);
                    }
                }
                return None;
            },
        }
        i += 1;
    }
    assert(digits@.subrange(0, i as int) =~= digits@);
    Some(acc)
}

/// `unit` written `count` times in a row.
pub open spec fn repeated(unit: Seq<u8>, count: nat) -> Seq<u8>
    decreases count,
{
    if count == 0 {
        Seq::empty()
    } else {
        repeated(unit, (count - 1) as nat) + unit
    }
}

/// Appends the UTF-8 encoding of a character to `out`.
pub fn encode_char(c: char, out: &mut Vec<u8>)
    ensures
        final(out)@ == old(out)@ + encode_scalar(c as u32),
{
    let v: u32 = c as u32;
    proof {
        vstd::utf8::char_is_scalar(c);
    }
    if v < 0x80 {
        let b1: u8 = v as u8;
        assert(b1 == (v & 0x7F) as u8) by (bit_vector)
            requires
                v < 0x80,
                b1 == v as u8,
        ;
        out.push(b1);
        assert(out@ =~= old(out)@ + encode_scalar(v));
    } else if v < 0x800 {
        let b1: u8 = 0xC0 | ((v >> 6) & 0x1F) as u8;
        let b2: u8 = 0x80 | (v & 0x3F) as u8;
        out.push(b1);
        out.push(b2);
        assert(out@ =~= old(out)@ + encode_scalar(v));
    } else if v < 0x10000 {
        let b1: u8 = 0xE0 | ((v >> 12) & 0x0F) as u8;
        let b2: u8 = 0x80 | ((v >> 6) & 0x3F) as u8;
        let b3: u8 = 0x80 | (v & 0x3F) as u8;
        out.push(b1);
        out.push(b2);
        out.push(b3);
        assert(out@ =~= old(out)@ + encode_scalar(v));
    } else {
        let b1: u8 = 0xF0 | ((v >> 18) & 0x7) as u8;
        let b2: u8 = 0x80 | ((v >> 12) & 0x3F) as u8;
        let b3: u8 = 0x80 | ((v >> 6) & 0x3F) as u8;
        let b4: u8 = 0x80 | (v & 0x3F) as u8;
        out.push(b1);
        out.push(b2);
        out.push(b3);
        out.push(b4);
        assert(out@ =~= old(out)@ + encode_scalar(v));
    }
}

/// In UTF-8 text a character starts at every ASCII byte, and another one
/// starts, or the text ends, right after it.
pub proof fn lemma_ascii_is_a_boundary(bytes: Seq<u8>, i: int)
    requires
        valid_utf8(bytes),
        0 <= i < bytes.len(),
        bytes[i] < 0x80,
    ensures
        is_char_boundary(bytes, i),
        is_char_boundary(bytes, i + 1),
{
    let len = bytes.len() as int;
    is_char_boundary_iff_not_is_continuation_byte(bytes, i);
    valid_utf8_split(bytes, i);
    let suffix = bytes.subrange(i, len);
    assert(suffix[0] == bytes[i]);
    let rest = pop_first_scalar(suffix);
    assert(rest =~= bytes.subrange(i + 1, len));
    assert(valid_utf8(rest));
    if i + 1 == len {
        is_char_boundary_start_end_of_seq(bytes);
    } else {
        is_char_boundary_start_end_of_seq(rest);
        is_char_boundary_iff_not_is_continuation_byte(rest, 0);
        assert(rest[0] == bytes[i + 1]);
        is_char_boundary_iff_not_is_continuation_byte(bytes, i + 1);
    }
}

/// The bytes between two character boundaries of UTF-8 text are UTF-8 text.
pub proof fn lemma_utf8_between_boundaries(bytes: Seq<u8>, from: int, to: int)
    requires
        valid_utf8(bytes),
        0 <= from <= to <= bytes.len(),
        is_char_boundary(bytes, from),
        is_char_boundary(bytes, to),
    ensures
        valid_utf8(bytes.subrange(from, to)),
{
    valid_utf8_split(bytes, to);
    let prefix = bytes.subrange(0, to);
    if from == to {
        is_char_boundary_start_end_of_seq(prefix);
    } else if from > 0 {
        is_char_boundary_iff_not_is_continuation_byte(bytes, from);
        assert(prefix[from] == bytes[from]);
        is_char_boundary_iff_not_is_continuation_byte(prefix, from);
    }
    assert(is_char_boundary(prefix, from));
    valid_utf8_split(prefix, from);
    assert(prefix.subrange(from, to) =~= bytes.subrange(from, to));
}

/// Decodes bytes as UTF-8 text with `String::from_utf8`. The contract claims
/// what the standard library documents: the call succeeds exactly on
/// well-formed UTF-8, and the string then holds the characters that the bytes
/// encode.
#[verifier::external_body]
pub(crate) fn string_from_utf8(bytes: Vec<u8>) -> (text: Option<String>)
    ensures
        text is Some <==> valid_utf8(bytes@),
        text matches Some(s) ==> s@ == decode_utf8(bytes@),
{
    String::from_utf8(bytes).ok()
}

} // verus!
