//! Counting the characters of UTF-8 text held as bytes.
use vstd::prelude::*;
use vstd::utf8::{
    decode_utf8, is_leading_byte_width_1, is_leading_byte_width_2, is_leading_byte_width_3,
    length_of_first_scalar, pop_first_scalar, valid_first_scalar, valid_utf8,
};

verus! {

/// Whether byte `i` of `s` exists and lies in `lo..=hi`.
pub open spec fn byte_in(s: Seq<u8>, i: int, lo: u8, hi: u8) -> bool {
    0 <= i < s.len() && lo <= s[i] <= hi
}

/// The length in bytes of the well-formed UTF-8 character that `s` starts
/// with, or 0 when it does not start with one. The well-formed byte
/// sequences are those of the Unicode Standard's table of well-formed
/// UTF-8 (no overlong forms, no surrogates, nothing above U+10FFFF).
pub open spec fn first_char_len(s: Seq<u8>) -> nat {
    if byte_in(s, 0, 0x00, 0x7F) {
        1
    } else if byte_in(s, 0, 0xC2, 0xDF) && byte_in(s, 1, 0x80, 0xBF) {
        2
    } else if ((byte_in(s, 0, 0xE0, 0xE0) && byte_in(s, 1, 0xA0, 0xBF)) || (byte_in(
        s,
        0,
        0xE1,
        0xEC,
    ) && byte_in(s, 1, 0x80, 0xBF)) || (byte_in(s, 0, 0xED, 0xED) && byte_in(s, 1, 0x80, 0x9F))
        || (byte_in(s, 0, 0xEE, 0xEF) && byte_in(s, 1, 0x80, 0xBF))) && byte_in(s, 2, 0x80, 0xBF) {
        3
    } else if ((byte_in(s, 0, 0xF0, 0xF0) && byte_in(s, 1, 0x90, 0xBF)) || (byte_in(
        s,
        0,
        0xF1,
        0xF3,
    ) && byte_in(s, 1, 0x80, 0xBF)) || (byte_in(s, 0, 0xF4, 0xF4) && byte_in(s, 1, 0x80, 0x8F)))
        && byte_in(s, 2, 0x80, 0xBF) && byte_in(s, 3, 0x80, 0xBF) {
        4
    } else {
        0
    }
}

/// How many bytes the first character of nonempty `s` takes: a well-formed
/// character takes its length, and a byte that does not start one is a
/// character of its own.
pub open spec fn first_step(s: Seq<u8>) -> nat {
    if first_char_len(s) == 0 {
        1
    } else {
        first_char_len(s)
    }
}

/// The number of characters of the text `s`. On well-formed UTF-8 this is
/// its number of Unicode characters; each byte that does not start a
/// well-formed character counts as one character, as it would if it were
/// replaced by U+FFFD.
pub open spec fn char_count(s: Seq<u8>) -> nat
    decreases s.len(),
{
    if s.len() == 0 {
        0
    } else {
        1 + char_count(s.skip(first_step(s) as int))
    }
}

/// A character takes one to four bytes: the text has at most as many
/// characters as bytes, and at least a quarter as many.
pub proof fn lemma_char_count_bounds(s: Seq<u8>)
    ensures
        char_count(s) <= s.len() <= 4 * char_count(s),
    decreases s.len(),
{
    if s.len() > 0 {
        lemma_char_count_bounds(s.skip(first_step(s) as int));
    }
}

/// A character that the UTF-8 model `valid_first_scalar` reads at the start
/// of `s` is the well-formed character `first_char_len` finds there, of the
/// same length.
proof fn lemma_first_scalar_is_first_char(s: Seq<u8>)
    requires
        valid_first_scalar(s),
    ensures
        first_char_len(s) == length_of_first_scalar(s),
{
    let b0 = s[0];
    if is_leading_byte_width_1(b0) {
    } else if is_leading_byte_width_2(b0) {
        let b1 = s[1];
        assert(0xC0 <= b0 <= 0xDF && 0x80 <= b1 <= 0xBF && 0x80 <= ((((b0 & 0x1F) as u32) << 6)
            | ((b1 & 0x3F) as u32)) ==> 0xC2 <= b0) by (bit_vector);
    } else if is_leading_byte_width_3(b0) {
        let (b1, b2) = (s[1], s[2]);
        assert(0xE0 <= b0 <= 0xEF && 0x80 <= b1 <= 0xBF && 0x80 <= b2 <= 0xBF && 0x800 <= ((((b0
            & 0x0F) as u32) << 12) | (((b1 & 0x3F) as u32) << 6) | ((b2 & 0x3F) as u32)) ==> (b0
            == 0xE0 ==> 0xA0 <= b1)) by (bit_vector);
        assert(0xE0 <= b0 <= 0xEF && 0x80 <= b1 <= 0xBF && 0x80 <= b2 <= 0xBF && !(0xD800 <= ((((
        b0 & 0x0F) as u32) << 12) | (((b1 & 0x3F) as u32) << 6) | ((b2 & 0x3F) as u32)) <= 0xDFFF)
            ==> (b0 == 0xED ==> b1 <= 0x9F)) by (bit_vector);
    } else {
        let (b1, b2, b3) = (s[1], s[2], s[3]);
        assert(0xF0 <= b0 <= 0xF7 && 0x80 <= b1 <= 0xBF && 0x80 <= b2 <= 0xBF && 0x80 <= b3 <= 0xBF
            && 0x10000 <= ((((b0 & 0x07) as u32) << 18) | (((b1 & 0x3F) as u32) << 12) | (((b2
            & 0x3F) as u32) << 6) | ((b3 & 0x3F) as u32)) <= 0x10ffff ==> b0 <= 0xF4 && (b0 == 0xF0
            ==> 0x90 <= b1) && (b0 == 0xF4 ==> b1 <= 0x8F)) by (bit_vector);
    }
}

/// A well-formed character that `first_char_len` finds at the start of `s`
/// is a scalar that the UTF-8 model `valid_first_scalar` reads there.
proof fn lemma_first_char_is_first_scalar(s: Seq<u8>)
    requires
        first_char_len(s) > 0,
    ensures
        valid_first_scalar(s),
        length_of_first_scalar(s) == first_char_len(s),
{
    let b0 = s[0];
    if first_char_len(s) == 2 {
        let b1 = s[1];
        assert(0xC2 <= b0 <= 0xDF && 0x80 <= b1 <= 0xBF ==> 0x80 <= ((((b0 & 0x1F) as u32) << 6)
            | ((b1 & 0x3F) as u32)) <= 0x7FF) by (bit_vector);
    } else if first_char_len(s) == 3 {
        let (b1, b2) = (s[1], s[2]);
        assert(0xE0 <= b0 <= 0xEF && 0x80 <= b1 <= 0xBF && 0x80 <= b2 <= 0xBF && (b0 == 0xE0
            ==> 0xA0 <= b1) && (b0 == 0xED ==> b1 <= 0x9F) ==> 0x800 <= ((((b0 & 0x0F) as u32)
            << 12) | (((b1 & 0x3F) as u32) << 6) | ((b2 & 0x3F) as u32)) && !(0xD800 <= ((((b0
            & 0x0F) as u32) << 12) | (((b1 & 0x3F) as u32) << 6) | ((b2 & 0x3F) as u32))
            <= 0xDFFF)) by (bit_vector);
    } else if first_char_len(s) == 4 {
        let (b1, b2, b3) = (s[1], s[2], s[3]);
        assert(0xF0 <= b0 <= 0xF4 && 0x80 <= b1 <= 0xBF && 0x80 <= b2 <= 0xBF && 0x80 <= b3 <= 0xBF
            && (b0 == 0xF0 ==> 0x90 <= b1) && (b0 == 0xF4 ==> b1 <= 0x8F) ==> 0x10000 <= ((((b0
            & 0x07) as u32) << 18) | (((b1 & 0x3F) as u32) << 12) | (((b2 & 0x3F) as u32) << 6)
            | ((b3 & 0x3F) as u32)) <= 0x10ffff) by (bit_vector);
    }
}

/// `first_char_len` is exactly the UTF-8 model's reading of the first
/// scalar: the scalar's length when `s` starts with a well-formed one, and 0
/// otherwise.
pub proof fn lemma_first_char_len_is_scalar_length(s: Seq<u8>)
    ensures
        first_char_len(s) == (if valid_first_scalar(s) {
            length_of_first_scalar(s)
        } else {
            0
        }),
{
    if valid_first_scalar(s) {
        lemma_first_scalar_is_first_char(s);
    } else if first_char_len(s) > 0 {
        lemma_first_char_is_first_scalar(s);
    }
}

/// On well-formed UTF-8 text, `char_count` is the number of Unicode
/// characters the text encodes.
pub proof fn lemma_char_count_of_valid_utf8(s: Seq<u8>)
    requires
        valid_utf8(s),
    ensures
        char_count(s) == decode_utf8(s).len(),
    decreases s.len(),
{
    if s.len() > 0 {
        lemma_first_scalar_is_first_char(s);
        let rest = pop_first_scalar(s);
        assert(rest =~= s.skip(first_step(s) as int));
        lemma_char_count_of_valid_utf8(rest);
    }
}

/// The length of the well-formed character that starts at byte `i`, or 0.
fn first_char_len_at(bytes: &Vec<u8>, i: usize) -> (n: usize)
    requires
        i < bytes.len(),
    ensures
        n == first_char_len(bytes@.skip(i as int)),
{
    let ghost s = bytes@.skip(i as int);
    let len = bytes.len();
    let b0 = bytes[i];
    assert(s[0] == b0);
    if b0 <= 0x7F {
        return 1;
    }
    if i + 1 >= len {
        return 0;
    }
    let b1 = bytes[i + 1];
    assert(s[1] == b1);
    let cont1 = 0x80 <= b1 && b1 <= 0xBF;
    if 0xC2 <= b0 && b0 <= 0xDF {
        return if cont1 { 2 } else { 0 };
    }
    if i + 2 >= len {
        return 0;
    }
    let b2 = bytes[i + 2];
    assert(s[2] == b2);
    let cont2 = 0x80 <= b2 && b2 <= 0xBF;
    if 0xE0 <= b0 && b0 <= 0xEF {
        let lead_ok = if b0 == 0xE0 {
            0xA0 <= b1 && b1 <= 0xBF
        } else if b0 == 0xED {
            0x80 <= b1 && b1 <= 0x9F
        } else {
            cont1
        };
        return if lead_ok && cont2 { 3 } else { 0 };
    }
    if i + 3 >= len {
        return 0;
    }
    let b3 = bytes[i + 3];
    assert(s[3] == b3);
    let cont3 = 0x80 <= b3 && b3 <= 0xBF;
    if 0xF0 <= b0 && b0 <= 0xF4 {
        let lead_ok = if b0 == 0xF0 {
            0x90 <= b1 && b1 <= 0xBF
        } else if b0 == 0xF4 {
            0x80 <= b1 && b1 <= 0x8F
        } else {
            cont1
        };
        return if lead_ok && cont2 && cont3 { 4 } else { 0 };
    }
    0
}

/// The number of characters of the text `bytes`.
pub fn count_chars(bytes: &Vec<u8>) -> (n: usize)
    ensures
        n == char_count(bytes@),
{
    let mut n: usize = 0;
    let mut i: usize = 0;
    assert(bytes@.skip(0) =~= bytes@);
    while i < bytes.len()
        invariant
            i <= bytes.len(),
            n <= i,
            n + char_count(bytes@.skip(i as int)) == char_count(bytes@),
        decreases bytes.len() - i,
    {
        let ghost rest = bytes@.skip(i as int);
        let k = first_char_len_at(bytes, i);
        let step = if k == 0 { 1 } else { k };
        assert(step == first_step(rest));
        assert(rest.skip(step as int) =~= bytes@.skip(i + step));
        n = n + 1;
        i = i + step;
    }
    n
}

} // verus!
