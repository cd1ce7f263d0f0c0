//! Hexadecimal digits, as used in device addresses and modalias strings.

use vstd::prelude::*;

verus! {

/// The sixteen characters this library accepts as one hexadecimal digit:
/// `0`-`9`, `a`-`f` and `A`-`F`.
pub open spec fn is_hex_digit(c: char) -> bool {
    ||| ('0' as u32) <= (c as u32) && (c as u32) <= ('9' as u32)
    ||| ('a' as u32) <= (c as u32) && (c as u32) <= ('f' as u32)
    ||| ('A' as u32) <= (c as u32) && (c as u32) <= ('F' as u32)
}

/// Numeric value of a hexadecimal digit.
pub open spec fn hex_digit_value(c: char) -> u8
    recommends
        is_hex_digit(c),
{
    if ('0' as u32) <= (c as u32) && (c as u32) <= ('9' as u32) {
        ((c as u32) - ('0' as u32)) as u8
    } else if ('a' as u32) <= (c as u32) && (c as u32) <= ('f' as u32) {
        ((c as u32) - ('a' as u32) + 10) as u8
    } else {
        ((c as u32) - ('A' as u32) + 10) as u8
    }
}

/// The upper-case hexadecimal digit for a value below sixteen.
pub open spec fn hex_char_of_nibble(n: u8) -> char
    recommends
        n < 16,
{
    if n == 0 { '0' }
    else if n == 1 { '1' }
    else if n == 2 { '2' }
    else if n == 3 { '3' }
    else if n == 4 { '4' }
    else if n == 5 { '5' }
    else if n == 6 { '6' }
    else if n == 7 { '7' }
    else if n == 8 { '8' }
    else if n == 9 { '9' }
    else if n == 10 { 'A' }
    else if n == 11 { 'B' }
    else if n == 12 { 'C' }
    else if n == 13 { 'D' }
    else if n == 14 { 'E' }
    else { 'F' }
}

/// Reads one hexadecimal digit; `None` exactly on the other characters.
pub fn hex_digit_of(c: char) -> (r: Option<u8>)
    ensures
        r is Some <==> is_hex_digit(c),
        r matches Some(v) ==> v == hex_digit_value(c) && v < 16,
{
    let x = c as u32;
    if 0x30 <= x && x <= 0x39 {
        Some((x - 0x30) as u8)
    } else if 0x61 <= x && x <= 0x66 {
        Some((x - 0x61 + 10) as u8)
    } else if 0x41 <= x && x <= 0x46 {
        Some((x - 0x41 + 10) as u8)
    } else {
        None
    }
}

/// The upper-case digit for a value below sixteen, as a one-character
/// string, for building path and address strings.
pub fn hex_str_for(n: u8) -> (r: &'static str)
    requires
        n < 16,
    ensures
        r@ =~= seq![hex_char_of_nibble(n)],
{
    proof {
        reveal_strlit("0");
        reveal_strlit("1");
        reveal_strlit("2");
        reveal_strlit("3");
        reveal_strlit("4");
        reveal_strlit("5");
        reveal_strlit("6");
        reveal_strlit("7");
        reveal_strlit("8");
        reveal_strlit("9");
        reveal_strlit("A");
        reveal_strlit("B");
        reveal_strlit("C");
        reveal_strlit("D");
        reveal_strlit("E");
        reveal_strlit("F");
    }
    if n == 0 { "0" }
    else if n == 1 { "1" }
    else if n == 2 { "2" }
    else if n == 3 { "3" }
    else if n == 4 { "4" }
    else if n == 5 { "5" }
    else if n == 6 { "6" }
    else if n == 7 { "7" }
    else if n == 8 { "8" }
    else if n == 9 { "9" }
    else if n == 10 { "A" }
    else if n == 11 { "B" }
    else if n == 12 { "C" }
    else if n == 13 { "D" }
    else if n == 14 { "E" }
    else { "F" }
}

/// The two upper-case digits of a byte, high nibble first.
pub open spec fn hex_pair_of_byte(b: u8) -> Seq<char> {
    seq![hex_char_of_nibble(b / 16), hex_char_of_nibble(b % 16)]
}

/// True of two characters that read as hexadecimal digits.
pub open spec fn is_hex_pair(hi: char, lo: char) -> bool {
    is_hex_digit(hi) && is_hex_digit(lo)
}

/// The byte written as two hexadecimal digits, high nibble first.
pub open spec fn byte_of_hex_pair(hi: char, lo: char) -> u8
    recommends
        is_hex_pair(hi, lo),
{
    (hex_digit_value(hi) * 16 + hex_digit_value(lo)) as u8
}

/// Writing a byte as two digits and reading them back is the identity.
pub proof fn lemma_hex_pair_round_trip(b: u8)
    ensures
        is_hex_pair(hex_pair_of_byte(b)[0], hex_pair_of_byte(b)[1]),
        byte_of_hex_pair(hex_pair_of_byte(b)[0], hex_pair_of_byte(b)[1]) == b,
{
}

/// The sixteen characters this library writes as a hexadecimal digit:
/// `0`-`9` and `A`-`F` only.
pub open spec fn is_upper_hex_digit(c: char) -> bool {
    ||| ('0' as u32) <= (c as u32) && (c as u32) <= ('9' as u32)
    ||| ('A' as u32) <= (c as u32) && (c as u32) <= ('F' as u32)
}

/// True of two characters that read as upper-case hexadecimal digits.
pub open spec fn is_upper_hex_pair(hi: char, lo: char) -> bool {
    is_upper_hex_digit(hi) && is_upper_hex_digit(lo)
}

/// Reading an upper-case digit and writing its value back gives the same
/// character.
pub proof fn lemma_upper_nibble_inverse(c: char)
    requires
        is_upper_hex_digit(c),
    ensures
        hex_digit_value(c) < 16,
        hex_char_of_nibble(hex_digit_value(c)) == c,
{
}

/// Writing a byte gives upper-case digits, and reading them back gives
/// the byte.
pub proof fn lemma_hex_pair_upper(b: u8)
    ensures
        is_upper_hex_pair(hex_pair_of_byte(b)[0], hex_pair_of_byte(b)[1]),
{
}

/// Reading an upper-case pair and writing the byte back gives the same
/// two characters.
pub proof fn lemma_upper_hex_pair_inverse(hi: char, lo: char)
    requires
        is_upper_hex_pair(hi, lo),
    ensures
        hex_pair_of_byte(byte_of_hex_pair(hi, lo)) == seq![hi, lo],
{
    lemma_upper_nibble_inverse(hi);
    lemma_upper_nibble_inverse(lo);
    let b = byte_of_hex_pair(hi, lo);
    assert(b / 16 == hex_digit_value(hi) && b % 16 == hex_digit_value(lo)) by {
        assert(hex_digit_value(hi) < 16 && hex_digit_value(lo) < 16);
    }
    assert(hex_pair_of_byte(b) =~= seq![hi, lo]);
}

/// Reads a byte from two upper-case hexadecimal digits; `None` exactly
/// when one of them is not an upper-case digit.
pub fn byte_of_upper_hex(hi: char, lo: char) -> (r: Option<u8>)
    ensures
        r is Some <==> is_upper_hex_pair(hi, lo),
        r matches Some(b) ==> b == byte_of_hex_pair(hi, lo),
{
    let h = hi as u32;
    let l = lo as u32;
    let hv = if 0x30 <= h && h <= 0x39 {
        (h - 0x30) as u8
    } else if 0x41 <= h && h <= 0x46 {
        (h - 0x41 + 10) as u8
    } else {
        return None;
    };
    let lv = if 0x30 <= l && l <= 0x39 {
        (l - 0x30) as u8
    } else if 0x41 <= l && l <= 0x46 {
        (l - 0x41 + 10) as u8
    } else {
        return None;
    };
    Some(hv * 16 + lv)
}

} // verus!
