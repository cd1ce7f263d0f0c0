//! The local device-identification string in modalias format, as used
//! by the kernel: `usb:v<vendor>p<product>d<device>`, each field four
//! hexadecimal digits.

use vstd::prelude::*;
use vstd::string::*;
use crate::hex::{is_hex_digit, hex_digit_value, hex_digit_of};
use crate::text::{starts_with, str_starts_with};

verus! {

/// Device-identification information: vendor, product and device
/// identifiers read from a modalias string.
#[derive(Clone, Copy, Debug, PartialEq, Eq, Hash, Structural)]
pub struct Modalias {
    /// The vendor identifier.
    pub vendor: u16,
    /// The product identifier.
    pub product: u16,
    /// The device (version) identifier.
    pub device: u16,
}

/// Four hexadecimal digits starting at `i`.
pub open spec fn is_hex4(s: Seq<char>, i: int) -> bool {
    is_hex_digit(s[i]) && is_hex_digit(s[i + 1]) && is_hex_digit(s[i + 2]) && is_hex_digit(
        s[i + 3],
    )
}

/// The value of four hexadecimal digits starting at `i`.
pub open spec fn hex4_value(s: Seq<char>, i: int) -> u16
    recommends
        is_hex4(s, i),
{
    (hex_digit_value(s[i]) as u16 * 4096 + hex_digit_value(s[i + 1]) as u16 * 256
        + hex_digit_value(s[i + 2]) as u16 * 16 + hex_digit_value(s[i + 3]) as u16) as u16
}

/// The modalias shape this library reads: `usb:v` then four hexadecimal
/// digits, `p` then four, `d` then four; anything after is ignored.
pub open spec fn is_modalias_chars(s: Seq<char>) -> bool {
    &&& s.len() >= 19
    &&& starts_with(s, "usb:v"@)
    &&& is_hex4(s, 5)
    &&& s[9] == 'p'
    &&& is_hex4(s, 10)
    &&& s[14] == 'd'
    &&& is_hex4(s, 15)
}

/// The identifiers read from a modalias string.
pub open spec fn modalias_of_chars(s: Seq<char>) -> Modalias
    recommends
        is_modalias_chars(s),
{
    Modalias { vendor: hex4_value(s, 5), product: hex4_value(s, 10), device: hex4_value(s, 15) }
}

/// Reads four hexadecimal digits starting at `i`.
fn parse_hex4(s: &str, i: usize) -> (r: Option<u16>)
    requires
        i + 4 <= s@.len(),
        s@.len() <= usize::MAX,
    ensures
        r is Some <==> is_hex4(s@, i as int),
        r matches Some(v) ==> v == hex4_value(s@, i as int),
{
    let d0 = match hex_digit_of(s.get_char(i)) {
        Some(d) => d,
        None => return None,
    };
    let d1 = match hex_digit_of(s.get_char(i + 1)) {
        Some(d) => d,
        None => return None,
    };
    let d2 = match hex_digit_of(s.get_char(i + 2)) {
        Some(d) => d,
        None => return None,
    };
    let d3 = match hex_digit_of(s.get_char(i + 3)) {
        Some(d) => d,
        None => return None,
    };
    Some(d0 as u16 * 4096 + d1 as u16 * 256 + d2 as u16 * 16 + d3 as u16)
}

impl Modalias {
    /// Reads a modalias string; `None` exactly when it does not have the
    /// `usb:v...p...d...` shape.
    pub fn parse(s: &str) -> (r: Option<Modalias>)
        ensures
            r is Some <==> is_modalias_chars(s@),
            r matches Some(m) ==> m == modalias_of_chars(s@),
    {
        if s.unicode_len() < 19 {
            return None;
        }
        if !str_starts_with(s, "usb:v") {
            return None;
        }
        let vendor = match parse_hex4(s, 5) {
            Some(v) => v,
            None => return None,
        };
        if s.get_char(9) != 'p' {
            return None;
        }
        let product = match parse_hex4(s, 10) {
            Some(v) => v,
            None => return None,
        };
        if s.get_char(14) != 'd' {
            return None;
        }
        let device = match parse_hex4(s, 15) {
            Some(v) => v,
            None => return None,
        };
        Some(Modalias { vendor, product, device })
    }
}

} // verus!
