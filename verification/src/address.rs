//! Device hardware addresses: a 48-bit identifier written as six bytes,
//! and the address kind used when connecting.

use vstd::prelude::*;
use vstd::string::*;
use crate::hex::{
    hex_char_of_nibble, hex_pair_of_byte, byte_of_hex_pair, byte_of_upper_hex, hex_str_for,
    is_upper_hex_pair,
};
use crate::text::str_eq;

verus! {

/// A Bluetooth device address: six bytes, written most significant first.
#[derive(Clone, Copy, Debug, PartialEq, Eq, Hash, Structural)]
pub struct Address {
    pub b0: u8,
    pub b1: u8,
    pub b2: u8,
    pub b3: u8,
    pub b4: u8,
    pub b5: u8,
}

/// The address written as six upper-case hexadecimal byte pairs joined by
/// `sep`: seventeen characters.
pub open spec fn addr_chars(a: Address, sep: char) -> Seq<char> {
    seq![
        hex_char_of_nibble(a.b0 / 16), hex_char_of_nibble(a.b0 % 16), sep,
        hex_char_of_nibble(a.b1 / 16), hex_char_of_nibble(a.b1 % 16), sep,
        hex_char_of_nibble(a.b2 / 16), hex_char_of_nibble(a.b2 % 16), sep,
        hex_char_of_nibble(a.b3 / 16), hex_char_of_nibble(a.b3 % 16), sep,
        hex_char_of_nibble(a.b4 / 16), hex_char_of_nibble(a.b4 % 16), sep,
        hex_char_of_nibble(a.b5 / 16), hex_char_of_nibble(a.b5 % 16),
    ]
}

/// True of seventeen characters that read as an address: byte pairs of
/// upper-case hexadecimal digits at the six byte positions, `sep` at the
/// five positions between them. Exactly the strings that `addr_chars`
/// writes: any other spelling of an address is rejected.
pub open spec fn is_addr_token(s: Seq<char>, sep: char) -> bool {
    &&& s.len() == 17
    &&& s[2] == sep && s[5] == sep && s[8] == sep && s[11] == sep && s[14] == sep
    &&& is_upper_hex_pair(s[0], s[1])
    &&& is_upper_hex_pair(s[3], s[4])
    &&& is_upper_hex_pair(s[6], s[7])
    &&& is_upper_hex_pair(s[9], s[10])
    &&& is_upper_hex_pair(s[12], s[13])
    &&& is_upper_hex_pair(s[15], s[16])
}

/// The address read from an address token.
pub open spec fn addr_of_chars(s: Seq<char>) -> Address
    recommends
        s.len() == 17,
{
    Address {
        b0: byte_of_hex_pair(s[0], s[1]),
        b1: byte_of_hex_pair(s[3], s[4]),
        b2: byte_of_hex_pair(s[6], s[7]),
        b3: byte_of_hex_pair(s[9], s[10]),
        b4: byte_of_hex_pair(s[12], s[13]),
        b5: byte_of_hex_pair(s[15], s[16]),
    }
}

/// Writing an address and reading the characters back is the identity,
/// whatever the separator.
pub proof fn lemma_addr_chars_round_trip(a: Address, sep: char)
    ensures
        is_addr_token(addr_chars(a, sep), sep),
        addr_of_chars(addr_chars(a, sep)) == a,
{
    crate::hex::lemma_hex_pair_round_trip(a.b0);
    crate::hex::lemma_hex_pair_round_trip(a.b1);
    crate::hex::lemma_hex_pair_round_trip(a.b2);
    crate::hex::lemma_hex_pair_round_trip(a.b3);
    crate::hex::lemma_hex_pair_round_trip(a.b4);
    crate::hex::lemma_hex_pair_round_trip(a.b5);
    crate::hex::lemma_hex_pair_upper(a.b0);
    crate::hex::lemma_hex_pair_upper(a.b1);
    crate::hex::lemma_hex_pair_upper(a.b2);
    crate::hex::lemma_hex_pair_upper(a.b3);
    crate::hex::lemma_hex_pair_upper(a.b4);
    crate::hex::lemma_hex_pair_upper(a.b5);
    assert(hex_pair_of_byte(a.b0)[0] == hex_char_of_nibble(a.b0 / 16));
    assert(hex_pair_of_byte(a.b0)[1] == hex_char_of_nibble(a.b0 % 16));
    assert(hex_pair_of_byte(a.b1)[0] == hex_char_of_nibble(a.b1 / 16));
    assert(hex_pair_of_byte(a.b1)[1] == hex_char_of_nibble(a.b1 % 16));
    assert(hex_pair_of_byte(a.b2)[0] == hex_char_of_nibble(a.b2 / 16));
    assert(hex_pair_of_byte(a.b2)[1] == hex_char_of_nibble(a.b2 % 16));
    assert(hex_pair_of_byte(a.b3)[0] == hex_char_of_nibble(a.b3 / 16));
    assert(hex_pair_of_byte(a.b3)[1] == hex_char_of_nibble(a.b3 % 16));
    assert(hex_pair_of_byte(a.b4)[0] == hex_char_of_nibble(a.b4 / 16));
    assert(hex_pair_of_byte(a.b4)[1] == hex_char_of_nibble(a.b4 % 16));
    assert(hex_pair_of_byte(a.b5)[0] == hex_char_of_nibble(a.b5 / 16));
    assert(hex_pair_of_byte(a.b5)[1] == hex_char_of_nibble(a.b5 % 16));
}

/// Reading a token and writing the address back gives the same
/// seventeen characters: an address has exactly one token spelling.
pub proof fn lemma_addr_token_inverse(s: Seq<char>, sep: char)
    requires
        is_addr_token(s, sep),
    ensures
        addr_chars(addr_of_chars(s), sep) == s,
{
    crate::hex::lemma_upper_hex_pair_inverse(s[0], s[1]);
    crate::hex::lemma_upper_hex_pair_inverse(s[3], s[4]);
    crate::hex::lemma_upper_hex_pair_inverse(s[6], s[7]);
    crate::hex::lemma_upper_hex_pair_inverse(s[9], s[10]);
    crate::hex::lemma_upper_hex_pair_inverse(s[12], s[13]);
    crate::hex::lemma_upper_hex_pair_inverse(s[15], s[16]);
    assert(addr_chars(addr_of_chars(s), sep) =~= s);
}

impl Address {
    /// The address with an arbitrary one-character separator.
    fn with_separator(&self, sep: &str) -> (r: String)
        requires
            sep@.len() == 1,
        ensures
            r@ == addr_chars(*self, sep@[0]),
    {
        let mut s = String::new();
        s.append(hex_str_for(self.b0 / 16));
        s.append(hex_str_for(self.b0 % 16));
        s.append(sep);
        s.append(hex_str_for(self.b1 / 16));
        s.append(hex_str_for(self.b1 % 16));
        s.append(sep);
        s.append(hex_str_for(self.b2 / 16));
        s.append(hex_str_for(self.b2 % 16));
        s.append(sep);
        s.append(hex_str_for(self.b3 / 16));
        s.append(hex_str_for(self.b3 % 16));
        s.append(sep);
        s.append(hex_str_for(self.b4 / 16));
        s.append(hex_str_for(self.b4 % 16));
        s.append(sep);
        s.append(hex_str_for(self.b5 / 16));
        s.append(hex_str_for(self.b5 % 16));
        proof {
            assert(s@ =~= addr_chars(*self, sep@[0]));
        }
        s
    }

    /// The colon-separated form, `AA:BB:CC:DD:EE:FF`, as shown to users
    /// and sent in method arguments.
    pub fn to_display_string(&self) -> (r: String)
        ensures
            r@ == addr_chars(*self, ':'),
    {
        proof {
            reveal_strlit(":");
        }
        self.with_separator(":")
    }

    /// The underscore-separated form, `AA_BB_CC_DD_EE_FF`, as embedded in
    /// device object paths.
    pub fn to_path_token(&self) -> (r: String)
        ensures
            r@ == addr_chars(*self, '_'),
    {
        proof {
            reveal_strlit("_");
        }
        self.with_separator("_")
    }

    /// Reads an address from a seventeen-character token with the given
    /// separator; `None` exactly when the token does not have that shape.
    pub fn parse_token(s: &str, sep: char) -> (r: Option<Address>)
        ensures
            r is Some <==> is_addr_token(s@, sep),
            r matches Some(a) ==> a == addr_of_chars(s@),
    {
        if s.unicode_len() != 17 {
            return None;
        }
        if s.get_char(2) != sep || s.get_char(5) != sep || s.get_char(8) != sep
            || s.get_char(11) != sep || s.get_char(14) != sep {
            return None;
        }
        let b0 = match byte_of_upper_hex(s.get_char(0), s.get_char(1)) {
            Some(b) => b,
            None => return None,
        };
        let b1 = match byte_of_upper_hex(s.get_char(3), s.get_char(4)) {
            Some(b) => b,
            None => return None,
        };
        let b2 = match byte_of_upper_hex(s.get_char(6), s.get_char(7)) {
            Some(b) => b,
            None => return None,
        };
        let b3 = match byte_of_upper_hex(s.get_char(9), s.get_char(10)) {
            Some(b) => b,
            None => return None,
        };
        let b4 = match byte_of_upper_hex(s.get_char(12), s.get_char(13)) {
            Some(b) => b,
            None => return None,
        };
        let b5 = match byte_of_upper_hex(s.get_char(15), s.get_char(16)) {
            Some(b) => b,
            None => return None,
        };
        Some(Address { b0, b1, b2, b3, b4, b5 })
    }
}

/// The kind of a device address, as sent on the wire when connecting.
#[derive(Clone, Copy, Debug, PartialEq, Eq, Structural)]
pub enum AddressType {
    /// A public device address.
    Public,
    /// A random device address.
    Random,
}

/// The wire spelling of an address kind.
pub open spec fn address_type_chars(t: AddressType) -> Seq<char> {
    match t {
        AddressType::Public => "public"@,
        AddressType::Random => "random"@,
    }
}

/// The address kind a wire string names, if any.
pub open spec fn address_type_of_chars(s: Seq<char>) -> Option<AddressType> {
    if s == "public"@ {
        Some(AddressType::Public)
    } else if s == "random"@ {
        Some(AddressType::Random)
    } else {
        None
    }
}

impl AddressType {
    /// The wire spelling, `public` or `random`.
    pub fn to_wire_str(&self) -> (r: &'static str)
        ensures
            r@ == address_type_chars(*self),
    {
        match self {
            AddressType::Public => "public",
            AddressType::Random => "random",
        }
    }

    /// Reads an address kind from its wire spelling; `None` exactly on
    /// other strings.
    pub fn parse_wire_str(s: &str) -> (r: Option<AddressType>)
        ensures
            r == address_type_of_chars(s@),
            r matches Some(t) ==> s@ == address_type_chars(t),
    {
        if str_eq(s, "public") {
            Some(AddressType::Public)
        } else if str_eq(s, "random") {
            Some(AddressType::Random)
        } else {
            None
        }
    }
}

} // verus!
