//! The untyped value representation exchanged with the remote daemon,
//! and lookup in wire dictionaries.

use vstd::prelude::*;
use crate::text::str_eq;

verus! {

/// A wire value: a closed tagged variant over the primitive scalars,
/// strings, string lists, byte sequences and nested dictionaries that
/// the daemon's attribute maps carry. Transient per call or event.
#[derive(Debug, PartialEq, Eq)]
pub enum WireValue {
    /// A boolean.
    Bool(bool),
    /// An unsigned byte.
    U8(u8),
    /// An unsigned 16-bit integer.
    U16(u16),
    /// A signed 16-bit integer.
    I16(i16),
    /// An unsigned 32-bit integer.
    U32(u32),
    /// A string.
    Str(String),
    /// A list of strings.
    StrList(Vec<String>),
    /// A byte sequence.
    Bytes(Vec<u8>),
    /// A nested dictionary of named values.
    Dict(Vec<(String, WireValue)>),
}

/// A short name for the shape of a wire value, used when reporting a
/// value of an unexpected shape.
pub open spec fn wire_shape_chars(v: WireValue) -> Seq<char> {
    match v {
        WireValue::Bool(_) => "bool"@,
        WireValue::U8(_) => "u8"@,
        WireValue::U16(_) => "u16"@,
        WireValue::I16(_) => "i16"@,
        WireValue::U32(_) => "u32"@,
        WireValue::Str(_) => "string"@,
        WireValue::StrList(_) => "string list"@,
        WireValue::Bytes(_) => "bytes"@,
        WireValue::Dict(_) => "dictionary"@,
    }
}

impl WireValue {
    /// The short name of this value's shape.
    pub fn shape_str(&self) -> (r: &'static str)
        ensures
            r@ == wire_shape_chars(*self),
    {
        match self {
            WireValue::Bool(_) => "bool",
            WireValue::U8(_) => "u8",
            WireValue::U16(_) => "u16",
            WireValue::I16(_) => "i16",
            WireValue::U32(_) => "u32",
            WireValue::Str(_) => "string",
            WireValue::StrList(_) => "string list",
            WireValue::Bytes(_) => "bytes",
            WireValue::Dict(_) => "dictionary",
        }
    }
}

/// The first entry with the given key in a wire dictionary, if any.
pub open spec fn dict_find(entries: Seq<(String, WireValue)>, key: Seq<char>) -> Option<WireValue>
    decreases entries.len(),
{
    if entries.len() == 0 {
        None
    } else if entries[0].0@ == key {
        Some(entries[0].1)
    } else {
        dict_find(entries.drop_first(), key)
    }
}

/// Looks up the first entry with the given key.
pub fn dict_get<'a>(entries: &'a Vec<(String, WireValue)>, key: &str) -> (r: Option<
    &'a WireValue,
>)
    ensures
        match r {
            Some(v) => dict_find(entries@, key@) == Some(*v),
            None => dict_find(entries@, key@) is None,
        },
{
    let n = entries.len();
    let mut i: usize = 0;
    proof {
        assert(entries@.skip(0) =~= entries@);
    }
    while i < n
        invariant
            i <= n,
            n == entries@.len(),
            dict_find(entries@, key@) == dict_find(entries@.skip(i as int), key@),
        decreases n - i,
    {
        proof {
            assert(entries@.skip(i as int)[0] == entries@[i as int]);
            assert(entries@.skip(i as int).drop_first() =~= entries@.skip(i as int + 1));
        }
        if str_eq(entries[i].0.as_str(), key) {
            return Some(&entries[i].1);
        }
        i += 1;
    }
    None
}

} // verus!
