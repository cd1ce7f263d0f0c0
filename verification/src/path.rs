//! Object-path naming: adapter paths are the root prefix followed by the
//! adapter name; device paths append `/dev_` and the address token.
//! Construction and parsing are exact inverses, and parsing rejects every
//! path that does not have exactly this shape.

use vstd::prelude::*;
use vstd::string::*;
use crate::address::{
    Address, addr_chars, is_addr_token, addr_of_chars, lemma_addr_chars_round_trip,
    lemma_addr_token_inverse,
};
use crate::text::{
    starts_with, index_of_first, lemma_index_of_first, lemma_index_of_first_unique,
    str_starts_with, str_index_of_first,
};
use crate::Error;

verus! {

/// The namespace under which the daemon exposes all of its objects.
pub open spec fn prefix_chars() -> Seq<char> {
    "/org/bluez/"@
}

/// The infix between an adapter path and a device's address token.
pub open spec fn dev_infix_chars() -> Seq<char> {
    "/dev_"@
}

/// A character allowed in an adapter name: one path element of the
/// object tree, so letters, digits and underscores.
pub open spec fn is_segment_char(c: char) -> bool {
    ||| ('a' as u32) <= (c as u32) && (c as u32) <= ('z' as u32)
    ||| ('A' as u32) <= (c as u32) && (c as u32) <= ('Z' as u32)
    ||| ('0' as u32) <= (c as u32) && (c as u32) <= ('9' as u32)
    ||| c == '_'
}

/// A well-formed adapter name: non-empty and made of segment characters,
/// so that appending it to the prefix gives a well-formed object path.
pub open spec fn is_valid_name(s: Seq<char>) -> bool {
    s.len() > 0 && (forall|i: int| 0 <= i < s.len() ==> is_segment_char(s[i]))
}

/// A well-formed name holds no slash, so it is a single path element.
pub proof fn lemma_valid_name_no_slash(s: Seq<char>)
    requires
        is_valid_name(s),
    ensures
        forall|i: int| 0 <= i < s.len() ==> s[i] != '/',
{
    assert forall|i: int| 0 <= i < s.len() implies s[i] != '/' by {
        assert(is_segment_char(s[i]));
    }
}

/// The object path of the adapter with this name.
pub open spec fn adapter_path_chars(name: Seq<char>) -> Seq<char> {
    prefix_chars() + name
}

/// The object path of the device with this address on this adapter.
pub open spec fn device_path_chars(name: Seq<char>, a: Address) -> Seq<char> {
    prefix_chars() + name + dev_infix_chars() + addr_chars(a, '_')
}

/// Splits a path under the prefix into the first segment after it and
/// the remainder from the next slash on; none when the path does not
/// start with the prefix.
pub open spec fn parse_prefix_spec(p: Seq<char>) -> Option<(Seq<char>, Seq<char>)> {
    if starts_with(p, prefix_chars()) {
        let rest = p.skip(prefix_chars().len() as int);
        let i = index_of_first(rest, '/');
        Some((rest.take(i), rest.skip(i)))
    } else {
        None
    }
}

/// The adapter name of an adapter-level path: the segment after the
/// prefix, with nothing following it.
pub open spec fn parse_adapter_path_spec(p: Seq<char>) -> Option<Seq<char>> {
    match parse_prefix_spec(p) {
        Some((seg, rest)) => if rest.len() == 0 {
            Some(seg)
        } else {
            None
        },
        None => None,
    }
}

/// The adapter name and address of a device-level path: the segment
/// after the prefix, then `/dev_`, then exactly an address token.
pub open spec fn parse_device_path_spec(p: Seq<char>) -> Option<(Seq<char>, Address)> {
    match parse_prefix_spec(p) {
        Some((seg, rest)) => if starts_with(rest, dev_infix_chars()) && is_addr_token(
            rest.skip(dev_infix_chars().len() as int),
            '_',
        ) {
            Some((seg, addr_of_chars(rest.skip(dev_infix_chars().len() as int))))
        } else {
            None
        },
        None => None,
    }
}

/// Checks a candidate adapter name.
pub fn is_valid_name_str(name: &str) -> (r: bool)
    ensures
        r == is_valid_name(name@),
{
    let n = name.unicode_len();
    if n == 0 {
        return false;
    }
    let mut i: usize = 0;
    while i < n
        invariant
            i <= n,
            n == name@.len(),
            forall|j: int| 0 <= j < i ==> is_segment_char(name@[j]),
        decreases n - i,
    {
        let c = name.get_char(i) as u32;
        if !((0x61 <= c && c <= 0x7a) || (0x41 <= c && c <= 0x5a) || (0x30 <= c && c <= 0x39)
            || c == 0x5f) {
            return false;
        }
        i += 1;
    }
    true
}

/// The adapter's object path; `InvalidName` exactly when the name is not
/// a well-formed path element.
pub fn adapter_path(name: &str) -> (r: Result<String, Error>)
    ensures
        r is Ok <==> is_valid_name(name@),
        r matches Ok(p) ==> p@ == adapter_path_chars(name@),
        r matches Err(e) ==> (e matches Error::InvalidName(n) && n@ == name@),
{
    if is_valid_name_str(name) {
        let mut s = String::from_str("/org/bluez/");
        s.append(name);
        Ok(s)
    } else {
        Err(Error::InvalidName(String::from_str(name)))
    }
}

/// The device's object path; `InvalidName` exactly when the adapter name
/// is not a well-formed path element.
pub fn device_path(name: &str, addr: Address) -> (r: Result<String, Error>)
    ensures
        r is Ok <==> is_valid_name(name@),
        r matches Ok(p) ==> p@ == device_path_chars(name@, addr),
        r matches Err(e) ==> (e matches Error::InvalidName(n) && n@ == name@),
{
    if is_valid_name_str(name) {
        let mut s = String::from_str("/org/bluez/");
        s.append(name);
        s.append("/dev_");
        let tok = addr.to_path_token();
        s.append(tok.as_str());
        proof {
            assert(s@ =~= device_path_chars(name@, addr));
        }
        Ok(s)
    } else {
        Err(Error::InvalidName(String::from_str(name)))
    }
}

/// Splits a path under the prefix into (first segment, remainder); none
/// when the path does not start with the prefix.
pub fn parse_path_prefix(path: &str) -> (r: Option<(String, String)>)
    ensures
        match r {
            Some(sr) => parse_prefix_spec(path@) == Some((sr.0@, sr.1@)),
            None => parse_prefix_spec(path@) is None,
        },
{
    if !str_starts_with(path, "/org/bluez/") {
        return None;
    }
    let plen = "/org/bluez/".unicode_len();
    let n = path.unicode_len();
    let rest = path.substring_char(plen, n);
    let i = str_index_of_first(rest, '/');
    proof {
        lemma_index_of_first(rest@, '/');
    }
    let rlen = rest.unicode_len();
    let seg = rest.substring_char(0, i);
    let rem = rest.substring_char(i, rlen);
    Some((String::from_str(seg), String::from_str(rem)))
}

/// The adapter name of an adapter-level path, or none.
pub fn parse_adapter_path(path: &str) -> (r: Option<String>)
    ensures
        match r {
            Some(n) => parse_adapter_path_spec(path@) == Some(n@),
            None => parse_adapter_path_spec(path@) is None,
        },
{
    match parse_path_prefix(path) {
        Some((seg, rest)) => if rest.as_str().unicode_len() == 0 {
            Some(seg)
        } else {
            None
        },
        None => None,
    }
}

/// The adapter name and address of a device-level path, or none.
pub fn parse_device_path(path: &str) -> (r: Option<(String, Address)>)
    ensures
        match r {
            Some(na) => parse_device_path_spec(path@) == Some((na.0@, na.1)),
            None => parse_device_path_spec(path@) is None,
        },
{
    let (seg, rest) = match parse_path_prefix(path) {
        Some(x) => x,
        None => return None,
    };
    if !str_starts_with(rest.as_str(), "/dev_") {
        return None;
    }
    let dlen = "/dev_".unicode_len();
    let rlen = rest.as_str().unicode_len();
    let tok = rest.as_str().substring_char(dlen, rlen);
    match Address::parse_token(tok, '_') {
        Some(a) => Some((seg, a)),
        None => None,
    }
}

/// Law: a constructed device path parses back to the same adapter name
/// and address, for every name free of slashes and every address.
pub proof fn lemma_device_path_round_trip(name: Seq<char>, a: Address)
    requires
        forall|i: int| 0 <= i < name.len() ==> name[i] != '/',
    ensures
        parse_device_path_spec(device_path_chars(name, a)) == Some((name, a)),
{
    reveal_strlit("/dev_");
    let pre = prefix_chars();
    let dev = dev_infix_chars();
    let tok = addr_chars(a, '_');
    lemma_addr_chars_round_trip(a, '_');
    let p = device_path_chars(name, a);
    assert(p.take(pre.len() as int) =~= pre);
    let rest = p.skip(pre.len() as int);
    assert(rest =~= name + dev + tok);
    assert(rest[name.len() as int] == '/');
    lemma_index_of_first_unique(rest, '/', name.len() as int);
    assert(rest.take(name.len() as int) =~= name);
    let r2 = rest.skip(name.len() as int);
    assert(r2.take(dev.len() as int) =~= dev);
    assert(r2.skip(dev.len() as int) =~= tok);
}

/// Law: for every well-formed adapter name, a constructed device path
/// parses back to the same name and address.
pub proof fn lemma_valid_device_path_round_trip(name: Seq<char>, a: Address)
    requires
        is_valid_name(name),
    ensures
        parse_device_path_spec(device_path_chars(name, a)) == Some((name, a)),
{
    lemma_valid_name_no_slash(name);
    lemma_device_path_round_trip(name, a);
}

/// Law: a constructed adapter path parses back to the same name, for
/// every name free of slashes.
pub proof fn lemma_adapter_path_round_trip(name: Seq<char>)
    requires
        forall|i: int| 0 <= i < name.len() ==> name[i] != '/',
    ensures
        parse_adapter_path_spec(adapter_path_chars(name)) == Some(name),
{
    let pre = prefix_chars();
    let p = adapter_path_chars(name);
    assert(p.take(pre.len() as int) =~= pre);
    let rest = p.skip(pre.len() as int);
    assert(rest =~= name);
    lemma_index_of_first_unique(rest, '/', name.len() as int);
    assert(rest.take(name.len() as int) =~= name);
    assert(rest.skip(name.len() as int).len() == 0);
}

/// Law: device-path parsing succeeds only on paths of exactly the
/// constructed shape; every other path parses to none, and parsing never
/// fails in any other way.
pub proof fn lemma_device_path_parse_sound(p: Seq<char>)
    ensures
        parse_device_path_spec(p) matches Some(na) ==> p == device_path_chars(na.0, na.1),
        parse_device_path_spec(p) matches Some(na) ==> forall|i: int|
            0 <= i < na.0.len() ==> na.0[i] != '/',
{
    if parse_device_path_spec(p) is Some {
        let pre = prefix_chars();
        let dev = dev_infix_chars();
        let rest = p.skip(pre.len() as int);
        let i = index_of_first(rest, '/');
        lemma_index_of_first(rest, '/');
        let seg = rest.take(i);
        let r2 = rest.skip(i);
        let tok = r2.skip(dev.len() as int);
        lemma_addr_token_inverse(tok, '_');
        assert(p =~= pre + seg + dev + tok);
        assert(p =~= device_path_chars(seg, addr_of_chars(tok)));
    }
}

/// Law: adapter-path parsing succeeds only on paths of exactly the
/// constructed shape.
pub proof fn lemma_adapter_path_parse_sound(p: Seq<char>)
    ensures
        parse_adapter_path_spec(p) matches Some(n) ==> p == adapter_path_chars(n),
        parse_adapter_path_spec(p) matches Some(n) ==> forall|i: int|
            0 <= i < n.len() ==> n[i] != '/',
{
    if parse_adapter_path_spec(p) is Some {
        let pre = prefix_chars();
        let rest = p.skip(pre.len() as int);
        let i = index_of_first(rest, '/');
        lemma_index_of_first(rest, '/');
        assert(p =~= pre + rest.take(i));
    }
}

} // verus!
