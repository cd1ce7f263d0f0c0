//! The device discovery filter and its wire dictionary. Optional
//! constraints that are unset are left out of the dictionary entirely:
//! absence and a default value mean different things to the daemon.

use vstd::prelude::*;
use vstd::string::*;
use crate::uuid_codec::{uuid_string_of, format_uuid};
use crate::wire::WireValue;

verus! {

/// Transport parameter determining the type of scan.
#[derive(Clone, Copy, Debug, PartialEq, Eq, Structural)]
pub enum DiscoveryTransport {
    /// Interleaved scan.
    Auto,
    /// BR/EDR inquiry.
    BrEdr,
    /// LE scan only.
    Le,
}

/// The wire spelling of a transport.
pub open spec fn transport_chars(t: DiscoveryTransport) -> Seq<char> {
    match t {
        DiscoveryTransport::Auto => "auto"@,
        DiscoveryTransport::BrEdr => "bredr"@,
        DiscoveryTransport::Le => "le"@,
    }
}

impl DiscoveryTransport {
    /// The wire spelling, `auto`, `bredr` or `le`.
    pub fn to_wire_str(&self) -> (r: &'static str)
        ensures
            r@ == transport_chars(*self),
    {
        match self {
            DiscoveryTransport::Auto => "auto",
            DiscoveryTransport::BrEdr => "bredr",
            DiscoveryTransport::Le => "le",
        }
    }
}

impl Default for DiscoveryTransport {
    /// The default transport: an interleaved scan.
    fn default() -> (r: Self)
        ensures
            r == DiscoveryTransport::Auto,
    {
        DiscoveryTransport::Auto
    }
}

/// A device discovery filter: which devices a scan should report.
#[derive(Debug, Clone, PartialEq, Eq)]
pub struct DiscoveryFilter {
    /// Service UUIDs to match, by 128-bit value; empty matches any.
    pub uuids: Vec<u128>,
    /// RSSI threshold, if one is set.
    pub rssi: Option<i16>,
    /// Pathloss threshold, if one is set.
    pub pathloss: Option<u16>,
    /// The type of scan.
    pub transport: DiscoveryTransport,
    /// Disables duplicate detection of advertisement data.
    pub duplicate_data: bool,
    /// Makes the adapter discoverable while discovering.
    pub discoverable: bool,
    /// A prefix pattern on address or name, if one is set.
    pub pattern: Option<String>,
}

impl Default for DiscoveryFilter {
    /// The default filter: match any UUID, no thresholds, interleaved
    /// scan, duplicate data on, not discoverable, no pattern.
    fn default() -> (r: Self)
        ensures
            r.uuids@ == Seq::<u128>::empty(),
            r.rssi is None,
            r.pathloss is None,
            r.transport == DiscoveryTransport::Auto,
            r.duplicate_data == true,
            r.discoverable == false,
            r.pattern is None,
    {
        DiscoveryFilter {
            uuids: Vec::new(),
            rssi: None,
            pathloss: None,
            transport: DiscoveryTransport::Auto,
            duplicate_data: true,
            discoverable: false,
            pattern: None,
        }
    }
}

/// What the wire dictionary of a filter holds: exactly the UUID list,
/// the transport and the two flags, and each optional constraint only
/// when it is set; an unset optional key is not sent at all.
pub open spec fn is_filter_dict(d: Seq<(String, WireValue)>, f: DiscoveryFilter) -> bool {
    let nr: int = if f.rssi is Some { 1 } else { 0 };
    let np: int = if f.pathloss is Some { 1 } else { 0 };
    let npat: int = if f.pattern is Some { 1 } else { 0 };
    &&& d.len() == 4 + nr + np + npat
    &&& d[0].0@ == "UUIDs"@
    &&& (d[0].1 matches WireValue::StrList(ss) && ss.deep_view() == f.uuids@.map_values(
        |u: u128| uuid_string_of(u),
    ))
    &&& (f.rssi matches Some(x) ==> d[1].0@ == "RSSI"@ && d[1].1 == WireValue::I16(x))
    &&& (f.pathloss matches Some(x) ==> d[1 + nr].0@ == "Pathloss"@ && d[1 + nr].1
        == WireValue::U16(x))
    &&& d[1 + nr + np].0@ == "Transport"@
    &&& (d[1 + nr + np].1 matches WireValue::Str(s) && s@ == transport_chars(f.transport))
    &&& d[2 + nr + np].0@ == "DuplicateData"@
    &&& d[2 + nr + np].1 == WireValue::Bool(f.duplicate_data)
    &&& d[3 + nr + np].0@ == "Discoverable"@
    &&& d[3 + nr + np].1 == WireValue::Bool(f.discoverable)
    &&& (f.pattern matches Some(pat) ==> d[4 + nr + np].0@ == "Pattern"@ && (d[4 + nr
        + np].1 matches WireValue::Str(s) && s@ == pat@))
}

impl DiscoveryFilter {
    /// Serializes the filter to its wire dictionary; `is_filter_dict`
    /// says exactly what the dictionary holds.
    pub fn to_dict(self) -> (r: Vec<(String, WireValue)>)
        ensures
            is_filter_dict(r@, self),
    {
        let ghost uv = self.uuids@;
        let mut ss: Vec<String> = Vec::new();
        let n = self.uuids.len();
        let mut i: usize = 0;
        proof {
            assert(ss.deep_view() =~= uv.take(0).map_values(|u: u128| uuid_string_of(u)));
        }
        while i < n
            invariant
                i <= n,
                n == uv.len(),
                uv == self.uuids@,
                ss.deep_view() == uv.take(i as int).map_values(|u: u128| uuid_string_of(u)),
            decreases n - i,
        {
            let ghost prev = ss.deep_view();
            ss.push(format_uuid(self.uuids[i]));
            proof {
                assert(ss.deep_view() =~= prev.push(uuid_string_of(uv[i as int])));
                assert(uv.take(i + 1).map_values(|u: u128| uuid_string_of(u)) =~= uv.take(
                    i as int,
                ).map_values(|u: u128| uuid_string_of(u)).push(uuid_string_of(uv[i as int])));
            }
            i += 1;
        }
        proof {
            assert(uv.take(n as int) =~= uv);
        }
        let mut dict: Vec<(String, WireValue)> = Vec::new();
        dict.push((String::from_str("UUIDs"), WireValue::StrList(ss)));
        if let Some(x) = self.rssi {
            dict.push((String::from_str("RSSI"), WireValue::I16(x)));
        }
        if let Some(x) = self.pathloss {
            dict.push((String::from_str("Pathloss"), WireValue::U16(x)));
        }
        dict.push(
            (String::from_str("Transport"), WireValue::Str(
                String::from_str(self.transport.to_wire_str()),
            )),
        );
        dict.push((String::from_str("DuplicateData"), WireValue::Bool(self.duplicate_data)));
        dict.push((String::from_str("Discoverable"), WireValue::Bool(self.discoverable)));
        if let Some(pat) = self.pattern {
            dict.push((String::from_str("Pattern"), WireValue::Str(pat)));
        }
        dict
    }
}

} // verus!
