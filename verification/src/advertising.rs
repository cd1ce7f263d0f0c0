//! Capabilities and feature sets of the adapter's LE advertising
//! manager, as reported in its properties.

use vstd::prelude::*;
use vstd::string::*;
use crate::text::str_eq;
use crate::wire::{WireValue, dict_find};

verus! {

/// An element the controller can include in an advertisement.
#[derive(Clone, Copy, Debug, PartialEq, Eq, Structural)]
pub enum LeAdvertisementFeature {
    /// Transmission power.
    TxPower,
    /// Appearance.
    Appearance,
    /// Local name.
    LocalName,
}

/// The wire spelling of an advertisement include.
pub open spec fn le_advertisement_feature_chars(f: LeAdvertisementFeature) -> Seq<char> {
    match f {
        LeAdvertisementFeature::TxPower => "tx-power"@,
        LeAdvertisementFeature::Appearance => "appearance"@,
        LeAdvertisementFeature::LocalName => "local-name"@,
    }
}

/// The advertisement include a wire string names, if any.
pub open spec fn le_advertisement_feature_of_chars(s: Seq<char>) -> Option<
    LeAdvertisementFeature,
> {
    if s == "tx-power"@ {
        Some(LeAdvertisementFeature::TxPower)
    } else if s == "appearance"@ {
        Some(LeAdvertisementFeature::Appearance)
    } else if s == "local-name"@ {
        Some(LeAdvertisementFeature::LocalName)
    } else {
        None
    }
}

impl LeAdvertisementFeature {
    /// Reads an advertisement include from its wire spelling.
    pub fn parse_wire_str(s: &str) -> (r: Option<LeAdvertisementFeature>)
        ensures
            r == le_advertisement_feature_of_chars(s@),
    {
        if str_eq(s, "tx-power") {
            Some(LeAdvertisementFeature::TxPower)
        } else if str_eq(s, "appearance") {
            Some(LeAdvertisementFeature::Appearance)
        } else if str_eq(s, "local-name") {
            Some(LeAdvertisementFeature::LocalName)
        } else {
            None
        }
    }
}

/// A secondary advertising channel (PHY).
#[derive(Clone, Copy, Debug, PartialEq, Eq, Structural)]
pub enum LeAdvertisementSecondaryChannel {
    /// The 1M PHY.
    OneM,
    /// The 2M PHY.
    TwoM,
    /// The coded PHY.
    Coded,
}

/// The secondary channel a wire string names, if any.
pub open spec fn le_secondary_channel_of_chars(s: Seq<char>) -> Option<
    LeAdvertisementSecondaryChannel,
> {
    if s == "1M"@ {
        Some(LeAdvertisementSecondaryChannel::OneM)
    } else if s == "2M"@ {
        Some(LeAdvertisementSecondaryChannel::TwoM)
    } else if s == "Coded"@ {
        Some(LeAdvertisementSecondaryChannel::Coded)
    } else {
        None
    }
}

impl LeAdvertisementSecondaryChannel {
    /// Reads a secondary channel from its wire spelling.
    pub fn parse_wire_str(s: &str) -> (r: Option<LeAdvertisementSecondaryChannel>)
        ensures
            r == le_secondary_channel_of_chars(s@),
    {
        if str_eq(s, "1M") {
            Some(LeAdvertisementSecondaryChannel::OneM)
        } else if str_eq(s, "2M") {
            Some(LeAdvertisementSecondaryChannel::TwoM)
        } else if str_eq(s, "Coded") {
            Some(LeAdvertisementSecondaryChannel::Coded)
        } else {
            None
        }
    }
}

/// A platform feature of the advertising manager.
#[derive(Clone, Copy, Debug, PartialEq, Eq, Structural)]
pub enum LeAdvertisingFeature {
    /// The controller can set transmission power.
    CanSetTxPower,
    /// Advertising is offloaded to hardware.
    HardwareOffload,
}

/// The platform feature a wire string names, if any.
pub open spec fn le_advertising_feature_of_chars(s: Seq<char>) -> Option<LeAdvertisingFeature> {
    if s == "CanSetTxPower"@ {
        Some(LeAdvertisingFeature::CanSetTxPower)
    } else if s == "HardwareOffload"@ {
        Some(LeAdvertisingFeature::HardwareOffload)
    } else {
        None
    }
}

impl LeAdvertisingFeature {
    /// Reads a platform feature from its wire spelling.
    pub fn parse_wire_str(s: &str) -> (r: Option<LeAdvertisingFeature>)
        ensures
            r == le_advertising_feature_of_chars(s@),
    {
        if str_eq(s, "CanSetTxPower") {
            Some(LeAdvertisingFeature::CanSetTxPower)
        } else if str_eq(s, "HardwareOffload") {
            Some(LeAdvertisingFeature::HardwareOffload)
        } else {
            None
        }
    }
}

/// Advertising-related controller capabilities, read from a nested wire
/// dictionary; fields absent from the dictionary stay unset.
#[derive(Clone, Copy, Debug, PartialEq, Eq, Structural)]
pub struct LeAdvertisingCapabilities {
    /// Maximum advertisement payload length.
    pub max_advertisement_length: Option<u8>,
    /// Maximum scan-response payload length.
    pub max_scan_response_length: Option<u8>,
    /// Minimum advertising transmission power.
    pub min_tx_power: Option<i16>,
    /// Maximum advertising transmission power.
    pub max_tx_power: Option<i16>,
}

/// The byte stored under `key`: unset when absent, and no capabilities
/// at all when present with another shape.
pub open spec fn capability_u8(entries: Seq<(String, WireValue)>, key: Seq<char>) -> Option<
    Option<u8>,
> {
    match dict_find(entries, key) {
        None => Some(None),
        Some(WireValue::U8(x)) => Some(Some(x)),
        Some(_) => None,
    }
}

/// The 16-bit integer stored under `key`, as `capability_u8`.
pub open spec fn capability_i16(entries: Seq<(String, WireValue)>, key: Seq<char>) -> Option<
    Option<i16>,
> {
    match dict_find(entries, key) {
        None => Some(None),
        Some(WireValue::I16(x)) => Some(Some(x)),
        Some(_) => None,
    }
}

/// The capabilities read from a wire dictionary, or none when a known
/// key carries a value of the wrong shape.
pub open spec fn capabilities_of_dict(entries: Seq<(String, WireValue)>) -> Option<
    LeAdvertisingCapabilities,
> {
    match (
        capability_u8(entries, "MaxAdvLen"@),
        capability_u8(entries, "MaxScnRspLen"@),
        capability_i16(entries, "MinTxPower"@),
        capability_i16(entries, "MaxTxPower"@),
    ) {
        (Some(a), Some(b), Some(c), Some(d)) => Some(
            LeAdvertisingCapabilities {
                max_advertisement_length: a,
                max_scan_response_length: b,
                min_tx_power: c,
                max_tx_power: d,
            },
        ),
        _ => None,
    }
}

impl LeAdvertisingCapabilities {
    /// Reads the capabilities from a wire dictionary; unknown keys are
    /// ignored, a known key of the wrong shape fails the read.
    pub fn from_dict(entries: &Vec<(String, WireValue)>) -> (r: Option<LeAdvertisingCapabilities>)
        ensures
            r == capabilities_of_dict(entries@),
    {
        let max_advertisement_length = match crate::wire::dict_get(entries, "MaxAdvLen") {
            None => None,
            Some(WireValue::U8(x)) => Some(*x),
            Some(_) => return None,
        };
        let max_scan_response_length = match crate::wire::dict_get(entries, "MaxScnRspLen") {
            None => None,
            Some(WireValue::U8(x)) => Some(*x),
            Some(_) => return None,
        };
        let min_tx_power = match crate::wire::dict_get(entries, "MinTxPower") {
            None => None,
            Some(WireValue::I16(x)) => Some(*x),
            Some(_) => return None,
        };
        let max_tx_power = match crate::wire::dict_get(entries, "MaxTxPower") {
            None => None,
            Some(WireValue::I16(x)) => Some(*x),
            Some(_) => return None,
        };
        Some(
            LeAdvertisingCapabilities {
                max_advertisement_length,
                max_scan_response_length,
                min_tx_power,
                max_tx_power,
            },
        )
    }
}

} // verus!
