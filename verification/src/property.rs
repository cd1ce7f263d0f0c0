//! The adapter property table: every named remote attribute, its wire
//! shape, its decoder and encoder, and whether its absence is a protocol
//! violation (mandatory) or simply "not present" (optional). Change
//! sets delivered by the daemon are decoded against the same table.

use vstd::prelude::*;
use vstd::string::*;
use crate::address::{
    Address, AddressType, is_addr_token, addr_of_chars, address_type_of_chars,
};
use crate::advertising::{
    LeAdvertisementFeature, LeAdvertisementSecondaryChannel, LeAdvertisingFeature,
    LeAdvertisingCapabilities, le_advertisement_feature_of_chars, le_secondary_channel_of_chars,
    le_advertising_feature_of_chars, capabilities_of_dict,
};
use crate::modalias::{Modalias, is_modalias_chars, modalias_of_chars};
use crate::text::str_eq;
use crate::uuid_codec::{parsed_uuid, parse_uuid};
use crate::wire::WireValue;
use crate::Error;

verus! {

/// The name of an adapter property: one entry of the declarative table.
#[derive(Clone, Copy, Debug, PartialEq, Eq, Structural)]
pub enum AdapterPropertyKind {
    /// The adapter's hardware address.
    Address,
    /// The kind of the adapter's address.
    AddressType,
    /// The system-provided name.
    SystemName,
    /// The friendly name; writable.
    Alias,
    /// The class of device.
    Class,
    /// Whether the adapter is powered; writable.
    Powered,
    /// Whether the adapter is discoverable; writable.
    Discoverable,
    /// Whether the adapter accepts pairing; writable.
    Pairable,
    /// The pairable timeout in seconds; writable.
    PairableTimeout,
    /// The discoverable timeout in seconds; writable.
    DiscoverableTimeout,
    /// Whether a discovery procedure is active.
    Discovering,
    /// The service UUIDs offered locally.
    Uuids,
    /// The local device identification in modalias format.
    Modalias,
    /// Active advertising instances of the advertising manager.
    ActiveAdvertisingInstances,
    /// Available advertising instances of the advertising manager.
    SupportedAdvertisingInstances,
    /// Includes the controller supports in advertisements.
    SupportedAdvertisingSystemIncludes,
    /// Secondary channels the controller can advertise on.
    SupportedAdvertisingSecondaryChannels,
    /// Advertising capabilities of the controller.
    SupportedAdvertisingCapabilities,
    /// Platform features of the advertising manager.
    SupportedAdvertisingFeatures,
}

/// A decoded adapter property value.
#[derive(Debug, PartialEq, Eq)]
pub enum AdapterProperty {
    /// The adapter's hardware address.
    Address(Address),
    /// The kind of the adapter's address.
    AddressType(AddressType),
    /// The system-provided name.
    SystemName(String),
    /// The friendly name.
    Alias(String),
    /// The class of device.
    Class(u32),
    /// Whether the adapter is powered.
    Powered(bool),
    /// Whether the adapter is discoverable.
    Discoverable(bool),
    /// Whether the adapter accepts pairing.
    Pairable(bool),
    /// The pairable timeout in seconds.
    PairableTimeout(u32),
    /// The discoverable timeout in seconds.
    DiscoverableTimeout(u32),
    /// Whether a discovery procedure is active.
    Discovering(bool),
    /// The service UUIDs offered locally, by 128-bit value.
    Uuids(Vec<u128>),
    /// The local device identification.
    Modalias(Modalias),
    /// Active advertising instances.
    ActiveAdvertisingInstances(u8),
    /// Available advertising instances.
    SupportedAdvertisingInstances(u8),
    /// Supported advertisement includes.
    SupportedAdvertisingSystemIncludes(Vec<LeAdvertisementFeature>),
    /// Supported secondary channels.
    SupportedAdvertisingSecondaryChannels(Vec<LeAdvertisementSecondaryChannel>),
    /// Advertising capabilities.
    SupportedAdvertisingCapabilities(LeAdvertisingCapabilities),
    /// Supported platform features.
    SupportedAdvertisingFeatures(Vec<LeAdvertisingFeature>),
}

/// The mathematical value of a decoded property, with sequences in
/// place of vectors and character sequences in place of strings.
pub enum PropertyData {
    /// The adapter's hardware address.
    Address(Address),
    /// The kind of the adapter's address.
    AddressType(AddressType),
    /// The system-provided name.
    SystemName(Seq<char>),
    /// The friendly name.
    Alias(Seq<char>),
    /// The class of device.
    Class(u32),
    /// Whether the adapter is powered.
    Powered(bool),
    /// Whether the adapter is discoverable.
    Discoverable(bool),
    /// Whether the adapter accepts pairing.
    Pairable(bool),
    /// The pairable timeout in seconds.
    PairableTimeout(u32),
    /// The discoverable timeout in seconds.
    DiscoverableTimeout(u32),
    /// Whether a discovery procedure is active.
    Discovering(bool),
    /// The service UUIDs offered locally.
    Uuids(Seq<u128>),
    /// The local device identification.
    Modalias(Modalias),
    /// Active advertising instances.
    ActiveAdvertisingInstances(u8),
    /// Available advertising instances.
    SupportedAdvertisingInstances(u8),
    /// Supported advertisement includes.
    SupportedAdvertisingSystemIncludes(Seq<LeAdvertisementFeature>),
    /// Supported secondary channels.
    SupportedAdvertisingSecondaryChannels(Seq<LeAdvertisementSecondaryChannel>),
    /// Advertising capabilities.
    SupportedAdvertisingCapabilities(LeAdvertisingCapabilities),
    /// Supported platform features.
    SupportedAdvertisingFeatures(Seq<LeAdvertisingFeature>),
}

impl View for AdapterProperty {
    type V = PropertyData;

    open spec fn view(&self) -> PropertyData {
        match self {
            AdapterProperty::Address(a) => PropertyData::Address(*a),
            AdapterProperty::AddressType(t) => PropertyData::AddressType(*t),
            AdapterProperty::SystemName(s) => PropertyData::SystemName(s@),
            AdapterProperty::Alias(s) => PropertyData::Alias(s@),
            AdapterProperty::Class(x) => PropertyData::Class(*x),
            AdapterProperty::Powered(b) => PropertyData::Powered(*b),
            AdapterProperty::Discoverable(b) => PropertyData::Discoverable(*b),
            AdapterProperty::Pairable(b) => PropertyData::Pairable(*b),
            AdapterProperty::PairableTimeout(x) => PropertyData::PairableTimeout(*x),
            AdapterProperty::DiscoverableTimeout(x) => PropertyData::DiscoverableTimeout(*x),
            AdapterProperty::Discovering(b) => PropertyData::Discovering(*b),
            AdapterProperty::Uuids(v) => PropertyData::Uuids(v@),
            AdapterProperty::Modalias(m) => PropertyData::Modalias(*m),
            AdapterProperty::ActiveAdvertisingInstances(x) => (
                PropertyData::ActiveAdvertisingInstances(*x)
            ),
            AdapterProperty::SupportedAdvertisingInstances(x) => (
                PropertyData::SupportedAdvertisingInstances(*x)
            ),
            AdapterProperty::SupportedAdvertisingSystemIncludes(v) => (
                PropertyData::SupportedAdvertisingSystemIncludes(v@)
            ),
            AdapterProperty::SupportedAdvertisingSecondaryChannels(v) => (
                PropertyData::SupportedAdvertisingSecondaryChannels(v@)
            ),
            AdapterProperty::SupportedAdvertisingCapabilities(c) => (
                PropertyData::SupportedAdvertisingCapabilities(*c)
            ),
            AdapterProperty::SupportedAdvertisingFeatures(v) => (
                PropertyData::SupportedAdvertisingFeatures(v@)
            ),
        }
    }
}

/// The wire name of a property.
pub open spec fn kind_name(k: AdapterPropertyKind) -> Seq<char> {
    match k {
        AdapterPropertyKind::Address => "Address"@,
        AdapterPropertyKind::AddressType => "AddressType"@,
        AdapterPropertyKind::SystemName => "Name"@,
        AdapterPropertyKind::Alias => "Alias"@,
        AdapterPropertyKind::Class => "Class"@,
        AdapterPropertyKind::Powered => "Powered"@,
        AdapterPropertyKind::Discoverable => "Discoverable"@,
        AdapterPropertyKind::Pairable => "Pairable"@,
        AdapterPropertyKind::PairableTimeout => "PairableTimeout"@,
        AdapterPropertyKind::DiscoverableTimeout => "DiscoverableTimeout"@,
        AdapterPropertyKind::Discovering => "Discovering"@,
        AdapterPropertyKind::Uuids => "UUIDs"@,
        AdapterPropertyKind::Modalias => "Modalias"@,
        AdapterPropertyKind::ActiveAdvertisingInstances => "ActiveInstances"@,
        AdapterPropertyKind::SupportedAdvertisingInstances => "SupportedInstances"@,
        AdapterPropertyKind::SupportedAdvertisingSystemIncludes => "SupportedIncludes"@,
        AdapterPropertyKind::SupportedAdvertisingSecondaryChannels => (
            "SupportedSecondaryChannels"@
        ),
        AdapterPropertyKind::SupportedAdvertisingCapabilities => "SupportedCapabilities"@,
        AdapterPropertyKind::SupportedAdvertisingFeatures => "SupportedFeatures"@,
    }
}

/// Whether a property belongs to the advertising manager rather than
/// the adapter interface.
pub open spec fn kind_is_advertising(k: AdapterPropertyKind) -> bool {
    match k {
        AdapterPropertyKind::ActiveAdvertisingInstances => true,
        AdapterPropertyKind::SupportedAdvertisingInstances => true,
        AdapterPropertyKind::SupportedAdvertisingSystemIncludes => true,
        AdapterPropertyKind::SupportedAdvertisingSecondaryChannels => true,
        AdapterPropertyKind::SupportedAdvertisingCapabilities => true,
        AdapterPropertyKind::SupportedAdvertisingFeatures => true,
        _ => false,
    }
}

/// The interface a property is read from.
pub open spec fn kind_interface(k: AdapterPropertyKind) -> Seq<char> {
    if kind_is_advertising(k) {
        "org.bluez.LEAdvertisingManager1"@
    } else {
        "org.bluez.Adapter1"@
    }
}

/// Whether a property's absence is a protocol violation. The service
/// UUID list, the modalias and two advertising properties may be
/// absent; every other property is mandatory.
pub open spec fn kind_mandatory(k: AdapterPropertyKind) -> bool {
    match k {
        AdapterPropertyKind::Uuids => false,
        AdapterPropertyKind::Modalias => false,
        AdapterPropertyKind::SupportedAdvertisingCapabilities => false,
        AdapterPropertyKind::SupportedAdvertisingFeatures => false,
        _ => true,
    }
}

/// Whether a property can be written.
pub open spec fn kind_writable(k: AdapterPropertyKind) -> bool {
    match k {
        AdapterPropertyKind::Alias => true,
        AdapterPropertyKind::Powered => true,
        AdapterPropertyKind::Discoverable => true,
        AdapterPropertyKind::Pairable => true,
        AdapterPropertyKind::PairableTimeout => true,
        AdapterPropertyKind::DiscoverableTimeout => true,
        _ => false,
    }
}

/// The property a wire name denotes, if any; unknown names have no
/// entry in the table.
pub open spec fn kind_of_name(name: Seq<char>) -> Option<AdapterPropertyKind> {
    if name == "Address"@ {
        Some(AdapterPropertyKind::Address)
    } else if name == "AddressType"@ {
        Some(AdapterPropertyKind::AddressType)
    } else if name == "Name"@ {
        Some(AdapterPropertyKind::SystemName)
    } else if name == "Alias"@ {
        Some(AdapterPropertyKind::Alias)
    } else if name == "Class"@ {
        Some(AdapterPropertyKind::Class)
    } else if name == "Powered"@ {
        Some(AdapterPropertyKind::Powered)
    } else if name == "Discoverable"@ {
        Some(AdapterPropertyKind::Discoverable)
    } else if name == "Pairable"@ {
        Some(AdapterPropertyKind::Pairable)
    } else if name == "PairableTimeout"@ {
        Some(AdapterPropertyKind::PairableTimeout)
    } else if name == "DiscoverableTimeout"@ {
        Some(AdapterPropertyKind::DiscoverableTimeout)
    } else if name == "Discovering"@ {
        Some(AdapterPropertyKind::Discovering)
    } else if name == "UUIDs"@ {
        Some(AdapterPropertyKind::Uuids)
    } else if name == "Modalias"@ {
        Some(AdapterPropertyKind::Modalias)
    } else if name == "ActiveInstances"@ {
        Some(AdapterPropertyKind::ActiveAdvertisingInstances)
    } else if name == "SupportedInstances"@ {
        Some(AdapterPropertyKind::SupportedAdvertisingInstances)
    } else if name == "SupportedIncludes"@ {
        Some(AdapterPropertyKind::SupportedAdvertisingSystemIncludes)
    } else if name == "SupportedSecondaryChannels"@ {
        Some(AdapterPropertyKind::SupportedAdvertisingSecondaryChannels)
    } else if name == "SupportedCapabilities"@ {
        Some(AdapterPropertyKind::SupportedAdvertisingCapabilities)
    } else if name == "SupportedFeatures"@ {
        Some(AdapterPropertyKind::SupportedAdvertisingFeatures)
    } else {
        None
    }
}

/// The kind a decoded value belongs to.
pub open spec fn kind_of_data(p: PropertyData) -> AdapterPropertyKind {
    match p {
        PropertyData::Address(_) => AdapterPropertyKind::Address,
        PropertyData::AddressType(_) => AdapterPropertyKind::AddressType,
        PropertyData::SystemName(_) => AdapterPropertyKind::SystemName,
        PropertyData::Alias(_) => AdapterPropertyKind::Alias,
        PropertyData::Class(_) => AdapterPropertyKind::Class,
        PropertyData::Powered(_) => AdapterPropertyKind::Powered,
        PropertyData::Discoverable(_) => AdapterPropertyKind::Discoverable,
        PropertyData::Pairable(_) => AdapterPropertyKind::Pairable,
        PropertyData::PairableTimeout(_) => AdapterPropertyKind::PairableTimeout,
        PropertyData::DiscoverableTimeout(_) => AdapterPropertyKind::DiscoverableTimeout,
        PropertyData::Discovering(_) => AdapterPropertyKind::Discovering,
        PropertyData::Uuids(_) => AdapterPropertyKind::Uuids,
        PropertyData::Modalias(_) => AdapterPropertyKind::Modalias,
        PropertyData::ActiveAdvertisingInstances(_) => (
            AdapterPropertyKind::ActiveAdvertisingInstances
        ),
        PropertyData::SupportedAdvertisingInstances(_) => (
            AdapterPropertyKind::SupportedAdvertisingInstances
        ),
        PropertyData::SupportedAdvertisingSystemIncludes(_) => (
            AdapterPropertyKind::SupportedAdvertisingSystemIncludes
        ),
        PropertyData::SupportedAdvertisingSecondaryChannels(_) => (
            AdapterPropertyKind::SupportedAdvertisingSecondaryChannels
        ),
        PropertyData::SupportedAdvertisingCapabilities(_) => (
            AdapterPropertyKind::SupportedAdvertisingCapabilities
        ),
        PropertyData::SupportedAdvertisingFeatures(_) => (
            AdapterPropertyKind::SupportedAdvertisingFeatures
        ),
    }
}

/// All service UUID strings decoded, in order; none as soon as one
/// string is not a UUID spelling.
pub open spec fn uuids_of_strings(l: Seq<Seq<char>>) -> Option<Seq<u128>>
    decreases l.len(),
{
    if l.len() == 0 {
        Some(Seq::empty())
    } else {
        match (uuids_of_strings(l.drop_last()), parsed_uuid(l.last())) {
            (Some(init), Some(u)) => Some(init.push(u)),
            _ => None,
        }
    }
}

/// The advertisement includes named in a string list, in order;
/// unrecognized strings are skipped.
pub open spec fn features_of_strings(l: Seq<Seq<char>>) -> Seq<LeAdvertisementFeature>
    decreases l.len(),
{
    if l.len() == 0 {
        Seq::empty()
    } else {
        let init = features_of_strings(l.drop_last());
        match le_advertisement_feature_of_chars(l.last()) {
            Some(f) => init.push(f),
            None => init,
        }
    }
}

/// The secondary channels named in a string list, in order;
/// unrecognized strings are skipped.
pub open spec fn channels_of_strings(l: Seq<Seq<char>>) -> Seq<LeAdvertisementSecondaryChannel>
    decreases l.len(),
{
    if l.len() == 0 {
        Seq::empty()
    } else {
        let init = channels_of_strings(l.drop_last());
        match le_secondary_channel_of_chars(l.last()) {
            Some(f) => init.push(f),
            None => init,
        }
    }
}

/// The platform features named in a string list, in order;
/// unrecognized strings are skipped.
pub open spec fn advertising_features_of_strings(l: Seq<Seq<char>>) -> Seq<LeAdvertisingFeature>
    decreases l.len(),
{
    if l.len() == 0 {
        Seq::empty()
    } else {
        let init = advertising_features_of_strings(l.drop_last());
        match le_advertising_feature_of_chars(l.last()) {
            Some(f) => init.push(f),
            None => init,
        }
    }
}

/// The decoded value of a wire value under a property's entry in the
/// table, or none when the value does not decode.
pub open spec fn decode_value_spec(k: AdapterPropertyKind, v: WireValue) -> Option<PropertyData> {
    match k {
        AdapterPropertyKind::Address => match v {
            WireValue::Str(s) => if is_addr_token(s@, ':') {
                Some(PropertyData::Address(addr_of_chars(s@)))
            } else {
                None
            },
            _ => None,
        },
        AdapterPropertyKind::AddressType => match v {
            WireValue::Str(s) => match address_type_of_chars(s@) {
                Some(t) => Some(PropertyData::AddressType(t)),
                None => None,
            },
            _ => None,
        },
        AdapterPropertyKind::SystemName => match v {
            WireValue::Str(s) => Some(PropertyData::SystemName(s@)),
            _ => None,
        },
        AdapterPropertyKind::Alias => match v {
            WireValue::Str(s) => Some(PropertyData::Alias(s@)),
            _ => None,
        },
        AdapterPropertyKind::Class => match v {
            WireValue::U32(x) => Some(PropertyData::Class(x)),
            _ => None,
        },
        AdapterPropertyKind::Powered => match v {
            WireValue::Bool(b) => Some(PropertyData::Powered(b)),
            _ => None,
        },
        AdapterPropertyKind::Discoverable => match v {
            WireValue::Bool(b) => Some(PropertyData::Discoverable(b)),
            _ => None,
        },
        AdapterPropertyKind::Pairable => match v {
            WireValue::Bool(b) => Some(PropertyData::Pairable(b)),
            _ => None,
        },
        AdapterPropertyKind::PairableTimeout => match v {
            WireValue::U32(x) => Some(PropertyData::PairableTimeout(x)),
            _ => None,
        },
        AdapterPropertyKind::DiscoverableTimeout => match v {
            WireValue::U32(x) => Some(PropertyData::DiscoverableTimeout(x)),
            _ => None,
        },
        AdapterPropertyKind::Discovering => match v {
            WireValue::Bool(b) => Some(PropertyData::Discovering(b)),
            _ => None,
        },
        AdapterPropertyKind::Uuids => match v {
            WireValue::StrList(l) => match uuids_of_strings(l.deep_view()) {
                Some(us) => Some(PropertyData::Uuids(us)),
                None => None,
            },
            _ => None,
        },
        AdapterPropertyKind::Modalias => match v {
            WireValue::Str(s) => if is_modalias_chars(s@) {
                Some(PropertyData::Modalias(modalias_of_chars(s@)))
            } else {
                None
            },
            _ => None,
        },
        AdapterPropertyKind::ActiveAdvertisingInstances => match v {
            WireValue::U8(x) => Some(PropertyData::ActiveAdvertisingInstances(x)),
            _ => None,
        },
        AdapterPropertyKind::SupportedAdvertisingInstances => match v {
            WireValue::U8(x) => Some(PropertyData::SupportedAdvertisingInstances(x)),
            _ => None,
        },
        AdapterPropertyKind::SupportedAdvertisingSystemIncludes => match v {
            WireValue::StrList(l) => Some(
                PropertyData::SupportedAdvertisingSystemIncludes(
                    features_of_strings(l.deep_view()),
                ),
            ),
            _ => None,
        },
        AdapterPropertyKind::SupportedAdvertisingSecondaryChannels => match v {
            WireValue::StrList(l) => Some(
                PropertyData::SupportedAdvertisingSecondaryChannels(
                    channels_of_strings(l.deep_view()),
                ),
            ),
            _ => None,
        },
        AdapterPropertyKind::SupportedAdvertisingCapabilities => match v {
            WireValue::Dict(d) => match capabilities_of_dict(d@) {
                Some(c) => Some(PropertyData::SupportedAdvertisingCapabilities(c)),
                None => None,
            },
            _ => None,
        },
        AdapterPropertyKind::SupportedAdvertisingFeatures => match v {
            WireValue::StrList(l) => Some(
                PropertyData::SupportedAdvertisingFeatures(
                    advertising_features_of_strings(l.deep_view()),
                ),
            ),
            _ => None,
        },
    }
}

impl AdapterPropertyKind {
    /// The wire name of this property.
    pub fn name_str(&self) -> (r: &'static str)
        ensures
            r@ == kind_name(*self),
    {
        match self {
            AdapterPropertyKind::Address => "Address",
            AdapterPropertyKind::AddressType => "AddressType",
            AdapterPropertyKind::SystemName => "Name",
            AdapterPropertyKind::Alias => "Alias",
            AdapterPropertyKind::Class => "Class",
            AdapterPropertyKind::Powered => "Powered",
            AdapterPropertyKind::Discoverable => "Discoverable",
            AdapterPropertyKind::Pairable => "Pairable",
            AdapterPropertyKind::PairableTimeout => "PairableTimeout",
            AdapterPropertyKind::DiscoverableTimeout => "DiscoverableTimeout",
            AdapterPropertyKind::Discovering => "Discovering",
            AdapterPropertyKind::Uuids => "UUIDs",
            AdapterPropertyKind::Modalias => "Modalias",
            AdapterPropertyKind::ActiveAdvertisingInstances => "ActiveInstances",
            AdapterPropertyKind::SupportedAdvertisingInstances => "SupportedInstances",
            AdapterPropertyKind::SupportedAdvertisingSystemIncludes => "SupportedIncludes",
            AdapterPropertyKind::SupportedAdvertisingSecondaryChannels => (
                "SupportedSecondaryChannels"
            ),
            AdapterPropertyKind::SupportedAdvertisingCapabilities => "SupportedCapabilities",
            AdapterPropertyKind::SupportedAdvertisingFeatures => "SupportedFeatures",
        }
    }

    /// The interface this property is read from.
    pub fn interface_str(&self) -> (r: &'static str)
        ensures
            r@ == kind_interface(*self),
    {
        if self.is_advertising() {
            "org.bluez.LEAdvertisingManager1"
        } else {
            "org.bluez.Adapter1"
        }
    }

    /// Whether this property belongs to the advertising manager.
    pub fn is_advertising(&self) -> (r: bool)
        ensures
            r == kind_is_advertising(*self),
    {
        match self {
            AdapterPropertyKind::ActiveAdvertisingInstances => true,
            AdapterPropertyKind::SupportedAdvertisingInstances => true,
            AdapterPropertyKind::SupportedAdvertisingSystemIncludes => true,
            AdapterPropertyKind::SupportedAdvertisingSecondaryChannels => true,
            AdapterPropertyKind::SupportedAdvertisingCapabilities => true,
            AdapterPropertyKind::SupportedAdvertisingFeatures => true,
            _ => false,
        }
    }

    /// Whether this property's absence is a protocol violation.
    pub fn is_mandatory(&self) -> (r: bool)
        ensures
            r == kind_mandatory(*self),
    {
        match self {
            AdapterPropertyKind::Uuids => false,
            AdapterPropertyKind::Modalias => false,
            AdapterPropertyKind::SupportedAdvertisingCapabilities => false,
            AdapterPropertyKind::SupportedAdvertisingFeatures => false,
            _ => true,
        }
    }

    /// Whether this property can be written.
    pub fn is_writable(&self) -> (r: bool)
        ensures
            r == kind_writable(*self),
    {
        match self {
            AdapterPropertyKind::Alias => true,
            AdapterPropertyKind::Powered => true,
            AdapterPropertyKind::Discoverable => true,
            AdapterPropertyKind::Pairable => true,
            AdapterPropertyKind::PairableTimeout => true,
            AdapterPropertyKind::DiscoverableTimeout => true,
            _ => false,
        }
    }

    /// The table entry a wire name denotes, if any.
    pub fn of_name_str(name: &str) -> (r: Option<AdapterPropertyKind>)
        ensures
            r == kind_of_name(name@),
    {
        if str_eq(name, "Address") {
            Some(AdapterPropertyKind::Address)
        } else if str_eq(name, "AddressType") {
            Some(AdapterPropertyKind::AddressType)
        } else if str_eq(name, "Name") {
            Some(AdapterPropertyKind::SystemName)
        } else if str_eq(name, "Alias") {
            Some(AdapterPropertyKind::Alias)
        } else if str_eq(name, "Class") {
            Some(AdapterPropertyKind::Class)
        } else if str_eq(name, "Powered") {
            Some(AdapterPropertyKind::Powered)
        } else if str_eq(name, "Discoverable") {
            Some(AdapterPropertyKind::Discoverable)
        } else if str_eq(name, "Pairable") {
            Some(AdapterPropertyKind::Pairable)
        } else if str_eq(name, "PairableTimeout") {
            Some(AdapterPropertyKind::PairableTimeout)
        } else if str_eq(name, "DiscoverableTimeout") {
            Some(AdapterPropertyKind::DiscoverableTimeout)
        } else if str_eq(name, "Discovering") {
            Some(AdapterPropertyKind::Discovering)
        } else if str_eq(name, "UUIDs") {
            Some(AdapterPropertyKind::Uuids)
        } else if str_eq(name, "Modalias") {
            Some(AdapterPropertyKind::Modalias)
        } else if str_eq(name, "ActiveInstances") {
            Some(AdapterPropertyKind::ActiveAdvertisingInstances)
        } else if str_eq(name, "SupportedInstances") {
            Some(AdapterPropertyKind::SupportedAdvertisingInstances)
        } else if str_eq(name, "SupportedIncludes") {
            Some(AdapterPropertyKind::SupportedAdvertisingSystemIncludes)
        } else if str_eq(name, "SupportedSecondaryChannels") {
            Some(AdapterPropertyKind::SupportedAdvertisingSecondaryChannels)
        } else if str_eq(name, "SupportedCapabilities") {
            Some(AdapterPropertyKind::SupportedAdvertisingCapabilities)
        } else if str_eq(name, "SupportedFeatures") {
            Some(AdapterPropertyKind::SupportedAdvertisingFeatures)
        } else {
            None
        }
    }
}

impl AdapterProperty {
    /// The table entry this value belongs to.
    pub fn kind(&self) -> (k: AdapterPropertyKind)
        ensures
            k == kind_of_data(self@),
    {
        match self {
            AdapterProperty::Address(_) => AdapterPropertyKind::Address,
            AdapterProperty::AddressType(_) => AdapterPropertyKind::AddressType,
            AdapterProperty::SystemName(_) => AdapterPropertyKind::SystemName,
            AdapterProperty::Alias(_) => AdapterPropertyKind::Alias,
            AdapterProperty::Class(_) => AdapterPropertyKind::Class,
            AdapterProperty::Powered(_) => AdapterPropertyKind::Powered,
            AdapterProperty::Discoverable(_) => AdapterPropertyKind::Discoverable,
            AdapterProperty::Pairable(_) => AdapterPropertyKind::Pairable,
            AdapterProperty::PairableTimeout(_) => AdapterPropertyKind::PairableTimeout,
            AdapterProperty::DiscoverableTimeout(_) => AdapterPropertyKind::DiscoverableTimeout,
            AdapterProperty::Discovering(_) => AdapterPropertyKind::Discovering,
            AdapterProperty::Uuids(_) => AdapterPropertyKind::Uuids,
            AdapterProperty::Modalias(_) => AdapterPropertyKind::Modalias,
            AdapterProperty::ActiveAdvertisingInstances(_) => (
                AdapterPropertyKind::ActiveAdvertisingInstances
            ),
            AdapterProperty::SupportedAdvertisingInstances(_) => (
                AdapterPropertyKind::SupportedAdvertisingInstances
            ),
            AdapterProperty::SupportedAdvertisingSystemIncludes(_) => (
                AdapterPropertyKind::SupportedAdvertisingSystemIncludes
            ),
            AdapterProperty::SupportedAdvertisingSecondaryChannels(_) => (
                AdapterPropertyKind::SupportedAdvertisingSecondaryChannels
            ),
            AdapterProperty::SupportedAdvertisingCapabilities(_) => (
                AdapterPropertyKind::SupportedAdvertisingCapabilities
            ),
            AdapterProperty::SupportedAdvertisingFeatures(_) => (
                AdapterPropertyKind::SupportedAdvertisingFeatures
            ),
        }
    }
}

/// Once a prefix of the list fails to decode, the whole list fails.
proof fn lemma_uuids_none_extends(l: Seq<Seq<char>>, j: int)
    requires
        0 <= j <= l.len(),
        uuids_of_strings(l.take(j)) is None,
    ensures
        uuids_of_strings(l) is None,
    decreases l.len() - j,
{
    if j < l.len() {
        assert(l.take(j + 1).drop_last() =~= l.take(j));
        lemma_uuids_none_extends(l, j + 1);
    } else {
        assert(l.take(j) =~= l);
    }
}

/// Decodes a service UUID list; the first string that is no UUID
/// spelling fails the whole list, naming that string.
fn decode_uuid_list(l: &Vec<String>) -> (r: Result<Vec<u128>, Error>)
    ensures
        r matches Ok(us) ==> uuids_of_strings(l.deep_view()) == Some(us@),
        r is Ok <==> uuids_of_strings(l.deep_view()) is Some,
        r matches Err(e) ==> (e matches Error::InvalidUuid(s) && parsed_uuid(s@) is None),
{
    let ghost lv = l.deep_view();
    let mut out: Vec<u128> = Vec::new();
    let n = l.len();
    let mut i: usize = 0;
    proof {
        assert(lv.take(0) =~= Seq::<Seq<char>>::empty());
    }
    while i < n
        invariant
            i <= n,
            n == l@.len(),
            lv == l.deep_view(),
            uuids_of_strings(lv.take(i as int)) == Some(out@),
        decreases n - i,
    {
        proof {
            assert(lv.take(i + 1).drop_last() =~= lv.take(i as int));
            assert(lv.take(i + 1).last() == lv[i as int]);
        }
        let s = &l[i];
        match parse_uuid(s.as_str()) {
            Some(u) => {
                let ghost prev = out@;
                out.push(u);
                proof {
                    assert(out@ =~= prev.push(u));
                }
            },
            None => {
                proof {
                    lemma_uuids_none_extends(lv, i + 1);
                }
                return Err(Error::InvalidUuid(s.clone()));
            },
        }
        i += 1;
    }
    proof {
        assert(lv.take(n as int) =~= lv);
    }
    Ok(out)
}

/// Decodes a list of advertisement includes, skipping unrecognized
/// strings.
fn decode_feature_list(l: &Vec<String>) -> (r: Vec<LeAdvertisementFeature>)
    ensures
        r@ == features_of_strings(l.deep_view()),
{
    let ghost lv = l.deep_view();
    let mut out: Vec<LeAdvertisementFeature> = Vec::new();
    let n = l.len();
    let mut i: usize = 0;
    proof {
        assert(lv.take(0) =~= Seq::<Seq<char>>::empty());
    }
    while i < n
        invariant
            i <= n,
            n == l@.len(),
            lv == l.deep_view(),
            out@ == features_of_strings(lv.take(i as int)),
        decreases n - i,
    {
        proof {
            assert(lv.take(i + 1).drop_last() =~= lv.take(i as int));
            assert(lv.take(i + 1).last() == lv[i as int]);
        }
        match LeAdvertisementFeature::parse_wire_str(l[i].as_str()) {
            Some(f) => {
                let ghost prev = out@;
                out.push(f);
                proof {
                    assert(out@ =~= prev.push(f));
                }
            },
            None => {},
        }
        i += 1;
    }
    proof {
        assert(lv.take(n as int) =~= lv);
    }
    out
}

/// Decodes a list of secondary channels, skipping unrecognized strings.
fn decode_channel_list(l: &Vec<String>) -> (r: Vec<LeAdvertisementSecondaryChannel>)
    ensures
        r@ == channels_of_strings(l.deep_view()),
{
    let ghost lv = l.deep_view();
    let mut out: Vec<LeAdvertisementSecondaryChannel> = Vec::new();
    let n = l.len();
    let mut i: usize = 0;
    proof {
        assert(lv.take(0) =~= Seq::<Seq<char>>::empty());
    }
    while i < n
        invariant
            i <= n,
            n == l@.len(),
            lv == l.deep_view(),
            out@ == channels_of_strings(lv.take(i as int)),
        decreases n - i,
    {
        proof {
            assert(lv.take(i + 1).drop_last() =~= lv.take(i as int));
            assert(lv.take(i + 1).last() == lv[i as int]);
        }
        match LeAdvertisementSecondaryChannel::parse_wire_str(l[i].as_str()) {
            Some(f) => {
                let ghost prev = out@;
                out.push(f);
                proof {
                    assert(out@ =~= prev.push(f));
                }
            },
            None => {},
        }
        i += 1;
    }
    proof {
        assert(lv.take(n as int) =~= lv);
    }
    out
}

/// Decodes a list of platform features, skipping unrecognized strings.
fn decode_advertising_feature_list(l: &Vec<String>) -> (r: Vec<LeAdvertisingFeature>)
    ensures
        r@ == advertising_features_of_strings(l.deep_view()),
{
    let ghost lv = l.deep_view();
    let mut out: Vec<LeAdvertisingFeature> = Vec::new();
    let n = l.len();
    let mut i: usize = 0;
    proof {
        assert(lv.take(0) =~= Seq::<Seq<char>>::empty());
    }
    while i < n
        invariant
            i <= n,
            n == l@.len(),
            lv == l.deep_view(),
            out@ == advertising_features_of_strings(lv.take(i as int)),
        decreases n - i,
    {
        proof {
            assert(lv.take(i + 1).drop_last() =~= lv.take(i as int));
            assert(lv.take(i + 1).last() == lv[i as int]);
        }
        match LeAdvertisingFeature::parse_wire_str(l[i].as_str()) {
            Some(f) => {
                let ghost prev = out@;
                out.push(f);
                proof {
                    assert(out@ =~= prev.push(f));
                }
            },
            None => {},
        }
        i += 1;
    }
    proof {
        assert(lv.take(n as int) =~= lv);
    }
    out
}

/// The error for a value of the wrong shape under this property: the
/// property's name, and the offending string or the shape seen.
fn invalid_value_err(k: AdapterPropertyKind, v: &WireValue) -> (e: Error)
    ensures
        e matches Error::InvalidValue(n, _) && n@ == kind_name(k),
{
    let rendering = match v {
        WireValue::Str(s) => s.clone(),
        _ => String::from_str(v.shape_str()),
    };
    Error::InvalidValue(String::from_str(k.name_str()), rendering)
}

/// Decodes a present wire value under a property's table entry; fails
/// exactly when the value does not decode, naming the property and the
/// offending value.
pub fn decode_value(k: AdapterPropertyKind, v: &WireValue) -> (r: Result<AdapterProperty, Error>)
    ensures
        r matches Ok(p) ==> decode_value_spec(k, *v) == Some(p@),
        r is Ok <==> decode_value_spec(k, *v) is Some,
        r matches Err(e) ==> e matches Error::InvalidUuid(_) || (e matches Error::InvalidValue(
            n,
            _,
        ) && n@ == kind_name(k)),
{
    match k {
        AdapterPropertyKind::Address => match v {
            WireValue::Str(s) => match Address::parse_token(s.as_str(), ':') {
                Some(a) => Ok(AdapterProperty::Address(a)),
                None => Err(invalid_value_err(k, v)),
            },
            _ => Err(invalid_value_err(k, v)),
        },
        AdapterPropertyKind::AddressType => match v {
            WireValue::Str(s) => match AddressType::parse_wire_str(s.as_str()) {
                Some(t) => Ok(AdapterProperty::AddressType(t)),
                None => Err(invalid_value_err(k, v)),
            },
            _ => Err(invalid_value_err(k, v)),
        },
        AdapterPropertyKind::SystemName => match v {
            WireValue::Str(s) => Ok(AdapterProperty::SystemName(s.clone())),
            _ => Err(invalid_value_err(k, v)),
        },
        AdapterPropertyKind::Alias => match v {
            WireValue::Str(s) => Ok(AdapterProperty::Alias(s.clone())),
            _ => Err(invalid_value_err(k, v)),
        },
        AdapterPropertyKind::Class => match v {
            WireValue::U32(x) => Ok(AdapterProperty::Class(*x)),
            _ => Err(invalid_value_err(k, v)),
        },
        AdapterPropertyKind::Powered => match v {
            WireValue::Bool(b) => Ok(AdapterProperty::Powered(*b)),
            _ => Err(invalid_value_err(k, v)),
        },
        AdapterPropertyKind::Discoverable => match v {
            WireValue::Bool(b) => Ok(AdapterProperty::Discoverable(*b)),
            _ => Err(invalid_value_err(k, v)),
        },
        AdapterPropertyKind::Pairable => match v {
            WireValue::Bool(b) => Ok(AdapterProperty::Pairable(*b)),
            _ => Err(invalid_value_err(k, v)),
        },
        AdapterPropertyKind::PairableTimeout => match v {
            WireValue::U32(x) => Ok(AdapterProperty::PairableTimeout(*x)),
            _ => Err(invalid_value_err(k, v)),
        },
        AdapterPropertyKind::DiscoverableTimeout => match v {
            WireValue::U32(x) => Ok(AdapterProperty::DiscoverableTimeout(*x)),
            _ => Err(invalid_value_err(k, v)),
        },
        AdapterPropertyKind::Discovering => match v {
            WireValue::Bool(b) => Ok(AdapterProperty::Discovering(*b)),
            _ => Err(invalid_value_err(k, v)),
        },
        AdapterPropertyKind::Uuids => match v {
            WireValue::StrList(l) => match decode_uuid_list(l) {
                Ok(us) => Ok(AdapterProperty::Uuids(us)),
                Err(e) => Err(e),
            },
            _ => Err(invalid_value_err(k, v)),
        },
        AdapterPropertyKind::Modalias => match v {
            WireValue::Str(s) => match Modalias::parse(s.as_str()) {
                Some(m) => Ok(AdapterProperty::Modalias(m)),
                None => Err(invalid_value_err(k, v)),
            },
            _ => Err(invalid_value_err(k, v)),
        },
        AdapterPropertyKind::ActiveAdvertisingInstances => match v {
            WireValue::U8(x) => Ok(AdapterProperty::ActiveAdvertisingInstances(*x)),
            _ => Err(invalid_value_err(k, v)),
        },
        AdapterPropertyKind::SupportedAdvertisingInstances => match v {
            WireValue::U8(x) => Ok(AdapterProperty::SupportedAdvertisingInstances(*x)),
            _ => Err(invalid_value_err(k, v)),
        },
        AdapterPropertyKind::SupportedAdvertisingSystemIncludes => match v {
            WireValue::StrList(l) => Ok(
                AdapterProperty::SupportedAdvertisingSystemIncludes(decode_feature_list(l)),
            ),
            _ => Err(invalid_value_err(k, v)),
        },
        AdapterPropertyKind::SupportedAdvertisingSecondaryChannels => match v {
            WireValue::StrList(l) => Ok(
                AdapterProperty::SupportedAdvertisingSecondaryChannels(decode_channel_list(l)),
            ),
            _ => Err(invalid_value_err(k, v)),
        },
        AdapterPropertyKind::SupportedAdvertisingCapabilities => match v {
            WireValue::Dict(d) => match LeAdvertisingCapabilities::from_dict(d) {
                Some(c) => Ok(AdapterProperty::SupportedAdvertisingCapabilities(c)),
                None => Err(invalid_value_err(k, v)),
            },
            _ => Err(invalid_value_err(k, v)),
        },
        AdapterPropertyKind::SupportedAdvertisingFeatures => match v {
            WireValue::StrList(l) => Ok(
                AdapterProperty::SupportedAdvertisingFeatures(decode_advertising_feature_list(l)),
            ),
            _ => Err(invalid_value_err(k, v)),
        },
    }
}

/// Reads a property from its wire value, if one arrived. A mandatory
/// property that is absent is a protocol violation; an optional one
/// that is absent is "not present", not an error. A present value that
/// does not decode names the property and the offending value.
pub fn decode_property(k: AdapterPropertyKind, found: Option<&WireValue>) -> (r: Result<
    Option<AdapterProperty>,
    Error,
>)
    ensures
        found is None && kind_mandatory(k) ==> (r matches Err(e) && e matches
            Error::MissingProperty(n) && n@ == kind_name(k)),
        found is None && !kind_mandatory(k) ==> (r matches Ok(p) && p is None),
        found matches Some(v) ==> (r is Ok <==> decode_value_spec(k, *v) is Some),
        found is Some && r is Ok ==> ((r->Ok_0) matches Some(q) && decode_value_spec(
            k,
            *(found->Some_0),
        ) == Some(q@)),
        found is Some && r is Err ==> ((r->Err_0) matches Error::InvalidUuid(_) || (
        (r->Err_0) matches Error::InvalidValue(n, _) && n@ == kind_name(k))),
{
    match found {
        None => {
            if k.is_mandatory() {
                Err(Error::MissingProperty(String::from_str(k.name_str())))
            } else {
                Ok(None)
            }
        },
        Some(v) => match decode_value(k, v) {
            Ok(p) => Ok(Some(p)),
            Err(e) => Err(e),
        },
    }
}

/// The decoded events of a change set: each entry whose name is in the
/// table and whose value decodes contributes its value, in the order
/// the entries arrived; unregistered names and undecodable values are
/// skipped.
pub open spec fn decode_changes_spec(entries: Seq<(String, WireValue)>) -> Seq<PropertyData>
    decreases entries.len(),
{
    if entries.len() == 0 {
        Seq::empty()
    } else {
        let init = decode_changes_spec(entries.drop_last());
        let last = entries.last();
        match kind_of_name(last.0@) {
            Some(k) => match decode_value_spec(k, last.1) {
                Some(p) => init.push(p),
                None => init,
            },
            None => init,
        }
    }
}

/// Decodes a change set: a partial update holding only the attributes
/// that changed. Keys not in the table are ignored; recognized keys
/// yield their decoded values in the order they arrived.
pub fn decode_change_set(entries: &Vec<(String, WireValue)>) -> (r: Vec<AdapterProperty>)
    ensures
        r@.map_values(|p: AdapterProperty| p@) == decode_changes_spec(entries@),
{
    let mut out: Vec<AdapterProperty> = Vec::new();
    let n = entries.len();
    let mut i: usize = 0;
    proof {
        assert(entries@.take(0) =~= Seq::<(String, WireValue)>::empty());
        assert(out@.map_values(|p: AdapterProperty| p@) =~= Seq::<PropertyData>::empty());
    }
    while i < n
        invariant
            i <= n,
            n == entries@.len(),
            out@.map_values(|p: AdapterProperty| p@) == decode_changes_spec(
                entries@.take(i as int),
            ),
        decreases n - i,
    {
        proof {
            assert(entries@.take(i + 1).drop_last() =~= entries@.take(i as int));
            assert(entries@.take(i + 1).last() == entries@[i as int]);
        }
        let entry = &entries[i];
        match AdapterPropertyKind::of_name_str(entry.0.as_str()) {
            Some(k) => match decode_value(k, &entry.1) {
                Ok(p) => {
                    let ghost prev = out@;
                    out.push(p);
                    proof {
                        assert(out@ =~= prev.push(p));
                        assert(out@.map_values(|q: AdapterProperty| q@) =~= prev.map_values(
                            |q: AdapterProperty| q@,
                        ).push(p@));
                    }
                },
                Err(_) => {},
            },
            None => {},
        }
        i += 1;
    }
    proof {
        assert(entries@.take(n as int) =~= entries@);
    }
    out
}

/// Law: an entry whose key is not in the table contributes nothing: a
/// change set with it decodes exactly as the same change set without
/// it, wherever the entry stands.
pub proof fn lemma_unregistered_key_ignored(
    before: Seq<(String, WireValue)>,
    entry: (String, WireValue),
    after: Seq<(String, WireValue)>,
)
    requires
        kind_of_name(entry.0@) is None,
    ensures
        decode_changes_spec(before + seq![entry] + after) == decode_changes_spec(before + after),
    decreases after.len(),
{
    if after.len() == 0 {
        assert(before + after =~= before);
        assert((before + seq![entry] + after).drop_last() =~= before);
        assert((before + seq![entry] + after).last() == entry);
    } else {
        lemma_unregistered_key_ignored(before, entry, after.drop_last());
        assert((before + seq![entry] + after).drop_last() =~= before + seq![entry]
            + after.drop_last());
        assert((before + seq![entry] + after).last() == after.last());
        assert((before + after).drop_last() =~= before + after.drop_last());
        assert((before + after).last() == after.last());
    }
}

/// Encodes a property for a write. Only the writable properties have an
/// encoder; for every other property the write fails as read-only,
/// naming the property.
pub fn encode_property(p: &AdapterProperty) -> (r: Result<WireValue, Error>)
    ensures
        r is Ok <==> kind_writable(kind_of_data(p@)),
        *p matches AdapterProperty::Alias(s) ==> (r matches Ok(v) && v matches WireValue::Str(t)
            && t@ == s@),
        *p matches AdapterProperty::Powered(b) ==> r matches Ok(v) && v == WireValue::Bool(b),
        *p matches AdapterProperty::Discoverable(b) ==> r matches Ok(v) && v == WireValue::Bool(b),
        *p matches AdapterProperty::Pairable(b) ==> r matches Ok(v) && v == WireValue::Bool(b),
        *p matches AdapterProperty::PairableTimeout(x) ==> r matches Ok(v) && v == WireValue::U32(
            x,
        ),
        *p matches AdapterProperty::DiscoverableTimeout(x) ==> r matches Ok(v) && v
            == WireValue::U32(x),
        r matches Err(e) ==> (e matches Error::NotWritable(n) && n@ == kind_name(
            kind_of_data(p@),
        )),
{
    match p {
        AdapterProperty::Alias(s) => Ok(WireValue::Str(s.clone())),
        AdapterProperty::Powered(b) => Ok(WireValue::Bool(*b)),
        AdapterProperty::Discoverable(b) => Ok(WireValue::Bool(*b)),
        AdapterProperty::Pairable(b) => Ok(WireValue::Bool(*b)),
        AdapterProperty::PairableTimeout(x) => Ok(WireValue::U32(*x)),
        AdapterProperty::DiscoverableTimeout(x) => Ok(WireValue::U32(*x)),
        _ => Err(Error::NotWritable(String::from_str(p.kind().name_str()))),
    }
}

} // verus!
