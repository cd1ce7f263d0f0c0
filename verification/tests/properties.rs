//! The property table: mandatory/optional semantics, decoding,
//! encoding, and change sets.

use bluez_adapter::address::{Address, AddressType};
use bluez_adapter::advertising::{
    LeAdvertisementFeature, LeAdvertisementSecondaryChannel, LeAdvertisingCapabilities,
    LeAdvertisingFeature,
};
use bluez_adapter::modalias::Modalias;
use bluez_adapter::property::{
    AdapterProperty, AdapterPropertyKind, decode_change_set, decode_property, decode_value,
    encode_property,
};
use bluez_adapter::wire::WireValue;
use bluez_adapter::Error;

#[test]
fn mandatory_property_absent_is_protocol_violation() {
    let r = decode_property(AdapterPropertyKind::Address, None);
    assert_eq!(r, Err(Error::MissingProperty("Address".to_string())));
    let r = decode_property(AdapterPropertyKind::Powered, None);
    assert_eq!(r, Err(Error::MissingProperty("Powered".to_string())));
}

#[test]
fn optional_property_absent_is_not_present() {
    assert_eq!(decode_property(AdapterPropertyKind::Uuids, None), Ok(None));
    assert_eq!(decode_property(AdapterPropertyKind::Modalias, None), Ok(None));
    assert_eq!(
        decode_property(AdapterPropertyKind::SupportedAdvertisingFeatures, None),
        Ok(None)
    );
}

#[test]
fn present_property_decodes() {
    let r = decode_property(AdapterPropertyKind::Powered, Some(&WireValue::Bool(true)));
    assert_eq!(r, Ok(Some(AdapterProperty::Powered(true))));
    let r = decode_property(
        AdapterPropertyKind::Address,
        Some(&WireValue::Str("AA:BB:CC:DD:EE:FF".to_string())),
    );
    assert_eq!(
        r,
        Ok(Some(AdapterProperty::Address(Address {
            b0: 0xAA,
            b1: 0xBB,
            b2: 0xCC,
            b3: 0xDD,
            b4: 0xEE,
            b5: 0xFF
        })))
    );
}

#[test]
fn wrong_shape_names_property_and_shape() {
    let r = decode_value(AdapterPropertyKind::Powered, &WireValue::Str("yes".to_string()));
    assert_eq!(r, Err(Error::InvalidValue("Powered".to_string(), "yes".to_string())));
    let r = decode_value(AdapterPropertyKind::Class, &WireValue::Bool(false));
    assert_eq!(r, Err(Error::InvalidValue("Class".to_string(), "bool".to_string())));
}

#[test]
fn uuid_list_decodes_to_values() {
    let wire = WireValue::StrList(vec![
        "0000110b-0000-1000-8000-00805f9b34fb".to_string(),
        "0000180d-0000-1000-8000-00805f9b34fb".to_string(),
    ]);
    let r = decode_value(AdapterPropertyKind::Uuids, &wire);
    assert_eq!(
        r,
        Ok(AdapterProperty::Uuids(vec![
            0x0000110b_0000_1000_8000_00805f9b34fb,
            0x0000180d_0000_1000_8000_00805f9b34fb,
        ]))
    );
}

#[test]
fn malformed_uuid_is_named() {
    let wire = WireValue::StrList(vec![
        "0000110b-0000-1000-8000-00805f9b34fb".to_string(),
        "not-a-uuid".to_string(),
    ]);
    let r = decode_value(AdapterPropertyKind::Uuids, &wire);
    assert_eq!(r, Err(Error::InvalidUuid("not-a-uuid".to_string())));
}

#[test]
fn modalias_decodes_fields() {
    let r = decode_value(
        AdapterPropertyKind::Modalias,
        &WireValue::Str("usb:v1D6Bp0246d0537".to_string()),
    );
    assert_eq!(
        r,
        Ok(AdapterProperty::Modalias(Modalias { vendor: 0x1D6B, product: 0x0246, device: 0x0537 }))
    );
    assert_eq!(Modalias::parse("usb:v1D6Bp0246"), None);
    assert_eq!(Modalias::parse("pci:v1D6Bp0246d0537"), None);
}

#[test]
fn address_type_property() {
    let r = decode_value(AdapterPropertyKind::AddressType, &WireValue::Str("public".to_string()));
    assert_eq!(r, Ok(AdapterProperty::AddressType(AddressType::Public)));
    let r = decode_value(AdapterPropertyKind::AddressType, &WireValue::Str("weird".to_string()));
    assert_eq!(r, Err(Error::InvalidValue("AddressType".to_string(), "weird".to_string())));
}

#[test]
fn include_lists_skip_unknown_entries() {
    let wire = WireValue::StrList(vec![
        "tx-power".to_string(),
        "bogus".to_string(),
        "local-name".to_string(),
    ]);
    let r = decode_value(AdapterPropertyKind::SupportedAdvertisingSystemIncludes, &wire);
    assert_eq!(
        r,
        Ok(AdapterProperty::SupportedAdvertisingSystemIncludes(vec![
            LeAdvertisementFeature::TxPower,
            LeAdvertisementFeature::LocalName,
        ]))
    );
    let wire = WireValue::StrList(vec!["2M".to_string(), "Coded".to_string()]);
    let r = decode_value(AdapterPropertyKind::SupportedAdvertisingSecondaryChannels, &wire);
    assert_eq!(
        r,
        Ok(AdapterProperty::SupportedAdvertisingSecondaryChannels(vec![
            LeAdvertisementSecondaryChannel::TwoM,
            LeAdvertisementSecondaryChannel::Coded,
        ]))
    );
    let wire = WireValue::StrList(vec!["CanSetTxPower".to_string()]);
    let r = decode_value(AdapterPropertyKind::SupportedAdvertisingFeatures, &wire);
    assert_eq!(
        r,
        Ok(AdapterProperty::SupportedAdvertisingFeatures(vec![
            LeAdvertisingFeature::CanSetTxPower,
        ]))
    );
}

#[test]
fn capabilities_read_known_keys() {
    let dict = WireValue::Dict(vec![
        ("MaxAdvLen".to_string(), WireValue::U8(31)),
        ("MaxScnRspLen".to_string(), WireValue::U8(31)),
        ("SomethingNew".to_string(), WireValue::Bool(true)),
    ]);
    let r = decode_value(AdapterPropertyKind::SupportedAdvertisingCapabilities, &dict);
    assert_eq!(
        r,
        Ok(AdapterProperty::SupportedAdvertisingCapabilities(LeAdvertisingCapabilities {
            max_advertisement_length: Some(31),
            max_scan_response_length: Some(31),
            min_tx_power: None,
            max_tx_power: None,
        }))
    );
    let bad = WireValue::Dict(vec![("MaxAdvLen".to_string(), WireValue::Bool(true))]);
    let r = decode_value(AdapterPropertyKind::SupportedAdvertisingCapabilities, &bad);
    assert!(matches!(r, Err(Error::InvalidValue(_, _))));
}

#[test]
fn change_set_skips_unregistered_keys_in_order() {
    let entries = vec![
        ("Powered".to_string(), WireValue::Bool(true)),
        ("FancyNewAttribute".to_string(), WireValue::Bool(false)),
        ("Discovering".to_string(), WireValue::Bool(false)),
        ("Alias".to_string(), WireValue::Str("box".to_string())),
    ];
    let r = decode_change_set(&entries);
    assert_eq!(
        r,
        vec![
            AdapterProperty::Powered(true),
            AdapterProperty::Discovering(false),
            AdapterProperty::Alias("box".to_string()),
        ]
    );
}

#[test]
fn change_set_skips_undecodable_values() {
    let entries = vec![
        ("Powered".to_string(), WireValue::U32(1)),
        ("Class".to_string(), WireValue::U32(0x1F00)),
    ];
    let r = decode_change_set(&entries);
    assert_eq!(r, vec![AdapterProperty::Class(0x1F00)]);
}

#[test]
fn encode_writable_properties_only() {
    assert_eq!(
        encode_property(&AdapterProperty::Alias("pi".to_string())),
        Ok(WireValue::Str("pi".to_string()))
    );
    assert_eq!(encode_property(&AdapterProperty::Powered(true)), Ok(WireValue::Bool(true)));
    assert_eq!(
        encode_property(&AdapterProperty::DiscoverableTimeout(180)),
        Ok(WireValue::U32(180))
    );
    assert_eq!(
        encode_property(&AdapterProperty::Class(7)),
        Err(Error::NotWritable("Class".to_string()))
    );
    assert_eq!(
        encode_property(&AdapterProperty::Discovering(true)),
        Err(Error::NotWritable("Discovering".to_string()))
    );
}

#[test]
fn table_metadata() {
    assert_eq!(AdapterPropertyKind::SystemName.name_str(), "Name");
    assert_eq!(AdapterPropertyKind::Uuids.name_str(), "UUIDs");
    assert_eq!(AdapterPropertyKind::Powered.interface_str(), "org.bluez.Adapter1");
    assert_eq!(
        AdapterPropertyKind::ActiveAdvertisingInstances.interface_str(),
        "org.bluez.LEAdvertisingManager1"
    );
    assert!(AdapterPropertyKind::Powered.is_mandatory());
    assert!(!AdapterPropertyKind::Modalias.is_mandatory());
    assert!(AdapterPropertyKind::Alias.is_writable());
    assert!(!AdapterPropertyKind::Address.is_writable());
    assert_eq!(
        AdapterPropertyKind::of_name_str("DiscoverableTimeout"),
        Some(AdapterPropertyKind::DiscoverableTimeout)
    );
    assert_eq!(AdapterPropertyKind::of_name_str("NoSuchThing"), None);
}
