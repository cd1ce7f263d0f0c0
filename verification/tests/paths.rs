//! Object-path construction and parsing.

use bluez_adapter::adapter::{Adapter, Device};
use bluez_adapter::address::{Address, AddressType};
use bluez_adapter::Error;

fn addr() -> Address {
    Address { b0: 0xAA, b1: 0xBB, b2: 0xCC, b3: 0xDD, b4: 0xEE, b5: 0xFF }
}

#[test]
fn device_path_round_trip() {
    let path = Device::dbus_path("hci0", addr()).unwrap();
    assert_eq!(path, "/org/bluez/hci0/dev_AA_BB_CC_DD_EE_FF");
    let (name, a) = Device::parse_dbus_path(&path).unwrap();
    assert_eq!(name, "hci0");
    assert_eq!(a, addr());
}

#[test]
fn adapter_path_round_trip() {
    let path = Adapter::dbus_path("hci0").unwrap();
    assert_eq!(path, "/org/bluez/hci0");
    assert_eq!(Adapter::parse_dbus_path(&path).unwrap(), "hci0");
}

#[test]
fn parse_rejects_other_shapes() {
    assert_eq!(Device::parse_dbus_path(""), None);
    assert_eq!(Device::parse_dbus_path("/org/bluez"), None);
    assert_eq!(Device::parse_dbus_path("/org/other/hci0/dev_AA_BB_CC_DD_EE_FF"), None);
    assert_eq!(Device::parse_dbus_path("/org/bluez/hci0"), None);
    assert_eq!(Device::parse_dbus_path("/org/bluez/hci0/dev_AA_BB_CC_DD_EE"), None);
    assert_eq!(Device::parse_dbus_path("/org/bluez/hci0/dev_AA-BB-CC-DD-EE-FF"), None);
    assert_eq!(Device::parse_dbus_path("/org/bluez/hci0/dev_AA_BB_CC_DD_EE_FF/extra"), None);
    assert_eq!(Device::parse_dbus_path("/org/bluez/hci0/dev_GG_BB_CC_DD_EE_FF"), None);
    // Only the exact upper-case spelling of the address token is the
    // constructed shape.
    assert_eq!(Device::parse_dbus_path("/org/bluez/hci0/dev_aa_bb_cc_dd_ee_ff"), None);
}

#[test]
fn parse_adapter_path_requires_empty_remainder() {
    assert_eq!(Adapter::parse_dbus_path("/org/bluez/hci0/dev_AA_BB_CC_DD_EE_FF"), None);
    assert_eq!(Adapter::parse_dbus_path("/somewhere/else"), None);
}

#[test]
fn parse_prefix_splits_segment_and_remainder() {
    let (seg, rest) = Adapter::parse_dbus_path_prefix("/org/bluez/hci1/dev_X").unwrap();
    assert_eq!(seg, "hci1");
    assert_eq!(rest, "/dev_X");
    let (seg, rest) = Adapter::parse_dbus_path_prefix("/org/bluez/hci1").unwrap();
    assert_eq!(seg, "hci1");
    assert_eq!(rest, "");
}

#[test]
fn adapter_new_validates_name() {
    let a = Adapter::new("hci0").unwrap();
    assert_eq!(a.name(), "hci0");
    assert_eq!(a.object_path(), "/org/bluez/hci0");
    assert_eq!(Adapter::new(""), Err(Error::InvalidName(String::new())));
    assert_eq!(Adapter::new("hci0/x"), Err(Error::InvalidName("hci0/x".to_string())));
    assert_eq!(Adapter::new("hci-0"), Err(Error::InvalidName("hci-0".to_string())));
}

#[test]
fn address_spellings() {
    let a = addr();
    assert_eq!(a.to_display_string(), "AA:BB:CC:DD:EE:FF");
    assert_eq!(a.to_path_token(), "AA_BB_CC_DD_EE_FF");
    let small = Address { b0: 0, b1: 1, b2: 2, b3: 0x0F, b4: 0x10, b5: 0x9A };
    assert_eq!(small.to_display_string(), "00:01:02:0F:10:9A");
}

#[test]
fn address_token_parsing() {
    assert_eq!(Address::parse_token("AA:BB:CC:DD:EE:FF", ':'), Some(addr()));
    assert_eq!(Address::parse_token("AA_BB_CC_DD_EE_FF", '_'), Some(addr()));
    assert_eq!(Address::parse_token("AA_BB_CC_DD_EE_FF", ':'), None);
    assert_eq!(Address::parse_token("AA:BB:CC:DD:EE", ':'), None);
    assert_eq!(Address::parse_token("aa:bb:cc:dd:ee:ff", ':'), None);
}

#[test]
fn address_type_spellings() {
    assert_eq!(AddressType::Public.to_wire_str(), "public");
    assert_eq!(AddressType::Random.to_wire_str(), "random");
    assert_eq!(AddressType::parse_wire_str("public"), Some(AddressType::Public));
    assert_eq!(AddressType::parse_wire_str("random"), Some(AddressType::Random));
    assert_eq!(AddressType::parse_wire_str("bredr"), None);
}

#[test]
fn device_handle_composition() {
    let a = Adapter::new("hci0").unwrap();
    let d = a.device(addr()).unwrap();
    assert_eq!(d.adapter_name(), "hci0");
    assert_eq!(d.address(), addr());
    assert_eq!(d.object_path(), "/org/bluez/hci0/dev_AA_BB_CC_DD_EE_FF");
    assert_eq!(Device::new("bad/name", addr()), Err(Error::InvalidName("bad/name".to_string())));
}
