//! Typed event translation and the snapshot-based device enumeration.

use bluez_adapter::adapter::Adapter;
use bluez_adapter::address::Address;
use bluez_adapter::descriptor::BluetoothGATTDescriptor;
use bluez_adapter::events::{DeviceEvent, ObjectEvent, PropertyEvent};
use bluez_adapter::property::AdapterProperty;
use bluez_adapter::wire::WireValue;

fn addr() -> Address {
    Address { b0: 0xAA, b1: 0xBB, b2: 0xCC, b3: 0xDD, b4: 0xEE, b5: 0xFF }
}

#[test]
fn object_added_becomes_device_added_for_own_adapter() {
    let adapter = Adapter::new("hci0").unwrap();
    let event = ObjectEvent::Added {
        object: "/org/bluez/hci0/dev_AA_BB_CC_DD_EE_FF".to_string(),
        interfaces: vec!["org.bluez.Device1".to_string()],
    };
    assert_eq!(adapter.device_event(&event), Some(DeviceEvent::Added(addr())));
}

#[test]
fn other_adapters_events_are_dropped() {
    let adapter = Adapter::new("hci0").unwrap();
    let event = ObjectEvent::Added {
        object: "/org/bluez/hci1/dev_AA_BB_CC_DD_EE_FF".to_string(),
        interfaces: vec!["org.bluez.Device1".to_string()],
    };
    assert_eq!(adapter.device_event(&event), None);
    let event = ObjectEvent::Added {
        object: "/org/bluez/hci0".to_string(),
        interfaces: vec!["org.bluez.Adapter1".to_string()],
    };
    assert_eq!(adapter.device_event(&event), None);
}

#[test]
fn object_removed_becomes_device_removed() {
    let adapter = Adapter::new("hci0").unwrap();
    let event = ObjectEvent::Removed {
        object: "/org/bluez/hci0/dev_AA_BB_CC_DD_EE_FF".to_string(),
    };
    assert_eq!(adapter.device_event(&event), Some(DeviceEvent::Removed(addr())));
}

#[test]
fn property_event_becomes_named_changes() {
    let adapter = Adapter::new("hci0").unwrap();
    let event = PropertyEvent {
        changed: vec![
            ("Discovering".to_string(), WireValue::Bool(true)),
            ("UnknownKey".to_string(), WireValue::U8(3)),
        ],
        invalidated: vec![],
    };
    let changes = adapter.change_events(&event);
    assert_eq!(changes.len(), 1);
    assert_eq!(changes[0].name, "hci0");
    assert_eq!(changes[0].property, AdapterProperty::Discovering(true));
}

#[test]
fn snapshot_filtering_keeps_own_devices_with_device_interface() {
    let adapter = Adapter::new("hci0").unwrap();
    let objects = vec![
        (
            "/org/bluez/hci0/dev_AA_BB_CC_DD_EE_FF".to_string(),
            vec!["org.bluez.Device1".to_string()],
        ),
        (
            "/org/bluez/hci1/dev_11_22_33_44_55_66".to_string(),
            vec!["org.bluez.Device1".to_string()],
        ),
        ("/org/bluez/hci0".to_string(), vec!["org.bluez.Adapter1".to_string()]),
        (
            "/org/bluez/hci0/dev_01_02_03_04_05_06".to_string(),
            vec!["org.freedesktop.DBus.Properties".to_string()],
        ),
        (
            "/org/bluez/hci0/dev_0A_0B_0C_0D_0E_0F".to_string(),
            vec!["org.freedesktop.DBus.Properties".to_string(), "org.bluez.Device1".to_string()],
        ),
    ];
    let addrs = adapter.device_addresses(&objects);
    assert_eq!(
        addrs,
        vec![addr(), Address { b0: 0x0A, b1: 0x0B, b2: 0x0C, b3: 0x0D, b4: 0x0E, b5: 0x0F }]
    );
}

#[test]
fn connect_device_arguments_omit_absent_kind() {
    let adapter = Adapter::new("hci0").unwrap();
    let (args, device) = adapter.connect_device(addr(), None);
    assert_eq!(args.len(), 1);
    assert_eq!(args[0], ("Address".to_string(), WireValue::Str("AA:BB:CC:DD:EE:FF".to_string())));
    assert_eq!(device.address(), addr());

    let (args, _) = adapter.connect_device(
        addr(),
        Some(bluez_adapter::address::AddressType::Random),
    );
    assert_eq!(args.len(), 2);
    assert_eq!(args[1], ("AddressType".to_string(), WireValue::Str("random".to_string())));
}

#[test]
fn remove_device_builds_the_device_path() {
    let adapter = Adapter::new("hci0").unwrap();
    assert_eq!(
        adapter.remove_device(addr()).unwrap(),
        "/org/bluez/hci0/dev_AA_BB_CC_DD_EE_FF"
    );
}

#[test]
fn descriptor_reads_raw_values() {
    let d = BluetoothGATTDescriptor::new("/org/bluez/hci0/dev_X/service1/char2/desc3".to_string());
    assert_eq!(d.get_object_path(), "/org/bluez/hci0/dev_X/service1/char2/desc3");
    let uuid = d.get_uuid(&WireValue::Str("00002902-0000-1000-8000-00805f9b34fb".to_string()));
    assert_eq!(uuid, "00002902-0000-1000-8000-00805f9b34fb");
    let parent = d.get_characteristic(&WireValue::Str(
        "/org/bluez/hci0/dev_X/service1/char2".to_string(),
    ));
    assert_eq!(parent, "/org/bluez/hci0/dev_X/service1/char2");
    let value = d.get_value(&WireValue::Bytes(vec![1, 0]));
    assert_eq!(value, vec![1, 0]);
}
