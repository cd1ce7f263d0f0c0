//! The discovery filter's wire dictionary and the per-adapter
//! discovery-session slots.

use std::sync::Arc;

use bluez_adapter::adapter::Adapter;
use bluez_adapter::discovery::{DiscoverySlots, SlotState};
use bluez_adapter::filter::{DiscoveryFilter, DiscoveryTransport};
use bluez_adapter::wire::WireValue;
use bluez_adapter::Error;

fn find<'a>(dict: &'a [(String, WireValue)], key: &str) -> Option<&'a WireValue> {
    dict.iter().find(|(k, _)| k == key).map(|(_, v)| v)
}

#[test]
fn default_filter_serializes_to_exact_dictionary() {
    let filter = DiscoveryFilter::default();
    assert_eq!(filter.transport, DiscoveryTransport::Auto);
    let dict = filter.to_dict();
    assert_eq!(dict.len(), 4);
    assert_eq!(find(&dict, "UUIDs"), Some(&WireValue::StrList(vec![])));
    assert_eq!(find(&dict, "Transport"), Some(&WireValue::Str("auto".to_string())));
    assert_eq!(find(&dict, "DuplicateData"), Some(&WireValue::Bool(true)));
    assert_eq!(find(&dict, "Discoverable"), Some(&WireValue::Bool(false)));
    assert_eq!(find(&dict, "RSSI"), None);
    assert_eq!(find(&dict, "Pathloss"), None);
    assert_eq!(find(&dict, "Pattern"), None);
}

#[test]
fn set_options_are_sent_and_uuids_spelled_out() {
    let filter = DiscoveryFilter {
        uuids: vec![0x0000110b_0000_1000_8000_00805f9b34fb],
        rssi: Some(-70),
        pathloss: Some(42),
        transport: DiscoveryTransport::Le,
        duplicate_data: false,
        discoverable: true,
        pattern: Some("AA".to_string()),
    };
    let dict = filter.to_dict();
    assert_eq!(dict.len(), 7);
    assert_eq!(
        find(&dict, "UUIDs"),
        Some(&WireValue::StrList(vec![
            "0000110b-0000-1000-8000-00805f9b34fb".to_string()
        ]))
    );
    assert_eq!(find(&dict, "RSSI"), Some(&WireValue::I16(-70)));
    assert_eq!(find(&dict, "Pathloss"), Some(&WireValue::U16(42)));
    assert_eq!(find(&dict, "Transport"), Some(&WireValue::Str("le".to_string())));
    assert_eq!(find(&dict, "DuplicateData"), Some(&WireValue::Bool(false)));
    assert_eq!(find(&dict, "Discoverable"), Some(&WireValue::Bool(true)));
    assert_eq!(find(&dict, "Pattern"), Some(&WireValue::Str("AA".to_string())));
}

#[test]
fn second_discovery_conflicts_until_finished() {
    let adapter = Adapter::new("hci0").unwrap();
    let mut slots = DiscoverySlots::new();

    let first = adapter.discover_devices(&mut slots, DiscoveryFilter::default());
    assert!(first.is_ok());
    assert_eq!(slots.state_of("hci0"), Some(SlotState::Active));

    let second = adapter.discover_devices(&mut slots, DiscoveryFilter::default());
    assert_eq!(second.unwrap_err(), Error::AnotherDiscoveryInProgress);
    assert_eq!(slots.state_of("hci0"), Some(SlotState::Active));

    slots.finish("hci0");
    assert_eq!(slots.state_of("hci0"), Some(SlotState::Finished));

    let third = adapter.discover_devices(&mut slots, DiscoveryFilter::default());
    assert!(third.is_ok());
    assert_eq!(slots.state_of("hci0"), Some(SlotState::Active));
}

#[test]
fn slots_are_independent_per_adapter() {
    let mut slots = DiscoverySlots::new();
    assert!(slots.try_acquire("hci0").is_ok());
    assert!(slots.try_acquire("hci1").is_ok());
    assert_eq!(slots.try_acquire("hci0"), Err(Error::AnotherDiscoveryInProgress));
    slots.finish("hci0");
    assert_eq!(slots.state_of("hci1"), Some(SlotState::Active));
    assert!(slots.try_acquire("hci0").is_ok());
    assert_eq!(slots.try_acquire("hci1"), Err(Error::AnotherDiscoveryInProgress));
    assert_eq!(slots.state_of("hci2"), None);
}

#[test]
fn concurrent_acquire_admits_exactly_one() {
    let runtime = tokio::runtime::Builder::new_current_thread().build().unwrap();
    runtime.block_on(async {
        let slots = Arc::new(tokio::sync::Mutex::new(DiscoverySlots::new()));
        let mut tasks = Vec::new();
        for _ in 0..16 {
            let slots = Arc::clone(&slots);
            tasks.push(tokio::spawn(async move {
                let mut guard = slots.lock().await;
                guard.try_acquire("hci0").is_ok()
            }));
        }
        let mut successes = 0;
        for task in tasks {
            if task.await.unwrap() {
                successes += 1;
            }
        }
        assert_eq!(successes, 1);

        // Releasing the one live session admits exactly one of the
        // next wave of callers.
        slots.lock().await.finish("hci0");
        let mut tasks = Vec::new();
        for _ in 0..8 {
            let slots = Arc::clone(&slots);
            tasks.push(tokio::spawn(async move {
                let mut guard = slots.lock().await;
                guard.try_acquire("hci0").is_ok()
            }));
        }
        let mut successes = 0;
        for task in tasks {
            if task.await.unwrap() {
                successes += 1;
            }
        }
        assert_eq!(successes, 1);
    });
}
