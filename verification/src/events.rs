//! Typed domain events: raw bus notifications, scoped to an adapter,
//! become device added/removed events and typed property changes.
//! Events for other adapters are dropped, and order is preserved.

use vstd::prelude::*;
use vstd::string::*;
use crate::address::Address;
use crate::path::{parse_device_path, parse_device_path_spec};
use crate::property::{AdapterProperty, decode_value, decode_value_spec, decode_changes_spec,
    AdapterPropertyKind};
use crate::text::str_eq;
use crate::wire::WireValue;

verus! {

/// A Bluetooth device event.
#[derive(Clone, Copy, Debug, PartialEq, Eq, Structural)]
pub enum DeviceEvent {
    /// Device added.
    Added(Address),
    /// Device removed.
    Removed(Address),
}

/// A raw object-lifecycle notification from the bus.
#[derive(Debug, PartialEq, Eq)]
pub enum ObjectEvent {
    /// An object appeared, with the interfaces it declares.
    Added {
        /// The object's path.
        object: String,
        /// The interfaces the object declares.
        interfaces: Vec<String>,
    },
    /// An object disappeared.
    Removed {
        /// The object's path.
        object: String,
    },
}

/// A raw property-change notification for one object: a partial update
/// holding only the attributes that changed, and the attribute names
/// that became invalid.
#[derive(Debug, PartialEq, Eq)]
pub struct PropertyEvent {
    /// The changed attributes and their new wire values.
    pub changed: Vec<(String, WireValue)>,
    /// The attribute names whose values became invalid.
    pub invalidated: Vec<String>,
}

/// An adapter property change event.
#[derive(Debug, PartialEq, Eq)]
pub struct AdapterChanged {
    /// The name of the changed adapter.
    pub name: String,
    /// The changed property.
    pub property: AdapterProperty,
}

/// The device event an object's appearance or disappearance means to
/// the adapter `name`: its address when the object is a device path of
/// exactly that adapter, and nothing otherwise.
pub open spec fn device_event_spec(name: Seq<char>, object: Seq<char>, added: bool) -> Option<
    DeviceEvent,
> {
    match parse_device_path_spec(object) {
        Some((adapter, addr)) => if adapter == name {
            if added {
                Some(DeviceEvent::Added(addr))
            } else {
                Some(DeviceEvent::Removed(addr))
            }
        } else {
            None
        },
        None => None,
    }
}

/// Translates an object event into the device event it means to the
/// adapter `name`; events for paths of other adapters, and for paths
/// that are no device paths, yield nothing.
pub fn device_event_for(name: &str, event: &ObjectEvent) -> (r: Option<DeviceEvent>)
    ensures
        event matches ObjectEvent::Added { object, .. } ==> r == device_event_spec(
            name@,
            object@,
            true,
        ),
        event matches ObjectEvent::Removed { object } ==> r == device_event_spec(
            name@,
            object@,
            false,
        ),
{
    let (object, added) = match event {
        ObjectEvent::Added { object, .. } => (object, true),
        ObjectEvent::Removed { object } => (object, false),
    };
    match parse_device_path(object.as_str()) {
        Some((adapter, addr)) => {
            if str_eq(adapter.as_str(), name) {
                if added {
                    Some(DeviceEvent::Added(addr))
                } else {
                    Some(DeviceEvent::Removed(addr))
                }
            } else {
                None
            }
        },
        None => None,
    }
}

/// Translates a property-change notification on the adapter `name`
/// into its typed change events: one per recognized, decodable entry
/// of the change set, in order, each carrying the adapter's name.
pub fn adapter_changes(name: &str, event: &PropertyEvent) -> (r: Vec<AdapterChanged>)
    ensures
        r@.len() == decode_changes_spec(event.changed@).len(),
        forall|i: int| 0 <= i < r@.len() ==> (#[trigger] r@[i]).name@ == name@ && r@[i].property@
            == decode_changes_spec(event.changed@)[i],
{
    let entries = &event.changed;
    let mut out: Vec<AdapterChanged> = Vec::new();
    let n = entries.len();
    let mut i: usize = 0;
    proof {
        assert(entries@.take(0) =~= Seq::<(String, WireValue)>::empty());
    }
    while i < n
        invariant
            i <= n,
            n == entries@.len(),
            out@.len() == decode_changes_spec(entries@.take(i as int)).len(),
            forall|j: int| 0 <= j < out@.len() ==> (#[trigger] out@[j]).name@ == name@,
            forall|j: int| 0 <= j < out@.len() ==> (#[trigger] out@[j]).property@
                == decode_changes_spec(entries@.take(i as int))[j],
        decreases n - i,
    {
        proof {
            assert(entries@.take(i + 1).drop_last() =~= entries@.take(i as int));
            assert(entries@.take(i + 1).last() == entries@[i as int]);
        }
        let entry = &entries[i];
        match AdapterPropertyKind::of_name_str(entry.0.as_str()) {
            Some(k) => match decode_value(k, &entry.1) {
                Ok(p) => {
                    let ghost pv = p@;
                    let ev = AdapterChanged { name: String::from_str(name), property: p };
                    let ghost prevout = out@;
                    let ghost prevspec = decode_changes_spec(entries@.take(i as int));
                    proof {
                        assert(ev.name@ == name@);
                        assert(ev.property@ == pv);
                    }
                    out.push(ev);
                    proof {
                        assert(decode_changes_spec(entries@.take(i + 1)) == prevspec.push(pv));
                        assert forall|j: int| 0 <= j < out@.len() implies (#[trigger] out@[j]).name@
                            == name@ && out@[j].property@ == decode_changes_spec(
                            entries@.take(i + 1),
                        )[j] by {
                            if j < prevout.len() {
                                assert(out@[j] == prevout[j]);
                                assert(decode_changes_spec(entries@.take(i + 1))[j] == prevspec[j]);
                            } else {
                                assert(out@[j] == ev);
                            }
                        }
                    }
                },
                Err(_) => {},
            },
            None => {},
        }
        i += 1;
    }
    proof {
        assert(entries@.take(n as int) =~= entries@);
    }
    out
}

} // verus!
