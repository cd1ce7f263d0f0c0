//! The adapter handle: identity, object-path construction and parsing,
//! device enumeration from an object snapshot, typed event
//! translation, call-argument marshaling, and discovery-session
//! acquisition. The bus round trips themselves stay with the caller,
//! which hands in the raw values these functions consume.

use vstd::prelude::*;
use vstd::string::*;
use crate::address::{Address, AddressType, addr_chars, address_type_chars};
use crate::discovery::{DiscoverySlots, SlotState};
use crate::events::{
    ObjectEvent, PropertyEvent, DeviceEvent, AdapterChanged, device_event_for, adapter_changes,
    device_event_spec,
};
use crate::filter::{DiscoveryFilter, is_filter_dict};
use crate::path::{
    adapter_path, device_path, parse_path_prefix, parse_adapter_path, parse_device_path,
    adapter_path_chars, device_path_chars, parse_prefix_spec, parse_adapter_path_spec,
    parse_device_path_spec, is_valid_name, is_valid_name_str,
};
use crate::property::decode_changes_spec;
use crate::text::{contains_str, str_list_contains};
use crate::wire::WireValue;
use crate::Error;

verus! {

/// Interface to a Bluetooth adapter.
#[derive(Debug, Clone, PartialEq, Eq)]
pub struct Adapter {
    name: String,
}

impl View for Adapter {
    type V = Seq<char>;

    closed spec fn view(&self) -> Seq<char> {
        self.name@
    }
}

/// Interface to a Bluetooth device of one adapter.
#[derive(Debug, Clone, PartialEq, Eq)]
pub struct Device {
    adapter_name: String,
    address: Address,
}

impl View for Device {
    type V = (Seq<char>, Address);

    closed spec fn view(&self) -> (Seq<char>, Address) {
        (self.adapter_name@, self.address)
    }
}

/// The addresses in an object snapshot that belong to the adapter
/// `name`: one per object whose path is a device path of exactly that
/// adapter and which declares the device interface, in snapshot order.
pub open spec fn snapshot_addresses(name: Seq<char>, objects: Seq<(String, Vec<String>)>) -> Seq<
    Address,
>
    decreases objects.len(),
{
    if objects.len() == 0 {
        Seq::empty()
    } else {
        let init = snapshot_addresses(name, objects.drop_last());
        let last = objects.last();
        match parse_device_path_spec(last.0@) {
            Some((adapter, addr)) => if adapter == name && contains_str(
                last.1@,
                "org.bluez.Device1"@,
            ) {
                init.push(addr)
            } else {
                init
            },
            None => init,
        }
    }
}

impl Adapter {
    /// A well-formed adapter: its name is a valid path element, as
    /// `new` establishes.
    pub closed spec fn wf(&self) -> bool {
        is_valid_name(self.name@)
    }

    /// Creates the interface to the adapter with the given name;
    /// `InvalidName` exactly when the name is not a well-formed path
    /// element.
    pub fn new(name: &str) -> (r: Result<Adapter, Error>)
        ensures
            r is Ok <==> is_valid_name(name@),
            r matches Ok(a) ==> a@ == name@ && a.wf(),
            r matches Err(e) ==> (e matches Error::InvalidName(n) && n@ == name@),
    {
        if is_valid_name_str(name) {
            Ok(Adapter { name: String::from_str(name) })
        } else {
            Err(Error::InvalidName(String::from_str(name)))
        }
    }

    /// The Bluetooth adapter name, for example `hci0`.
    pub fn name(&self) -> (r: &str)
        ensures
            r@ == self@,
    {
        self.name.as_str()
    }

    /// The object path of the adapter with the given name;
    /// `InvalidName` exactly when the name is not a well-formed path
    /// element.
    pub fn dbus_path(adapter_name: &str) -> (r: Result<String, Error>)
        ensures
            r is Ok <==> is_valid_name(adapter_name@),
            r matches Ok(p) ==> p@ == adapter_path_chars(adapter_name@),
            r matches Err(e) ==> (e matches Error::InvalidName(n) && n@ == adapter_name@),
    {
        adapter_path(adapter_name)
    }

    /// This adapter's own object path.
    pub fn object_path(&self) -> (r: String)
        requires
            self.wf(),
        ensures
            r@ == adapter_path_chars(self@),
    {
        match adapter_path(self.name.as_str()) {
            Ok(p) => p,
            Err(_) => vstd::pervasive::unreached(),
        }
    }

    /// Splits a path under the daemon's namespace into the first
    /// segment after the prefix and the remainder; none when the path
    /// does not start with the prefix.
    pub fn parse_dbus_path_prefix(path: &str) -> (r: Option<(String, String)>)
        ensures
            match r {
                Some(sr) => parse_prefix_spec(path@) == Some((sr.0@, sr.1@)),
                None => parse_prefix_spec(path@) is None,
            },
    {
        parse_path_prefix(path)
    }

    /// The adapter name denoted by an adapter-level path, or none.
    pub fn parse_dbus_path(path: &str) -> (r: Option<String>)
        ensures
            match r {
                Some(n) => parse_adapter_path_spec(path@) == Some(n@),
                None => parse_adapter_path_spec(path@) is None,
            },
    {
        parse_adapter_path(path)
    }

    /// The addresses of this adapter's devices in an object snapshot:
    /// the objects whose path is a device path of this adapter and
    /// which declare the device interface, in snapshot order.
    pub fn device_addresses(&self, objects: &Vec<(String, Vec<String>)>) -> (r: Vec<Address>)
        ensures
            r@ == snapshot_addresses(self@, objects@),
    {
        let mut out: Vec<Address> = Vec::new();
        let n = objects.len();
        let mut i: usize = 0;
        proof {
            assert(objects@.take(0) =~= Seq::<(String, Vec<String>)>::empty());
        }
        while i < n
            invariant
                i <= n,
                n == objects@.len(),
                out@ == snapshot_addresses(self@, objects@.take(i as int)),
            decreases n - i,
        {
            proof {
                assert(objects@.take(i + 1).drop_last() =~= objects@.take(i as int));
                assert(objects@.take(i + 1).last() == objects@[i as int]);
            }
            let obj = &objects[i];
            match parse_device_path(obj.0.as_str()) {
                Some((adapter, addr)) => {
                    if crate::text::str_eq(adapter.as_str(), self.name.as_str())
                        && str_list_contains(&obj.1, "org.bluez.Device1") {
                        let ghost prev = out@;
                        out.push(addr);
                        proof {
                            assert(out@ =~= prev.push(addr));
                        }
                    }
                },
                None => {},
            }
            i += 1;
        }
        proof {
            assert(objects@.take(n as int) =~= objects@);
        }
        out
    }

    /// The interface to this adapter's device with the given address.
    pub fn device(&self, address: Address) -> (r: Result<Device, Error>)
        ensures
            r is Ok,
            r matches Ok(d) ==> d@ == (self@, address),
    {
        Ok(Device { adapter_name: self.name.clone(), address })
    }

    /// The device event an object event means to this adapter, if any;
    /// events for other adapters yield nothing.
    pub fn device_event(&self, event: &ObjectEvent) -> (r: Option<DeviceEvent>)
        ensures
            event matches ObjectEvent::Added { object, .. } ==> r == device_event_spec(
                self@,
                object@,
                true,
            ),
            event matches ObjectEvent::Removed { object } ==> r == device_event_spec(
                self@,
                object@,
                false,
            ),
    {
        device_event_for(self.name.as_str(), event)
    }

    /// The typed change events a property-change notification on this
    /// adapter means, in order.
    pub fn change_events(&self, event: &PropertyEvent) -> (r: Vec<AdapterChanged>)
        ensures
            r@.len() == decode_changes_spec(event.changed@).len(),
            forall|i: int| 0 <= i < r@.len() ==> (#[trigger] r@[i]).name@ == self@
                && r@[i].property@ == decode_changes_spec(event.changed@)[i],
    {
        adapter_changes(self.name.as_str(), event)
    }

    /// Starts a device discovery session: takes this adapter's
    /// discovery slot and serializes the filter for the scan-setup
    /// call. Fails with `AnotherDiscoveryInProgress`, changing
    /// nothing, exactly when a session already holds the slot. The
    /// caller sends the returned dictionary, then the start-scan call,
    /// and marks the slot finished when the session ends.
    pub fn discover_devices(&self, slots: &mut DiscoverySlots, filter: DiscoveryFilter) -> (r:
        Result<Vec<(String, WireValue)>, Error>)
        requires
            old(slots).wf(),
        ensures
            final(slots).wf(),
            r is Err <==> (old(slots)@.contains_key(self@) && old(slots)@[self@]
                == SlotState::Active),
            r matches Err(e) ==> e == Error::AnotherDiscoveryInProgress && final(slots)@ == old(
                slots,
            )@,
            r is Ok ==> final(slots)@ == old(slots)@.insert(self@, SlotState::Active),
            r matches Ok(d) ==> is_filter_dict(d@, filter),
    {
        match slots.try_acquire(self.name.as_str()) {
            Ok(()) => Ok(filter.to_dict()),
            Err(e) => Err(e),
        }
    }

    /// The object path to hand to the daemon's device-removal call;
    /// `InvalidName` exactly when the adapter name is not well-formed.
    pub fn remove_device(&self, address: Address) -> (r: Result<String, Error>)
        ensures
            r is Ok <==> is_valid_name(self@),
            r matches Ok(p) ==> p@ == device_path_chars(self@, address),
            r matches Err(e) ==> (e matches Error::InvalidName(n) && n@ == self@),
    {
        device_path(self.name.as_str(), address)
    }

    /// The argument dictionary for the daemon's direct-connection
    /// call, and the device handle the connection yields. The address
    /// is always sent; the address kind is sent only when one is
    /// given, since absence and a default kind mean different things
    /// to the daemon.
    pub fn connect_device(&self, address: Address, address_type: Option<AddressType>) -> (r: (
        Vec<(String, WireValue)>,
        Device,
    ))
        ensures
            r.0@.len() == (if address_type is Some {
                2int
            } else {
                1int
            }),
            r.0@[0].0@ == "Address"@,
            (r.0@[0].1 matches WireValue::Str(s) && s@ == addr_chars(address, ':')),
            address_type matches Some(t) ==> (r.0@[1].0@ == "AddressType"@ && (
            r.0@[1].1 matches WireValue::Str(s) && s@ == address_type_chars(t))),
            r.1@ == (self@, address),
    {
        let mut args: Vec<(String, WireValue)> = Vec::new();
        args.push((String::from_str("Address"), WireValue::Str(address.to_display_string())));
        if let Some(t) = address_type {
            args.push(
                (String::from_str("AddressType"), WireValue::Str(
                    String::from_str(t.to_wire_str()),
                )),
            );
        }
        (args, Device { adapter_name: self.name.clone(), address })
    }
}

impl Device {
    /// A well-formed device handle: its adapter name is a valid path
    /// element, as `new` establishes.
    pub closed spec fn wf(&self) -> bool {
        is_valid_name(self.adapter_name@)
    }

    /// Creates the interface to a device of the named adapter;
    /// `InvalidName` exactly when the adapter name is not a
    /// well-formed path element.
    pub fn new(adapter_name: &str, address: Address) -> (r: Result<Device, Error>)
        ensures
            r is Ok <==> is_valid_name(adapter_name@),
            r matches Ok(d) ==> d@ == (adapter_name@, address) && d.wf(),
            r matches Err(e) ==> (e matches Error::InvalidName(n) && n@ == adapter_name@),
    {
        if is_valid_name_str(adapter_name) {
            Ok(Device { adapter_name: String::from_str(adapter_name), address })
        } else {
            Err(Error::InvalidName(String::from_str(adapter_name)))
        }
    }

    /// The name of the adapter this device belongs to.
    pub fn adapter_name(&self) -> (r: &str)
        ensures
            r@ == self@.0,
    {
        self.adapter_name.as_str()
    }

    /// The device's address.
    pub fn address(&self) -> (r: Address)
        ensures
            r == self@.1,
    {
        self.address
    }

    /// The object path of the device with this address on the named
    /// adapter; `InvalidName` exactly when the adapter name is not
    /// well-formed.
    pub fn dbus_path(adapter_name: &str, address: Address) -> (r: Result<String, Error>)
        ensures
            r is Ok <==> is_valid_name(adapter_name@),
            r matches Ok(p) ==> p@ == device_path_chars(adapter_name@, address),
            r matches Err(e) ==> (e matches Error::InvalidName(n) && n@ == adapter_name@),
    {
        device_path(adapter_name, address)
    }

    /// This device's own object path.
    pub fn object_path(&self) -> (r: String)
        requires
            self.wf(),
        ensures
            r@ == device_path_chars(self@.0, self@.1),
    {
        match device_path(self.adapter_name.as_str(), self.address) {
            Ok(p) => p,
            Err(_) => vstd::pervasive::unreached(),
        }
    }

    /// The adapter name and address denoted by a device-level path, or
    /// none.
    pub fn parse_dbus_path(path: &str) -> (r: Option<(String, Address)>)
        ensures
            match r {
                Some(na) => parse_device_path_spec(path@) == Some((na.0@, na.1)),
                None => parse_device_path_spec(path@) is None,
            },
    {
        parse_device_path(path)
    }
}

} // verus!
