//! A remote GATT descriptor, addressed by its object path. These are
//! legacy single-shot helpers: the caller performs the bus round trip
//! and hands in the raw wire value that came back.

use vstd::prelude::*;
use vstd::string::*;
use crate::wire::WireValue;

verus! {

/// A remote GATT descriptor, addressed by its object path.
#[derive(Clone, Debug)]
pub struct BluetoothGATTDescriptor {
    object_path: String,
}

impl View for BluetoothGATTDescriptor {
    type V = Seq<char>;

    closed spec fn view(&self) -> Seq<char> {
        self.object_path@
    }
}

impl BluetoothGATTDescriptor {
    /// Creates the interface to the descriptor at this object path.
    pub fn new(object_path: String) -> (r: BluetoothGATTDescriptor)
        ensures
            r@ == object_path@,
    {
        BluetoothGATTDescriptor { object_path }
    }

    /// The descriptor's object path.
    pub fn get_object_path(&self) -> (r: String)
        ensures
            r@ == self@,
    {
        self.object_path.clone()
    }

    /// The descriptor's UUID, read from the raw value of its UUID
    /// property; the wire carries it as a string.
    pub fn get_uuid(&self, raw: &WireValue) -> (r: String)
        requires
            raw is Str,
        ensures
            raw matches WireValue::Str(s) ==> r@ == s@,
    {
        match raw {
            WireValue::Str(s) => s.clone(),
            _ => vstd::pervasive::unreached(),
        }
    }

    /// The object path of the characteristic this descriptor belongs
    /// to, read from the raw value of its Characteristic property; the
    /// wire carries it as a string.
    pub fn get_characteristic(&self, raw: &WireValue) -> (r: String)
        requires
            raw is Str,
        ensures
            raw matches WireValue::Str(s) ==> r@ == s@,
    {
        match raw {
            WireValue::Str(s) => s.clone(),
            _ => vstd::pervasive::unreached(),
        }
    }

    /// The descriptor's cached value, read from the raw value of its
    /// Value property; the wire carries it as a byte sequence.
    pub fn get_value(&self, raw: &WireValue) -> (r: Vec<u8>)
        requires
            raw is Bytes,
        ensures
            raw matches WireValue::Bytes(b) ==> r@ == b@,
    {
        match raw {
            WireValue::Bytes(b) => {
                let n = b.len();
                let mut out: Vec<u8> = Vec::new();
                let mut i: usize = 0;
                while i < n
                    invariant
                        i <= n,
                        n == b@.len(),
                        out@ == b@.take(i as int),
                    decreases n - i,
                {
                    let ghost prev = out@;
                    out.push(b[i]);
                    proof {
                        assert(out@ =~= b@.take(i + 1));
                    }
                    i += 1;
                }
                proof {
                    assert(b@.take(n as int) =~= b@);
                }
                out
            },
            _ => vstd::pervasive::unreached(),
        }
    }
}

} // verus!
