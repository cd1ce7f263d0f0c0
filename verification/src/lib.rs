//! Typed, verified core of a Bluetooth adapter library.
//!
//! The crate models the logic of talking to a BlueZ-style daemon over a
//! message bus: object-path naming and parsing, the untyped wire value
//! dictionary, the adapter property table with mandatory/optional
//! semantics, discovery filter serialization, and the per-adapter
//! discovery-session state machine. The bus transport itself is not here;
//! callers hand in plain values (paths, wire dictionaries, events) and get
//! plain values back.

use vstd::prelude::*;

pub mod adapter;
pub mod address;
pub mod advertising;
pub mod descriptor;
pub mod discovery;
pub mod events;
pub mod filter;
pub mod hex;
pub mod modalias;
pub mod path;
pub mod property;
pub mod text;
pub mod uuid_codec;
pub mod wire;

verus! {

/// Errors reported by this library.
#[derive(Debug, Clone, PartialEq, Eq)]
pub enum Error {
    /// A bus call failed or the connection was lost; carries the
    /// transport's message.
    Transport(String),
    /// An adapter name that cannot form a valid object path.
    InvalidName(String),
    /// A mandatory property was absent from the wire: a protocol
    /// violation. Carries the property name.
    MissingProperty(String),
    /// A present wire value could not be decoded into its declared type.
    /// Carries the property name and a rendering of the offending value.
    InvalidValue(String, String),
    /// A service UUID string could not be parsed.
    InvalidUuid(String),
    /// A write to a property that has no encoder (it is read-only).
    /// Carries the property name.
    NotWritable(String),
    /// A discovery session is already active on this adapter.
    AnotherDiscoveryInProgress,
}

} // verus!
