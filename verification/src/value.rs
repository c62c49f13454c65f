//! Handles to values that live in the host interpreter.

use vstd::prelude::*;

verus! {

/// A value of the host interpreter.
///
/// The library never looks inside a host value: it stores, copies and hands
/// back handles. `Nil` is the host's empty value; every other value is known
/// by the number of its handle.
#[derive(Clone, Copy, Debug, PartialEq, Eq, Hash, Structural)]
pub enum Value {
    /// The host's empty value.
    Nil,
    /// A host object, by its handle.
    Object(u64),
}

/// What a payload argument that may be left out stands for: itself, or the
/// host's empty value.
pub open spec fn or_nil(value: Option<Value>) -> Value {
    match value {
        Some(v) => v,
        None => Value::Nil,
    }
}

/// An error object raised by host code, by its handle.
#[derive(Clone, Copy, Debug, PartialEq, Eq, Hash, Structural)]
pub struct Exception {
    /// The handle of the error object in the host.
    pub handle: u64,
}

} // verus!
