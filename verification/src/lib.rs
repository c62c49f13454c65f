//! The store of a WebAssembly runtime embedded in a host interpreter.
//!
//! A [`Store`] owns one execution context of the runtime together with the
//! host-side record that travels with it ([`StoreData`]) and the host values
//! that must stay alive for as long as the store does. Errors raised by host
//! code inside a callback are parked in a single slot ([`HostException`]) and
//! surface again, unchanged, once the runtime has unwound; faults of the
//! runtime itself are turned into host-level errors ([`HostError`]).
//! [`StoreContextValue`] gives the same access whether the caller holds a
//! store or sits inside a running callback.

pub mod caller;
pub mod context;
pub mod error;
pub mod fault;
pub mod host_exception;
pub mod store;
pub mod trap;
pub mod value;
pub mod vm;
pub mod wrapped;

pub use caller::Caller;
pub use context::StoreContextValue;
pub use error::HostError;
pub use fault::{classify, fault};
pub use host_exception::HostException;
pub use store::{Store, StoreData};
pub use trap::TrapInfo;
pub use value::{Exception, Value};
pub use wrapped::Wrapped;
