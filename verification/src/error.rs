//! Errors as the host sees them.

use vstd::prelude::*;
use crate::trap::{TrapInfo, TrapView};
use crate::value::Exception;

verus! {

/// An error reported to the host.
#[derive(Debug, PartialEq, Eq)]
pub enum HostError {
    /// An error that host code raised inside a callback, handed back as it
    /// was raised.
    Exception(Exception),
    /// The guest asked to end the process with this status. This is a
    /// request, not a fault.
    Exit(i32),
    /// The runtime detected a fault while executing guest code.
    Trap(TrapInfo),
    /// Any other error of the runtime, by its description.
    Generic(String),
    /// The host has reclaimed the object that a handle referred to.
    Reclaimed,
    /// A caller was used after the callback that it belonged to had returned.
    CallerExpired,
}

/// What a [`HostError`] holds.
pub enum HostErrorView {
    /// The exception that host code raised.
    Exception(Exception),
    /// The status with which the guest asked to exit.
    Exit(i32),
    /// The fault that the runtime detected.
    Trap(TrapView),
    /// The description of any other error.
    Generic(Seq<char>),
    /// The wrapper behind a handle was reclaimed.
    Reclaimed,
    /// The callback of a caller had returned.
    CallerExpired,
}

impl View for HostError {
    type V = HostErrorView;

    open spec fn view(&self) -> HostErrorView {
        match *self {
            HostError::Exception(exception) => HostErrorView::Exception(exception),
            HostError::Exit(status) => HostErrorView::Exit(status),
            HostError::Trap(trap) => HostErrorView::Trap(trap@),
            HostError::Generic(text) => HostErrorView::Generic(text@),
            HostError::Reclaimed => HostErrorView::Reclaimed,
            HostError::CallerExpired => HostErrorView::CallerExpired,
        }
    }
}

} // verus!
