//! The access that a callback has to the store that called it.

use vstd::prelude::*;
use wasmtime::Caller as VmCaller;
use crate::error::{HostError, HostErrorView};
use crate::store::{StoreData, StoreDataView};
use crate::vm::{
    caller_context, caller_context_mut, caller_data_mut, caller_payload, context_mut_payload,
    context_payload,
};

verus! {

/// The calling store as a host callback sees it.
///
/// The runtime lends a caller to a host function for one call. The layer
/// that runs the callback wraps it, hands the wrapper to host code, and
/// lets it [`expire`](Caller::expire) before the call returns. Host code
/// that kept the wrapper finds it expired: every access through it fails
/// with [`HostError::CallerExpired`].
pub struct Caller<'a> {
    inner: Option<VmCaller<'a, StoreData>>,
}

impl<'a> View for Caller<'a> {
    type V = Option<StoreDataView>;

    /// The record of the calling store while the callback runs, and `None`
    /// once the caller has expired.
    closed spec fn view(&self) -> Option<StoreDataView> {
        match self.inner {
            Some(caller) => Some(caller_payload(caller)@),
            None => None,
        }
    }
}

impl<'a> Caller<'a> {
    /// Wraps the caller that the runtime handed to a host function.
    pub fn new(caller: VmCaller<'a, StoreData>) -> (wrapped: Caller<'a>)
        ensures
            wrapped@ == Some(caller_payload(caller)@),
    {
        Caller { inner: Some(caller) }
    }

    /// Ends the caller's life, at the end of the callback that it belongs
    /// to. Expiring twice is the same as expiring once.
    pub fn expire(&mut self)
        ensures
            final(self)@ is None,
    {
        self.inner = None;
    }

    /// A shared view of the calling store's execution context, or
    /// [`HostError::CallerExpired`] once the callback has returned.
    pub fn context(&self) -> (context: Result<wasmtime::StoreContext<'_, StoreData>, HostError>)
        ensures
            match self@ {
                Some(data) => context matches Ok(view) && context_payload(view)@ == data,
                None => context matches Err(error) && error@ == HostErrorView::CallerExpired,
            },
    {
        match &self.inner {
            Some(caller) => Ok(caller_context(caller)),
            None => Err(HostError::CallerExpired),
        }
    }

    /// An exclusive view of the calling store's execution context, or
    /// [`HostError::CallerExpired`] once the callback has returned. The view
    /// may change the record; it cannot make the caller expire.
    pub fn context_mut(&mut self) -> (context: Result<
        wasmtime::StoreContextMut<'_, StoreData>,
        HostError,
    >)
        ensures
            match old(self)@ {
                Some(data) => context matches Ok(view) && context_mut_payload(view)@ == data
                    && final(self)@ is Some,
                None => context matches Err(error) && error@ == HostErrorView::CallerExpired
                    && final(self)@ is None,
            },
    {
        match &mut self.inner {
            Some(caller) => Ok(caller_context_mut(caller)),
            None => Err(HostError::CallerExpired),
        }
    }

    /// The record of the calling store, for writing, or
    /// [`HostError::CallerExpired`] once the callback has returned. What the
    /// borrower leaves in the record is what the caller sees afterwards.
    pub fn data_mut(&mut self) -> (data: Result<&mut StoreData, HostError>)
        ensures
            match old(self)@ {
                Some(record) => data matches Ok(borrowed) && borrowed@ == record && final(self)@
                    == Some(final(borrowed)@),
                None => data matches Err(error) && error@ == HostErrorView::CallerExpired
                    && final(self)@ is None,
            },
    {
        match &mut self.inner {
            Some(caller) => Ok(caller_data_mut(caller)),
            None => Err(HostError::CallerExpired),
        }
    }
}

} // verus!
