//! One way to the execution context, from a store or from inside a callback,
//! and the rule by which a failed call into the runtime is reported.

use vstd::prelude::*;
use crate::caller::Caller;
use crate::error::{HostError, HostErrorView};
use crate::fault::{classifies, classify};
use crate::store::{last_error, Store, StoreData, StoreDataView};
use crate::value::Value;
use crate::vm::{context_engine, context_mut_engine, context_mut_payload, context_payload};
use crate::wrapped::Wrapped;

verus! {

/// A host object that leads to an execution context: a store, or the caller
/// of a running callback.
///
/// The value borrows the host's wrapper and owns nothing. Access through it
/// fails where the wrapper has been reclaimed, and for a caller also where
/// the callback has returned.
pub enum StoreContextValue<'a, 'b> {
    /// The context of a store.
    Store(&'a mut Wrapped<Store>),
    /// The context of the store that called the running callback.
    Caller(&'a mut Wrapped<Caller<'b>>),
}

/// Whether `report` is the error reported for a failed call into the
/// runtime.
///
/// `access` is the record reached through the context value, or the error
/// with which reaching it failed; `error` is the low-level error that the
/// call returned. A failure of access is reported as it is. Otherwise a
/// pending host exception comes before the error of the runtime: the
/// callback's failure is the cause, the fault of the runtime its symptom.
/// Only with nothing pending is the low-level error looked at.
pub open spec fn reports(
    access: Result<StoreDataView, HostErrorView>,
    error: anyhow::Error,
    report: HostErrorView,
) -> bool {
    match access {
        Err(failure) => report == failure,
        Ok(data) => match last_error(data.pending) {
            Some(exception) => report == exception,
            None => classifies(error, report),
        },
    }
}

/// What is reached through a context value once a failed call has been
/// reported: the same record with no exception pending, or the same failure
/// of access.
pub open spec fn settled(access: Result<StoreDataView, HostErrorView>) -> Result<
    StoreDataView,
    HostErrorView,
> {
    match access {
        Err(error) => Err(error),
        Ok(data) => Ok(StoreDataView { pending: None, ..data }),
    }
}

impl<'a, 'b> StoreContextValue<'a, 'b> {
    /// The record reached through this value, or the error with which
    /// reaching it fails: [`HostErrorView::Reclaimed`] where the host has
    /// reclaimed the wrapper, [`HostErrorView::CallerExpired`] where the
    /// callback of a caller has returned.
    pub open spec fn access(&self) -> Result<StoreDataView, HostErrorView> {
        match *self {
            StoreContextValue::Store(wrapped) => match wrapped@ {
                Some(store) => Ok(store@.data),
                None => Err(HostErrorView::Reclaimed),
            },
            StoreContextValue::Caller(wrapped) => match wrapped@ {
                Some(caller) => match caller@ {
                    Some(data) => Ok(data),
                    None => Err(HostErrorView::CallerExpired),
                },
                None => Err(HostErrorView::Reclaimed),
            },
        }
    }

    /// The engine of the store behind this value, where this value leads to
    /// a live store.
    pub open spec fn engine(&self) -> Option<wasmtime::Engine> {
        match *self {
            StoreContextValue::Store(wrapped) => match wrapped@ {
                Some(store) => Some(store@.engine),
                None => None,
            },
            StoreContextValue::Caller(_) => None,
        }
    }

    /// The host values that are kept alive through this value: those that a
    /// live store retains, and none for a caller.
    pub open spec fn retained(&self) -> Seq<Value> {
        match *self {
            StoreContextValue::Store(wrapped) => match wrapped@ {
                Some(store) => store@.retained,
                None => Seq::empty(),
            },
            StoreContextValue::Caller(_) => Seq::empty(),
        }
    }

    /// The host values that the host's collector has to keep alive on behalf
    /// of this value.
    ///
    /// For a store these are its retained values. A caller has none of its
    /// own: it lives on the stack for the time of one callback and is gone
    /// from the host's objects before a collection can see it.
    pub fn mark(&self) -> (marked: Vec<Value>)
        ensures
            marked@ == self.retained(),
    {
        match self {
            StoreContextValue::Store(wrapped) => match wrapped.get() {
                Ok(store) => store.mark(),
                Err(_) => Vec::new(),
            },
            StoreContextValue::Caller(_) => Vec::new(),
        }
    }

    /// A shared view of the execution context, or the error with which
    /// access fails. The view of a store is in the store's engine.
    pub fn context(&self) -> (context: Result<wasmtime::StoreContext<'_, StoreData>, HostError>)
        ensures
            match self.access() {
                Ok(data) => context matches Ok(view) && context_payload(view)@ == data,
                Err(failure) => context matches Err(error) && error@ == failure,
            },
            match self.engine() {
                Some(engine) => context matches Ok(view) && context_engine(view) == engine,
                None => true,
            },
    {
        match self {
            StoreContextValue::Store(wrapped) => match wrapped.get() {
                Ok(store) => Ok(store.context()),
                Err(error) => Err(error),
            },
            StoreContextValue::Caller(wrapped) => match wrapped.get() {
                Ok(caller) => caller.context(),
                Err(error) => Err(error),
            },
        }
    }

    /// An exclusive view of the execution context, or the error with which
    /// access fails.
    ///
    /// The view starts at the record reached through this value and may
    /// change it. It changes neither the retained values nor whether access
    /// succeeds, and this value goes on to borrow the same wrapper.
    pub fn context_mut(&mut self) -> (context: Result<
        wasmtime::StoreContextMut<'_, StoreData>,
        HostError,
    >)
        ensures
            match old(self).access() {
                Ok(data) => context matches Ok(view) && context_mut_payload(view)@ == data
                    && final(self).access() is Ok,
                Err(failure) => context matches Err(error) && error@ == failure
                    && final(self).access() == old(self).access(),
            },
            match old(self).engine() {
                Some(engine) => context matches Ok(view) && context_mut_engine(view) == engine,
                None => true,
            },
            final(self).retained() == old(self).retained(),
            final(self).engine() == old(self).engine(),
            match (*old(self), *final(self)) {
                (StoreContextValue::Store(then), StoreContextValue::Store(now)) => *final(now)
                    == *final(then),
                (StoreContextValue::Caller(then), StoreContextValue::Caller(now)) => *final(now)
                    == *final(then),
                _ => false,
            },
    {
        match self {
            StoreContextValue::Store(wrapped) => match wrapped.get_mut() {
                Ok(store) => Ok(store.context_mut()),
                Err(error) => Err(error),
            },
            StoreContextValue::Caller(wrapped) => match wrapped.get_mut() {
                Ok(caller) => caller.context_mut(),
                Err(error) => Err(error),
            },
        }
    }

    /// The record reached through this value, for writing, or the error with
    /// which access fails.
    ///
    /// What the borrower leaves in the record is what is reached afterwards.
    /// The retained values stay as they are, and this value goes on to
    /// borrow the same wrapper.
    pub fn data_mut(&mut self) -> (data: Result<&mut StoreData, HostError>)
        ensures
            match old(self).access() {
                Ok(record) => data matches Ok(borrowed) && borrowed@ == record
                    && final(self).access() == Ok::<StoreDataView, HostErrorView>(
                    final(borrowed)@,
                ),
                Err(failure) => data matches Err(error) && error@ == failure
                    && final(self).access() == old(self).access(),
            },
            final(self).retained() == old(self).retained(),
            final(self).engine() == old(self).engine(),
            match (*old(self), *final(self)) {
                (StoreContextValue::Store(then), StoreContextValue::Store(now)) => *final(now)
                    == *final(then),
                (StoreContextValue::Caller(then), StoreContextValue::Caller(now)) => *final(now)
                    == *final(then),
                _ => false,
            },
    {
        match self {
            StoreContextValue::Store(wrapped) => match wrapped.get_mut() {
                Ok(store) => Ok(store.data_mut()),
                Err(error) => Err(error),
            },
            StoreContextValue::Caller(wrapped) => match wrapped.get_mut() {
                Ok(caller) => caller.data_mut(),
                Err(error) => Err(error),
            },
        }
    }

    /// Reports a failed call into the runtime as a host-level error.
    ///
    /// `error` is the low-level error that the call returned. In this order:
    /// where the record cannot be reached, the error of that access is
    /// reported; where a host exception is pending, it is taken from its
    /// slot and reported as it was raised; where the guest asked to exit,
    /// the exit with its status is reported; where the runtime detected a
    /// fault, the trap is reported; otherwise the error's text is reported
    /// as a generic error.
    ///
    /// Afterwards no exception is pending. Nothing else changes.
    pub fn handle_wasm_error(&mut self, error: anyhow::Error) -> (report: HostError)
        ensures
            reports(old(self).access(), error, report@),
            report@ matches HostErrorView::Trap(trap) ==> trap.message.len() > 0,
            final(self).access() == settled(old(self).access()),
            final(self).retained() == old(self).retained(),
            final(self).engine() == old(self).engine(),
            match (*old(self), *final(self)) {
                (StoreContextValue::Store(then), StoreContextValue::Store(now)) => *final(now)
                    == *final(then),
                (StoreContextValue::Caller(then), StoreContextValue::Caller(now)) => *final(now)
                    == *final(then),
                _ => false,
            },
    {
        match self.data_mut() {
            Ok(data) => match data.take_last_error() {
                Some(exception) => exception,
                None => classify(&error),
            },
            Err(failure) => failure,
        }
    }
}

/// A host exception that is pending when a call into the runtime fails is
/// what gets reported, whatever the runtime's own error was: a trap, a
/// request to exit or anything else. Afterwards nothing is pending.
pub proof fn law_pending_exception_comes_first(
    data: StoreDataView,
    exception: crate::value::Exception,
    error: anyhow::Error,
    report: HostErrorView,
)
    requires
        data.pending == Some(exception),
    ensures
        reports(Ok(data), error, report) <==> report == HostErrorView::Exception(exception),
        settled(Ok(data)) == Ok::<StoreDataView, HostErrorView>(
            StoreDataView { pending: None, ..data },
        ),
{
}

/// With no host exception pending, the error of the runtime is what gets
/// reported, and the record stays as it is.
pub proof fn law_fault_is_reported_when_nothing_is_pending(
    data: StoreDataView,
    error: anyhow::Error,
    report: HostErrorView,
)
    requires
        data.pending is None,
    ensures
        reports(Ok(data), error, report) <==> classifies(error, report),
        settled(Ok(data)) == Ok::<StoreDataView, HostErrorView>(data),
{
}

/// Where the record cannot be reached, the error of that access is what
/// gets reported, and reporting changes nothing.
pub proof fn law_access_error_is_reported_as_it_is(
    failure: HostErrorView,
    error: anyhow::Error,
    report: HostErrorView,
)
    ensures
        reports(Err(failure), error, report) <==> report == failure,
        settled(Err(failure)) == Err::<StoreDataView, HostErrorView>(failure),
{
}

} // verus!
