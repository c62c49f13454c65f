//! The runtime's own types as this library uses them, and the calls that
//! reach into them.
//!
//! The runtime keeps the host's record inside its store and lends it out
//! again; nothing here is proved about that. Each function below makes one
//! call and states what the runtime's source shows of it.

use vstd::prelude::*;
use wasmtime::Caller as VmCaller;
use wasmtime::Store as VmStore;
use crate::store::StoreData;

verus! {

/// `wasmtime::Store<T>`: one execution context of the runtime, which owns a
/// value of type `T` on behalf of the host.
#[verifier::external_type_specification]
#[verifier::external_body]
#[verifier::reject_recursive_types(T)]
pub struct ExVmStore<T: 'static>(VmStore<T>);

/// `wasmtime::Engine`: the global state of the runtime that stores are made in.
#[verifier::external_type_specification]
#[verifier::external_body]
pub struct ExEngine(wasmtime::Engine);

/// `wasmtime::StoreContext<'a, T>`: a shared view of a store.
#[verifier::external_type_specification]
#[verifier::external_body]
#[verifier::reject_recursive_types(T)]
pub struct ExStoreContext<'a, T: 'static>(wasmtime::StoreContext<'a, T>);

/// `wasmtime::StoreContextMut<'a, T>`: an exclusive view of a store.
#[verifier::external_type_specification]
#[verifier::external_body]
#[verifier::reject_recursive_types(T)]
pub struct ExStoreContextMut<'a, T: 'static>(wasmtime::StoreContextMut<'a, T>);

/// `wasmtime::Caller<'a, T>`: the exclusive view of the calling store that
/// the runtime hands to a host function for the time of one call.
#[verifier::external_type_specification]
#[verifier::external_body]
#[verifier::reject_recursive_types(T)]
pub struct ExVmCaller<'a, T: 'static>(VmCaller<'a, T>);

/// `wasmtime_wasi::WasiCtx`: the state of the system interface of one store.
#[verifier::external_type_specification]
#[verifier::external_body]
pub struct ExWasiCtx(wasmtime_wasi::WasiCtx);

/// The host's record that a store of the runtime holds.
pub uninterp spec fn store_payload(vm: VmStore<StoreData>) -> StoreData;

/// The engine that a store of the runtime was made in.
pub uninterp spec fn store_engine(vm: VmStore<StoreData>) -> wasmtime::Engine;

/// The engine of the store that a shared view looks at.
pub uninterp spec fn context_engine(
    context: wasmtime::StoreContext<'_, StoreData>,
) -> wasmtime::Engine;

/// The engine of the store that an exclusive view looks at.
pub uninterp spec fn context_mut_engine(
    context: wasmtime::StoreContextMut<'_, StoreData>,
) -> wasmtime::Engine;

/// The host's record in the store that a shared view looks at.
pub uninterp spec fn context_payload(context: wasmtime::StoreContext<'_, StoreData>) -> StoreData;

/// The host's record in the store that an exclusive view looks at.
pub uninterp spec fn context_mut_payload(
    context: wasmtime::StoreContextMut<'_, StoreData>,
) -> StoreData;

/// The host's record in the store that a caller looks at.
pub uninterp spec fn caller_payload(caller: VmCaller<'_, StoreData>) -> StoreData;

/// Calls `wasmtime::Store::new`, which moves `data` into the new store and
/// keeps a handle to `engine` in it; an engine and its handles are one
/// engine. It does not fail for want of anything that the arguments hold.
#[verifier::external_body]
pub(crate) fn vm_new(engine: &wasmtime::Engine, data: StoreData) -> (vm: VmStore<StoreData>)
    ensures
        store_payload(vm) == data,
        store_engine(vm) == *engine,
{
    VmStore::new(engine, data)
}

/// Calls `wasmtime::Store::data`, which lends out the record that the store
/// holds.
#[verifier::external_body]
pub(crate) fn vm_data(vm: &VmStore<StoreData>) -> (data: &StoreData)
    ensures
        *data == store_payload(*vm),
{
    vm.data()
}

/// Calls `wasmtime::Store::data_mut`, which lends out the record that the
/// store holds for writing: what the borrower leaves in it is what the store
/// holds afterwards. The record is all that is lent, so the store stays in
/// its engine.
#[verifier::external_body]
pub(crate) fn vm_data_mut(vm: &mut VmStore<StoreData>) -> (data: &mut StoreData)
    ensures
        *data == store_payload(*old(vm)),
        store_payload(*final(vm)) == *final(data),
        store_engine(*final(vm)) == store_engine(*old(vm)),
{
    vm.data_mut()
}

/// Calls `AsContext::as_context` on a `wasmtime::Store`, which wraps a shared
/// reference to the store's own state.
#[verifier::external_body]
pub(crate) fn vm_context<'a>(vm: &'a VmStore<StoreData>) -> (context: wasmtime::StoreContext<
    'a,
    StoreData,
>)
    ensures
        context_payload(context) == store_payload(*vm),
        context_engine(context) == store_engine(*vm),
{
    wasmtime::AsContext::as_context(vm)
}

/// Calls `AsContextMut::as_context_mut` on a `wasmtime::Store`, which wraps
/// an exclusive reference to the store's own state. The view can change the
/// record for as long as it lives, so nothing is said of the record that the
/// store holds once the view is gone. The engine of a store is set when the
/// store is made and nothing offered by a view replaces it.
#[verifier::external_body]
pub(crate) fn vm_context_mut<'a>(vm: &'a mut VmStore<StoreData>) -> (context:
    wasmtime::StoreContextMut<'a, StoreData>)
    ensures
        context_mut_payload(context) == store_payload(*old(vm)),
        context_mut_engine(context) == store_engine(*old(vm)),
        store_engine(*final(vm)) == store_engine(*old(vm)),
{
    wasmtime::AsContextMut::as_context_mut(vm)
}

/// Calls `wasmtime::Caller::data_mut`, which lends out the record of the
/// calling store for writing: what the borrower leaves in it is what the
/// caller sees afterwards.
#[verifier::external_body]
pub(crate) fn caller_data_mut<'a, 'b>(caller: &'a mut VmCaller<'b, StoreData>) -> (data:
    &'a mut StoreData)
    ensures
        *data == caller_payload(*old(caller)),
        caller_payload(*final(caller)) == *final(data),
{
    caller.data_mut()
}

/// Calls `AsContext::as_context` on a `wasmtime::Caller`, which gives a
/// shared view of the calling store.
#[verifier::external_body]
pub(crate) fn caller_context<'a, 'b>(caller: &'a VmCaller<'b, StoreData>) -> (context:
    wasmtime::StoreContext<'a, StoreData>)
    ensures
        context_payload(context) == caller_payload(*caller),
{
    wasmtime::AsContext::as_context(caller)
}

/// Calls `AsContextMut::as_context_mut` on a `wasmtime::Caller`, which gives
/// an exclusive view of the calling store. The view can change the record
/// for as long as it lives, so nothing is said of the record that the caller
/// sees once the view is gone.
#[verifier::external_body]
pub(crate) fn caller_context_mut<'a, 'b>(caller: &'a mut VmCaller<'b, StoreData>) -> (context:
    wasmtime::StoreContextMut<'a, StoreData>)
    ensures
        context_mut_payload(context) == caller_payload(*old(caller)),
{
    wasmtime::AsContextMut::as_context_mut(caller)
}

} // verus!
