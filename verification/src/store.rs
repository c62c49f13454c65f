//! The store and the record that the runtime keeps for it.

use vstd::prelude::*;
use wasmtime::Store as VmStore;
use crate::error::{HostError, HostErrorView};
use crate::host_exception::{taken, HostException};
use crate::value::{or_nil, Exception, Value};
use crate::vm::{
    context_engine, context_mut_engine, context_mut_payload, context_payload, store_engine,
    store_payload, vm_context, vm_context_mut, vm_data, vm_data_mut, vm_new,
};

verus! {

/// The record that the runtime keeps for one store and lends to every
/// callback: the user's payload, the slot for a pending host exception, and
/// the state of the system interface once it is configured.
pub struct StoreData {
    user_data: Value,
    host_exception: HostException,
    /// The state of the system interface, once configured.
    pub wasi: Option<wasmtime_wasi::WasiCtx>,
}

/// What a [`StoreData`] holds.
pub struct StoreDataView {
    /// The payload given when the store was made.
    pub user_data: Value,
    /// The host exception that waits to be reported, if any.
    pub pending: Option<Exception>,
    /// The state of the system interface, once configured.
    pub wasi: Option<wasmtime_wasi::WasiCtx>,
}

impl View for StoreData {
    type V = StoreDataView;

    closed spec fn view(&self) -> StoreDataView {
        StoreDataView {
            user_data: self.user_data,
            pending: self.host_exception@,
            wasi: self.wasi,
        }
    }
}

/// What taking the last error returns for a slot: the pending exception as a
/// host-level error.
pub open spec fn last_error(pending: Option<Exception>) -> Option<HostErrorView> {
    match taken(pending).0 {
        Some(exception) => Some(HostErrorView::Exception(exception)),
        None => None,
    }
}

/// The view of an optional host-level error.
pub open spec fn error_view(error: Option<HostError>) -> Option<HostErrorView> {
    match error {
        Some(e) => Some(e@),
        None => None,
    }
}

impl StoreData {
    /// The record of a new store: the payload, no pending exception, no
    /// system interface.
    pub fn new(user_data: Value) -> (data: StoreData)
        ensures
            data@ == (StoreDataView { user_data, pending: None, wasi: None }),
    {
        StoreData { user_data, host_exception: HostException::default(), wasi: None }
    }

    /// The slot for the pending host exception, for holding and taking.
    /// Nothing else of the record changes through it.
    pub fn exception(&mut self) -> (slot: &mut HostException)
        ensures
            slot@ == old(self)@.pending,
            final(self)@ == (StoreDataView { pending: final(slot)@, ..old(self)@ }),
    {
        &mut self.host_exception
    }

    /// Takes the pending host exception and returns it as a host-level
    /// error, or `None` where no exception is pending. The slot is empty
    /// afterwards.
    pub fn take_last_error(&mut self) -> (error: Option<HostError>)
        ensures
            error_view(error) == last_error(old(self)@.pending),
            final(self)@ == (StoreDataView {
                pending: taken(old(self)@.pending).1,
                ..old(self)@
            }),
    {
        match self.host_exception.take() {
            Some(exception) => Some(HostError::Exception(exception)),
            None => None,
        }
    }

    /// The payload given when the store was made.
    pub fn user_data(&self) -> (value: Value)
        ensures
            value == self@.user_data,
    {
        self.user_data
    }

    /// Whether the system interface has been configured.
    pub fn has_wasi_ctx(&self) -> (configured: bool)
        ensures
            configured == (self@.wasi is Some),
    {
        self.wasi.is_some()
    }

    /// The state of the system interface, for writing. The caller must know
    /// that it has been configured.
    pub fn wasi_ctx_mut(&mut self) -> (ctx: &mut wasmtime_wasi::WasiCtx)
        requires
            old(self)@.wasi is Some,
        ensures
            *ctx == old(self)@.wasi->0,
            final(self)@ == (StoreDataView { wasi: Some(*final(ctx)), ..old(self)@ }),
    {
        match &mut self.wasi {
            Some(ctx) => ctx,
            None => vstd::pervasive::unreached(),
        }
    }
}

/// One execution context of the runtime with the host's record in it, and
/// the host values that must stay alive for as long as the store does.
///
/// The list of retained values only grows. A collector of the host finds
/// every value on it through [`mark`](Store::mark).
pub struct Store {
    inner: VmStore<StoreData>,
    refs: Vec<Value>,
}

/// What a [`Store`] holds.
pub struct StoreView {
    /// The engine that the store was made in.
    pub engine: wasmtime::Engine,
    /// The record that the runtime keeps for the store.
    pub data: StoreDataView,
    /// The retained host values, in the order in which they were retained.
    pub retained: Seq<Value>,
}

impl View for Store {
    type V = StoreView;

    closed spec fn view(&self) -> StoreView {
        StoreView {
            engine: store_engine(self.inner),
            data: store_payload(self.inner)@,
            retained: self.refs@,
        }
    }
}

/// A store as it is made: bound to the engine, the payload (the host's
/// empty value where none was given) in the record and as the first
/// retained value, nothing pending, no system interface.
pub open spec fn fresh(engine: wasmtime::Engine, user_data: Option<Value>) -> StoreView {
    StoreView {
        engine,
        data: StoreDataView { user_data: or_nil(user_data), pending: None, wasi: None },
        retained: seq![or_nil(user_data)],
    }
}

/// A store after one more value was retained.
pub open spec fn retaining(store: StoreView, value: Value) -> StoreView {
    StoreView { retained: store.retained.push(value), ..store }
}

/// A store after each of `values` was retained, in their order.
pub open spec fn retaining_all(store: StoreView, values: Seq<Value>) -> StoreView
    decreases values.len(),
{
    if values.len() == 0 {
        store
    } else {
        retaining(retaining_all(store, values.drop_last()), values.last())
    }
}

/// A store after the outcome of building a system interface was handed to
/// it: a context that was built is installed, a failure changes nothing.
pub open spec fn configured(
    store: StoreView,
    built: Result<wasmtime_wasi::WasiCtx, HostError>,
) -> StoreView {
    match built {
        Ok(ctx) => StoreView { data: StoreDataView { wasi: Some(ctx), ..store.data }, ..store },
        Err(_) => store,
    }
}

impl Store {
    /// Makes a store in `engine` with the given payload, or with the host's
    /// empty value where none is given. The store stays in that engine for
    /// all its life. The payload is retained at once, so that the host's
    /// collector finds it for as long as the store lives.
    pub fn new(engine: &wasmtime::Engine, user_data: Option<Value>) -> (store: Store)
        ensures
            store@ == fresh(*engine, user_data),
    {
        let user_data = match user_data {
            Some(value) => value,
            None => Value::Nil,
        };
        let mut store = Store { inner: vm_new(engine, StoreData::new(user_data)), refs: Vec::new() };
        store.retain(user_data);
        store
    }

    /// The payload given when the store was made.
    pub fn data(&self) -> (value: Value)
        ensures
            value == self@.data.user_data,
    {
        vm_data(&self.inner).user_data()
    }

    /// The record that the runtime keeps for the store, for writing. The
    /// retained values are not touched.
    pub fn data_mut(&mut self) -> (data: &mut StoreData)
        ensures
            data@ == old(self)@.data,
            final(self)@ == (StoreView { data: final(data)@, ..old(self)@ }),
    {
        vm_data_mut(&mut self.inner)
    }

    /// Installs the system interface from the outcome of building one.
    ///
    /// A context that was built replaces the one installed before, if any. A
    /// failure to build is handed back as it came and leaves the store as it
    /// was.
    pub fn configure_wasi(&mut self, built: Result<wasmtime_wasi::WasiCtx, HostError>) -> (result:
        Result<(), HostError>)
        ensures
            final(self)@ == configured(old(self)@, built),
            built is Ok ==> result is Ok,
            built matches Err(error) ==> result == Err::<(), HostError>(error),
    {
        match built {
            Ok(ctx) => {
                let data = vm_data_mut(&mut self.inner);
                data.wasi = Some(ctx);
                Ok(())
            },
            Err(error) => Err(error),
        }
    }

    /// A shared view of the execution context, for calls into the runtime
    /// that only read. It looks at the record that the store holds, in the
    /// engine that the store was made in.
    pub fn context(&self) -> (context: wasmtime::StoreContext<'_, StoreData>)
        ensures
            context_payload(context)@ == self@.data,
            context_engine(context) == self@.engine,
    {
        vm_context(&self.inner)
    }

    /// An exclusive view of the execution context, for calls into the
    /// runtime. It starts at the record that the store holds and may change
    /// it; the engine and the retained values stay as they are.
    pub fn context_mut(&mut self) -> (context: wasmtime::StoreContextMut<'_, StoreData>)
        ensures
            context_mut_payload(context)@ == old(self)@.data,
            context_mut_engine(context) == old(self)@.engine,
            final(self)@.engine == old(self)@.engine,
            final(self)@.retained == old(self)@.retained,
    {
        vm_context_mut(&mut self.inner)
    }

    /// Ties the life of a host value to the life of the store. The value
    /// goes to the end of the list of retained values; nothing ever leaves
    /// that list.
    pub fn retain(&mut self, value: Value)
        ensures
            final(self)@ == retaining(old(self)@, value),
    {
        self.refs.push(value);
    }

    /// The retained values, each as often as it was retained and in that
    /// order: what the host's collector has to keep alive on the store's
    /// behalf.
    pub fn mark(&self) -> (marked: Vec<Value>)
        ensures
            marked@ == self@.retained,
    {
        let mut marked: Vec<Value> = Vec::new();
        let mut i: usize = 0;
        while i < self.refs.len()
            invariant
                i <= self.refs.len(),
                marked@ == self.refs@.subrange(0, i as int),
            decreases self.refs.len() - i,
        {
            marked.push(self.refs[i]);
            i += 1;
        }
        marked
    }
}

/// A new store gives back the payload that it was made with, and the
/// host's empty value where it was made without one. Retaining values does
/// not change that.
pub proof fn law_data_is_the_payload(
    engine: wasmtime::Engine,
    payload: Value,
    values: Seq<Value>,
)
    ensures
        fresh(engine, Some(payload)).data.user_data == payload,
        fresh(engine, None).data.user_data == Value::Nil,
        retaining_all(fresh(engine, Some(payload)), values).data.user_data == payload,
        retaining_all(fresh(engine, None), values).data.user_data == Value::Nil,
{
    law_retained_values_are_marked(fresh(engine, Some(payload)), values);
    law_retained_values_are_marked(fresh(engine, None), values);
}

/// A store is made in the engine that was given, and neither retaining
/// values nor the outcome of building a system interface moves it to
/// another.
pub proof fn law_store_stays_in_its_engine(
    engine: wasmtime::Engine,
    user_data: Option<Value>,
    values: Seq<Value>,
    built: Result<wasmtime_wasi::WasiCtx, HostError>,
)
    ensures
        fresh(engine, user_data).engine == engine,
        retaining_all(fresh(engine, user_data), values).engine == engine,
        configured(retaining_all(fresh(engine, user_data), values), built).engine == engine,
{
    law_retained_values_are_marked(fresh(engine, user_data), values);
}

/// Once a context was built and handed over, the store has a system
/// interface: that context. A store that was made and has only retained
/// values since has none.
pub proof fn law_wasi_is_there_once_configured(
    store: StoreView,
    ctx: wasmtime_wasi::WasiCtx,
    engine: wasmtime::Engine,
    user_data: Option<Value>,
    values: Seq<Value>,
)
    ensures
        configured(store, Ok(ctx)).data.wasi == Some(ctx),
        fresh(engine, user_data).data.wasi is None,
        retaining_all(fresh(engine, user_data), values).data.wasi is None,
{
    law_retained_values_are_marked(fresh(engine, user_data), values);
}

/// A failure to build a system interface leaves the store as it was, with
/// the context that it had or with none.
pub proof fn law_failed_configure_changes_nothing(
    store: StoreView,
    error: HostError,
    engine: wasmtime::Engine,
    user_data: Option<Value>,
)
    ensures
        configured(store, Err(error)) == store,
        configured(fresh(engine, user_data), Err(error)).data.wasi is None,
{
}

/// After values were retained, the retained list is what it was before
/// followed by exactly those values, each once for each time it was
/// retained and in that order. The record and the engine are untouched.
pub proof fn law_retained_values_are_marked(store: StoreView, values: Seq<Value>)
    ensures
        retaining_all(store, values).retained == store.retained + values,
        retaining_all(store, values).data == store.data,
        retaining_all(store, values).engine == store.engine,
    decreases values.len(),
{
    if values.len() > 0 {
        law_retained_values_are_marked(store, values.drop_last());
        assert(values == values.drop_last().push(values.last()));
        assert(store.retained + values == (store.retained + values.drop_last()).push(
            values.last(),
        ));
    } else {
        assert(store.retained + values == store.retained);
    }
}

/// On a new store the retained list is the payload followed by exactly the
/// values retained since: nothing is lost and nothing is added.
pub proof fn law_new_store_marks_payload_and_retained(
    engine: wasmtime::Engine,
    user_data: Option<Value>,
    values: Seq<Value>,
)
    ensures
        retaining_all(fresh(engine, user_data), values).retained == seq![or_nil(user_data)]
            + values,
        retaining_all(fresh(engine, user_data), values).retained.len() == values.len() + 1,
{
    law_retained_values_are_marked(fresh(engine, user_data), values);
}

} // verus!
