use wasm_store::{Exception, HostError, Store, Value};

fn engine() -> wasmtime::Engine {
    wasmtime::Engine::default()
}

#[test]
fn data_returns_the_payload_given_to_new() {
    let store = Store::new(&engine(), Some(Value::Object(40)));
    assert_eq!(store.data(), Value::Object(40));
}

#[test]
fn data_is_nil_when_no_payload_was_given() {
    let store = Store::new(&engine(), None);
    assert_eq!(store.data(), Value::Nil);
}

#[test]
fn new_store_retains_its_payload() {
    let store = Store::new(&engine(), Some(Value::Object(40)));
    assert_eq!(store.mark(), vec![Value::Object(40)]);
    let store = Store::new(&engine(), None);
    assert_eq!(store.mark(), vec![Value::Nil]);
}

#[test]
fn new_store_has_nothing_pending_and_no_wasi() {
    let mut store = Store::new(&engine(), Some(Value::Object(1)));
    assert!(!store.data_mut().has_wasi_ctx());
    assert_eq!(store.data_mut().take_last_error(), None);
}

#[test]
fn retained_values_are_all_marked_in_order() {
    let mut store = Store::new(&engine(), Some(Value::Object(0)));
    let mut expected = vec![Value::Object(0)];
    for handle in 1..=20u64 {
        store.retain(Value::Object(handle));
        expected.push(Value::Object(handle));
    }
    assert_eq!(store.mark(), expected);
    assert_eq!(store.mark().len(), 21);
}

#[test]
fn retaining_a_value_twice_marks_it_twice() {
    let mut store = Store::new(&engine(), None);
    store.retain(Value::Object(6));
    store.retain(Value::Object(6));
    assert_eq!(store.mark(), vec![Value::Nil, Value::Object(6), Value::Object(6)]);
}

#[test]
fn retain_leaves_the_record_alone() {
    let mut store = Store::new(&engine(), Some(Value::Object(5)));
    store.data_mut().exception().hold(Exception { handle: 77 });
    store.retain(Value::Object(6));
    assert_eq!(store.data(), Value::Object(5));
    assert_eq!(
        store.data_mut().take_last_error(),
        Some(HostError::Exception(Exception { handle: 77 }))
    );
}

#[test]
fn configure_wasi_installs_a_built_context() {
    let mut store = Store::new(&engine(), None);
    assert!(!store.data_mut().has_wasi_ctx());
    let built = Ok(wasmtime_wasi::WasiCtxBuilder::new().build());
    assert_eq!(store.configure_wasi(built), Ok(()));
    assert!(store.data_mut().has_wasi_ctx());
    assert_eq!(store.data(), Value::Nil);
    assert_eq!(store.mark(), vec![Value::Nil]);
}

#[test]
fn configure_wasi_hands_back_a_failure_and_changes_nothing() {
    let mut store = Store::new(&engine(), Some(Value::Object(3)));
    let failure = HostError::Generic(String::from("cannot open stdin file"));
    assert_eq!(
        store.configure_wasi(Err(failure)),
        Err(HostError::Generic(String::from("cannot open stdin file")))
    );
    assert!(!store.data_mut().has_wasi_ctx());
    assert_eq!(store.data(), Value::Object(3));
    assert_eq!(store.mark(), vec![Value::Object(3)]);
}

#[test]
fn failed_configure_keeps_an_earlier_context() {
    let mut store = Store::new(&engine(), None);
    assert_eq!(store.configure_wasi(Ok(wasmtime_wasi::WasiCtxBuilder::new().build())), Ok(()));
    assert_eq!(store.configure_wasi(Err(HostError::Reclaimed)), Err(HostError::Reclaimed));
    assert!(store.data_mut().has_wasi_ctx());
}

#[test]
fn configure_wasi_twice_keeps_a_context() {
    let mut store = Store::new(&engine(), None);
    assert_eq!(store.configure_wasi(Ok(wasmtime_wasi::WasiCtxBuilder::new().build())), Ok(()));
    assert_eq!(store.configure_wasi(Ok(wasmtime_wasi::WasiCtxBuilder::new().build())), Ok(()));
    assert!(store.data_mut().has_wasi_ctx());
    let _ = store.data_mut().wasi_ctx_mut().clocks();
}

#[test]
fn shared_view_looks_at_the_record_of_the_store() {
    let mut store = Store::new(&engine(), Some(Value::Object(12)));
    assert_eq!(store.context().data().user_data(), Value::Object(12));
    assert!(!store.context().data().has_wasi_ctx());
    assert_eq!(store.configure_wasi(Ok(wasmtime_wasi::WasiCtxBuilder::new().build())), Ok(()));
    assert!(store.context().data().has_wasi_ctx());
}

#[test]
fn exclusive_view_writes_the_record_of_the_store() {
    let mut store = Store::new(&engine(), Some(Value::Object(12)));
    {
        let mut context = store.context_mut();
        assert_eq!(context.data().user_data(), Value::Object(12));
        context.data_mut().exception().hold(Exception { handle: 90 });
    }
    assert_eq!(
        store.data_mut().take_last_error(),
        Some(HostError::Exception(Exception { handle: 90 }))
    );
    assert_eq!(store.mark(), vec![Value::Object(12)]);
}

#[test]
fn data_mut_writes_what_data_reads() {
    let mut store = Store::new(&engine(), Some(Value::Object(2)));
    store.data_mut().exception().hold(Exception { handle: 4 });
    assert_eq!(store.context().data().user_data(), Value::Object(2));
    assert_eq!(store.data_mut().exception().take(), Some(Exception { handle: 4 }));
    assert_eq!(store.data_mut().exception().take(), None);
}

#[test]
fn stores_of_one_engine_are_independent() {
    let engine = engine();
    let mut first = Store::new(&engine, Some(Value::Object(1)));
    let mut second = Store::new(&engine, Some(Value::Object(2)));
    first.retain(Value::Object(10));
    second.data_mut().exception().hold(Exception { handle: 5 });
    assert_eq!(first.data(), Value::Object(1));
    assert_eq!(second.data(), Value::Object(2));
    assert_eq!(first.mark(), vec![Value::Object(1), Value::Object(10)]);
    assert_eq!(second.mark(), vec![Value::Object(2)]);
    assert_eq!(first.data_mut().take_last_error(), None);
    assert_eq!(
        second.data_mut().take_last_error(),
        Some(HostError::Exception(Exception { handle: 5 }))
    );
}

fn needs_send<T: Send>(value: T) -> T {
    value
}

#[test]
fn store_can_be_moved_to_another_thread() {
    let store = needs_send(Store::new(&engine(), Some(Value::Object(7))));
    assert_eq!(store.data(), Value::Object(7));
}

#[test]
fn store_is_bound_to_the_engine_it_was_made_in() {
    let engine = engine();
    let other = wasmtime::Engine::default();
    let mut store = Store::new(&engine, Some(Value::Object(1)));
    assert!(wasmtime::Engine::same(store.context().engine(), &engine));
    assert!(!wasmtime::Engine::same(store.context().engine(), &other));
    assert!(wasmtime::Engine::same(store.context_mut().engine(), &engine));
}

#[test]
fn store_stays_in_its_engine() {
    let engine = engine();
    let mut store = Store::new(&engine, None);
    store.retain(Value::Object(2));
    assert_eq!(store.configure_wasi(Ok(wasmtime_wasi::WasiCtxBuilder::new().build())), Ok(()));
    assert_eq!(store.configure_wasi(Err(HostError::Reclaimed)), Err(HostError::Reclaimed));
    store.data_mut().exception().hold(Exception { handle: 3 });
    {
        let mut context = store.context_mut();
        let _ = context.data_mut().take_last_error();
    }
    assert!(wasmtime::Engine::same(store.context().engine(), &engine));
    assert!(wasmtime::Engine::same(store.context_mut().engine(), &engine));
}

#[test]
fn engine_outlives_the_call_that_made_the_store() {
    let store = {
        let engine = engine();
        Store::new(&engine, Some(Value::Object(9)))
    };
    assert_eq!(store.data(), Value::Object(9));
    assert!(wasmtime::Engine::same(store.context().engine(), store.context().engine()));
}
