use wasm_store::{classify, fault, HostError, TrapInfo};

#[test]
fn exit_request_is_classified_with_its_status() {
    let error = anyhow::Error::from(wasmtime_wasi::I32Exit(7));
    assert_eq!(classify(&error), HostError::Exit(7));
}

#[test]
fn exit_request_keeps_zero_and_negative_status() {
    assert_eq!(classify(&anyhow::Error::from(wasmtime_wasi::I32Exit(0))), HostError::Exit(0));
    assert_eq!(classify(&anyhow::Error::from(wasmtime_wasi::I32Exit(-3))), HostError::Exit(-3));
    assert_eq!(
        classify(&anyhow::Error::from(wasmtime_wasi::I32Exit(i32::MAX))),
        HostError::Exit(i32::MAX)
    );
}

#[test]
fn trap_is_classified_with_its_code_and_text() {
    let error = anyhow::Error::from(wasmtime::Trap::UnreachableCodeReached);
    match classify(&error) {
        HostError::Trap(trap) => {
            assert_eq!(trap.code(), wasmtime::Trap::UnreachableCodeReached);
            assert_eq!(trap.message(), "wasm trap: wasm `unreachable` instruction executed");
        }
        other => panic!("not a trap: {:?}", other),
    }
}

#[test]
fn trap_message_is_the_runtime_text_and_not_empty() {
    let trap = TrapInfo::new(wasmtime::Trap::MemoryOutOfBounds);
    assert_eq!(trap.message(), "wasm trap: out of bounds memory access");
    assert!(!trap.message().is_empty());
    assert_eq!(trap.code(), wasmtime::Trap::MemoryOutOfBounds);
    let other = TrapInfo::new(wasmtime::Trap::StackOverflow);
    assert_eq!(other.message(), "wasm trap: call stack exhausted");
    assert_ne!(trap, other);
}

#[test]
fn other_errors_are_classified_by_their_text() {
    let error = anyhow::Error::msg("module has no export named run");
    assert_eq!(
        classify(&error),
        HostError::Generic(String::from("module has no export named run"))
    );
}

#[test]
fn text_of_a_generic_error_leaves_out_the_causes() {
    let error = anyhow::Error::msg("root cause").context("while linking");
    assert_eq!(classify(&error), HostError::Generic(String::from("while linking")));
}

#[test]
fn trap_under_a_context_is_still_a_trap() {
    let error = anyhow::Error::from(wasmtime::Trap::IntegerDivisionByZero).context("in frame 3");
    assert_eq!(
        classify(&error),
        HostError::Trap(TrapInfo::new(wasmtime::Trap::IntegerDivisionByZero))
    );
}

#[test]
fn fault_prefers_exit_over_trap_over_text() {
    let text = || String::from("plain");
    assert_eq!(
        fault(Some(3), Some(wasmtime::Trap::StackOverflow), text()),
        HostError::Exit(3)
    );
    assert_eq!(fault(Some(3), None, text()), HostError::Exit(3));
    assert_eq!(
        fault(None, Some(wasmtime::Trap::StackOverflow), text()),
        HostError::Trap(TrapInfo::new(wasmtime::Trap::StackOverflow))
    );
    assert_eq!(fault(None, None, text()), HostError::Generic(String::from("plain")));
}

#[test]
fn fault_keeps_an_empty_text() {
    assert_eq!(fault(None, None, String::new()), HostError::Generic(String::new()));
}

#[test]
fn exit_wrapping_a_trap_is_an_exit() {
    let error = anyhow::Error::from(wasmtime::Trap::UnreachableCodeReached)
        .context(wasmtime_wasi::I32Exit(4));
    assert_eq!(classify(&error), HostError::Exit(4));
}

#[test]
fn classifying_twice_gives_the_same_report_for_these_errors() {
    let error = anyhow::Error::msg("unknown import");
    assert_eq!(classify(&error), classify(&error));
    let error = anyhow::Error::from(wasmtime::Trap::OutOfFuel);
    assert_eq!(classify(&error), classify(&error));
}

#[test]
fn text_of_a_generic_error_may_be_empty() {
    assert_eq!(classify(&anyhow::Error::msg("")), HostError::Generic(String::new()));
}
