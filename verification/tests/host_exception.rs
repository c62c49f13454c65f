use wasm_store::{Exception, HostException};

#[test]
fn default_slot_is_empty() {
    let mut slot = HostException::default();
    assert_eq!(slot.take(), None);
}

#[test]
fn take_returns_what_was_held() {
    let mut slot = HostException::default();
    slot.hold(Exception { handle: 11 });
    assert_eq!(slot.take(), Some(Exception { handle: 11 }));
}

#[test]
fn last_hold_wins_and_take_clears() {
    let mut slot = HostException::default();
    slot.hold(Exception { handle: 1 });
    slot.hold(Exception { handle: 2 });
    assert_eq!(slot.take(), Some(Exception { handle: 2 }));
    assert_eq!(slot.take(), None);
}

#[test]
fn take_on_empty_slot_is_idempotent() {
    let mut slot = HostException::default();
    assert_eq!(slot.take(), None);
    assert_eq!(slot.take(), None);
    slot.hold(Exception { handle: 9 });
    assert_eq!(slot.take(), Some(Exception { handle: 9 }));
    assert_eq!(slot.take(), None);
    assert_eq!(slot.take(), None);
}

#[test]
fn holding_the_same_exception_twice_keeps_one() {
    let mut slot = HostException::default();
    slot.hold(Exception { handle: 5 });
    slot.hold(Exception { handle: 5 });
    assert_eq!(slot.take(), Some(Exception { handle: 5 }));
    assert_eq!(slot.take(), None);
}
