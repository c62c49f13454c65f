//! What a low-level error of the runtime holds, and the host-level error
//! that it becomes.

use vstd::prelude::*;
use crate::error::{HostError, HostErrorView};
use crate::trap::{trap_of, TrapInfo};

verus! {

/// `anyhow::Error`, the error that a call into the runtime returns. It holds
/// one error value of any type, which is read here through the two
/// downcasts below and printed by `to_string`.
#[verifier::external_type_specification]
#[verifier::external_body]
pub struct ExLowLevelError(anyhow::Error);

/// The status that a low-level error carries where it holds a request of the
/// guest to end the process, and `None` where it holds anything else.
pub uninterp spec fn exit_status(error: anyhow::Error) -> Option<i32>;

/// The trap code that a low-level error carries where it holds a fault
/// detected by the runtime, and `None` where it holds anything else.
pub uninterp spec fn trap_code(error: anyhow::Error) -> Option<wasmtime::Trap>;

/// Calls `anyhow::Error::downcast_ref` for `wasmtime_wasi::I32Exit` and picks
/// the status, the only field of that type. The call finds a value of that
/// type where the error was made from one or carries one as context; the
/// outcome depends on what the error holds and on nothing else.
#[verifier::external_body]
fn downcast_exit(error: &anyhow::Error) -> (status: Option<i32>)
    ensures
        status == exit_status(*error),
{
    error.downcast_ref::<wasmtime_wasi::I32Exit>().map(|exit| exit.0)
}

/// Calls `anyhow::Error::downcast_ref` for `wasmtime::Trap` and copies the
/// code out. The call finds a value of that type where the error was made
/// from one or carries one as context; the outcome depends on what the error
/// holds and on nothing else.
#[verifier::external_body]
fn downcast_trap(error: &anyhow::Error) -> (code: Option<wasmtime::Trap>)
    ensures
        code == trap_code(*error),
{
    error.downcast_ref::<wasmtime::Trap>().copied()
}

/// The host-level error for what a low-level error was found to hold: a
/// request to exit comes before a trap, and a trap before the plain text.
pub open spec fn fault_of(
    exit: Option<i32>,
    trap: Option<wasmtime::Trap>,
    text: Seq<char>,
) -> HostErrorView {
    match exit {
        Some(status) => HostErrorView::Exit(status),
        None => match trap {
            Some(code) => HostErrorView::Trap(trap_of(code)),
            None => HostErrorView::Generic(text),
        },
    }
}

/// Whether `report` is the host-level error for a low-level error of the
/// runtime: the error for the exit status and the trap code that the error
/// holds and for a text that the error prints for itself.
///
/// The status and the code are fixed by the error. Of the text no more is
/// known than that the error's `Display` impl gave it.
pub open spec fn classifies(error: anyhow::Error, report: HostErrorView) -> bool {
    exists|text: String| #[trigger]
        vstd::string::to_string_from_display_ensures::<anyhow::Error>(&error, text) && report
            == fault_of(exit_status(error), trap_code(error), text@)
}

/// Builds the host-level error from what a low-level error was found to
/// hold: its exit status if it has one, else its trap code if it has one,
/// else its text.
pub fn fault(exit: Option<i32>, trap: Option<wasmtime::Trap>, text: String) -> (error: HostError)
    ensures
        error@ == fault_of(exit, trap, text@),
        error@ matches HostErrorView::Trap(described) ==> described.message.len() > 0,
{
    match exit {
        Some(status) => HostError::Exit(status),
        None => match trap {
            Some(code) => HostError::Trap(TrapInfo::new(code)),
            None => HostError::Generic(text),
        },
    }
}

/// Turns a low-level error of the runtime into a host-level error: the exit
/// kind with its status where the guest asked to exit, the trap kind where
/// the runtime detected a fault, and the generic kind with the text that the
/// error prints for itself otherwise.
pub fn classify(error: &anyhow::Error) -> (reported: HostError)
    ensures
        classifies(*error, reported@),
        reported@ matches HostErrorView::Trap(described) ==> described.message.len() > 0,
{
    let exit = downcast_exit(error);
    let trap = downcast_trap(error);
    let text = error.to_string();
    let ghost printed = text;
    let reported = fault(exit, trap, text);
    assert(vstd::string::to_string_from_display_ensures::<anyhow::Error>(error, printed)
        && reported@ == fault_of(exit_status(*error), trap_code(*error), printed@));
    reported
}

/// A request to exit is reported as an exit with its status, also where the
/// same error holds a trap; it is never reported as a trap or as a generic
/// error.
pub proof fn law_exit_is_reported_as_exit(
    status: i32,
    trap: Option<wasmtime::Trap>,
    text: Seq<char>,
)
    ensures
        fault_of(Some(status), trap, text) == HostErrorView::Exit(status),
{
}

/// A fault detected by the runtime, with no request to exit, is reported as
/// a trap with the runtime's code and its description, whatever the text of
/// the error is. Anything else is reported by its text.
pub proof fn law_trap_is_reported_as_trap(code: wasmtime::Trap, text: Seq<char>)
    ensures
        fault_of(None, Some(code), text) == HostErrorView::Trap(trap_of(code)),
        fault_of(None, None, text) == HostErrorView::Generic(text),
{
}

/// What the host-level error for a low-level error is, by what the error
/// holds: the exit with its status where it holds a request to exit; else
/// the trap for its code where it holds a fault of the runtime; else a
/// generic error.
pub proof fn law_classified_by_what_the_error_holds(error: anyhow::Error, report: HostErrorView)
    requires
        classifies(error, report),
    ensures
        exit_status(error) matches Some(status) ==> report == HostErrorView::Exit(status),
        exit_status(error) is None ==> (trap_code(error) matches Some(code) ==> report
            == HostErrorView::Trap(trap_of(code))),
        exit_status(error) is None && trap_code(error) is None ==> report is Generic,
{
}

} // verus!
