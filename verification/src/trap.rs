//! Faults that the runtime detects while it executes guest code.

use vstd::prelude::*;

verus! {

/// `wasmtime::Trap`, the runtime's code for the kind of fault. Its variants are
/// not read here: a code is carried through and described by the runtime.
#[verifier::external_type_specification]
#[verifier::external_body]
pub struct ExTrapCode(wasmtime::Trap);

/// The text that the runtime gives for a trap code.
pub uninterp spec fn trap_message(code: wasmtime::Trap) -> Seq<char>;

/// Calls `ToString::to_string` on a `wasmtime::Trap`, which runs the code's
/// `Display` impl. That impl writes the fixed prefix `wasm trap: ` followed by
/// a fixed text chosen by the variant alone, so the result depends on the code
/// only and is never empty.
#[verifier::external_body]
fn trap_text(code: &wasmtime::Trap) -> (text: String)
    ensures
        text@ == trap_message(*code),
        text@.len() > 0,
{
    code.to_string()
}

/// A fault of the runtime as the host sees it: the runtime's code and the
/// text that describes it.
#[derive(Debug, PartialEq, Eq)]
pub struct TrapInfo {
    code: wasmtime::Trap,
    message: String,
}

/// What a [`TrapInfo`] holds.
pub struct TrapView {
    /// The runtime's code for the fault.
    pub code: wasmtime::Trap,
    /// The description shown to the host.
    pub message: Seq<char>,
}

/// The trap that the host sees for a code of the runtime.
pub open spec fn trap_of(code: wasmtime::Trap) -> TrapView {
    TrapView { code, message: trap_message(code) }
}

impl View for TrapInfo {
    type V = TrapView;

    closed spec fn view(&self) -> TrapView {
        TrapView { code: self.code, message: self.message@ }
    }
}

impl TrapInfo {
    /// Every trap carries the runtime's own description of its code, and that
    /// description is not empty.
    #[verifier::type_invariant]
    spec fn well_described(self) -> bool {
        &&& self.message@ == trap_message(self.code)
        &&& self.message@.len() > 0
    }

    /// The trap for a code of the runtime.
    pub fn new(code: wasmtime::Trap) -> (trap: TrapInfo)
        ensures
            trap@ == trap_of(code),
            trap@.message.len() > 0,
    {
        let message = trap_text(&code);
        TrapInfo { code, message }
    }

    /// The runtime's code for the fault.
    pub fn code(&self) -> (code: wasmtime::Trap)
        ensures
            code == self@.code,
    {
        self.code
    }

    /// The description of the fault. It is never empty.
    pub fn message(&self) -> (message: &str)
        ensures
            message@ == self@.message,
            message@ == trap_message(self@.code),
            message@.len() > 0,
    {
        proof {
            use_type_invariant(self);
        }
        self.message.as_str()
    }
}

} // verus!
