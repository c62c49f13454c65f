//! The slot in which an error raised by host code waits until the runtime
//! has unwound.

use vstd::prelude::*;
use crate::value::Exception;

verus! {

/// A slot for one pending host exception.
///
/// A callback that fails cannot unwind through the runtime's frames. It
/// parks its error here with [`hold`](HostException::hold), lets the runtime
/// fail, and the call site on top takes the error back out with
/// [`take`](HostException::take). The slot keeps the last error held and
/// forgets any earlier one.
#[derive(Debug)]
pub struct HostException(Option<Exception>);

/// The slot after `exception` was held in it: it holds that exception,
/// whatever it held before.
pub open spec fn held(slot: Option<Exception>, exception: Exception) -> Option<Exception> {
    Some(exception)
}

/// What a take returns and what it leaves in the slot: the pending
/// exception, if any, and nothing.
pub open spec fn taken(slot: Option<Exception>) -> (Option<Exception>, Option<Exception>) {
    (slot, None)
}

impl View for HostException {
    type V = Option<Exception>;

    closed spec fn view(&self) -> Option<Exception> {
        self.0
    }
}

impl Default for HostException {
    /// An empty slot.
    fn default() -> (slot: HostException)
        ensures
            slot@ is None,
    {
        HostException(None)
    }
}

impl HostException {
    /// Removes the pending exception and returns it, leaving the slot empty.
    /// On an empty slot this returns `None` and changes nothing.
    pub fn take(&mut self) -> (pending: Option<Exception>)
        ensures
            (pending, final(self)@) == taken(old(self)@),
    {
        let pending = self.0;
        self.0 = None;
        pending
    }

    /// Stores `exception` as the pending one. An exception that was pending
    /// before is dropped.
    pub fn hold(&mut self, exception: Exception)
        ensures
            final(self)@ == held(old(self)@, exception),
    {
        self.0 = Some(exception);
    }
}

/// Of two exceptions held one after the other, a take gives back the
/// second and empties the slot, so that the take after it finds nothing.
/// This holds whatever the slot held at first.
pub proof fn law_last_hold_wins(slot: Option<Exception>, first: Exception, second: Exception)
    ensures
        taken(held(held(slot, first), second)) == (Some(second), None::<Exception>),
        taken(taken(held(held(slot, first), second)).1) == (None::<Exception>, None::<Exception>),
{
}

/// A take on an empty slot returns nothing and leaves the slot empty.
pub proof fn law_take_on_empty_changes_nothing()
    ensures
        taken(None) == (None::<Exception>, None::<Exception>),
{
}

} // verus!
