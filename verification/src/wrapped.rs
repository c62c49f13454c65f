//! Host-side wrapper objects around native values.

use vstd::prelude::*;
use crate::error::{HostError, HostErrorView};

verus! {

/// The object by which the host holds a native value.
///
/// The host owns the wrapper and may reclaim it at any time it chooses.
/// From then on every access through the wrapper fails with
/// [`HostError::Reclaimed`] instead of reaching a value that is gone.
pub struct Wrapped<T> {
    inner: Option<T>,
}

impl<T> View for Wrapped<T> {
    type V = Option<T>;

    closed spec fn view(&self) -> Option<T> {
        self.inner
    }
}

impl<T> Wrapped<T> {
    /// Wraps a value for the host.
    pub fn new(value: T) -> (wrapped: Wrapped<T>)
        ensures
            wrapped@ == Some(value),
    {
        Wrapped { inner: Some(value) }
    }

    /// Takes the value back from the host. The wrapper is stale afterwards.
    /// On a stale wrapper this returns `None`.
    pub fn reclaim(&mut self) -> (value: Option<T>)
        ensures
            value == old(self)@,
            final(self)@ is None,
    {
        self.inner.take()
    }

    /// The wrapped value, or [`HostError::Reclaimed`] on a stale wrapper.
    pub fn get(&self) -> (value: Result<&T, HostError>)
        ensures
            match self@ {
                Some(inner) => value == Ok::<&T, HostError>(&inner),
                None => value matches Err(error) && error@ == HostErrorView::Reclaimed,
            },
    {
        match &self.inner {
            Some(inner) => Ok(inner),
            None => Err(HostError::Reclaimed),
        }
    }

    /// The wrapped value for writing, or [`HostError::Reclaimed`] on a stale
    /// wrapper. What the borrower leaves is what the wrapper holds
    /// afterwards; a stale wrapper stays stale.
    pub fn get_mut(&mut self) -> (value: Result<&mut T, HostError>)
        ensures
            match old(self)@ {
                Some(inner) => value matches Ok(borrowed) && *borrowed == inner && final(self)@
                    == Some(*final(borrowed)),
                None => value matches Err(error) && error@ == HostErrorView::Reclaimed
                    && final(self)@ is None,
            },
    {
        match &mut self.inner {
            Some(inner) => Ok(inner),
            None => Err(HostError::Reclaimed),
        }
    }
}

} // verus!
