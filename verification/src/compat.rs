//! The adapter: one inner resource and the flag of its seek in flight.

use crate::error::Kind;
use crate::poll::failed_as;
use crate::poll::report_failure;
use crate::poll::Polled;
use crate::seek::seek_step;
use crate::seek::SeekAction;
use crate::seek::SeekEvent;
use vstd::prelude::*;

verus! {

/// Owns one inner resource and remembers whether a seek was started on it
/// whose completion has not been seen yet.
pub struct TokioCompat<T> {
    inner: T,
    seek_in_progress: bool,
}

impl<T> TokioCompat<T> {
    /// The inner resource.
    pub closed spec fn inner(&self) -> T {
        self.inner
    }

    /// Whether a seek was started and its completion is still owed.
    pub closed spec fn seeking(&self) -> bool {
        self.seek_in_progress
    }

    /// Wraps `inner`; no seek is in flight.
    pub fn new(inner: T) -> (compat: Self)
        ensures
            compat.inner() == inner,
            !compat.seeking(),
    {
        Self { inner, seek_in_progress: false }
    }

    /// A shared borrow of the inner resource.
    pub fn get_ref(&self) -> (inner: &T)
        ensures
            *inner == self.inner(),
    {
        &self.inner
    }

    /// An exclusive borrow of the inner resource; the seek flag stays as it is.
    pub fn get_mut(&mut self) -> (inner: &mut T)
        ensures
            *inner == old(self).inner(),
            final(self).inner() == *final(inner),
            final(self).seeking() == old(self).seeking(),
    {
        &mut self.inner
    }

    /// Whether a seek was started and its completion is still owed.
    pub fn seek_in_progress(&self) -> (in_progress: bool)
        ensures
            in_progress == self.seeking(),
    {
        self.seek_in_progress
    }

    /// Takes one step of a seek: notes `event` and says what to do next. The
    /// inner resource is left alone; the caller acts on it as the result
    /// says, and comes back with what it answered.
    pub fn poll_seek(&mut self, event: SeekEvent) -> (action: SeekAction)
        ensures
            (final(self).seeking(), action) == seek_step(old(self).seeking(), event),
            final(self).inner() == old(self).inner(),
            (event matches SeekEvent::Completed(polled) && failed_as(polled, Kind::Interrupted))
                ==> (action matches SeekAction::Return(report) && failed_as(report, Kind::Other)),
    {
        match event {
            SeekEvent::Requested(pos) => {
                if self.seek_in_progress {
                    SeekAction::Complete
                } else {
                    SeekAction::Start(pos)
                }
            },
            SeekEvent::Started(Ok(_)) => {
                self.seek_in_progress = true;
                SeekAction::Complete
            },
            SeekEvent::Started(Err(err)) => SeekAction::Return(Polled::Ready(Err(err))),
            SeekEvent::Completed(Polled::Pending) => SeekAction::Return(Polled::Pending),
            SeekEvent::Completed(Polled::Ready(result)) => {
                self.seek_in_progress = false;
                match result {
                    Ok(position) => SeekAction::Return(Polled::Ready(Ok(position))),
                    Err(err) => SeekAction::Return(report_failure(err)),
                }
            },
        }
    }

    /// Gives the inner resource back and ends the adapter.
    pub fn into_inner(self) -> (inner: T)
        ensures
            inner == self.inner(),
    {
        self.inner
    }
}

} // verus!
