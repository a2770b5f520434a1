//! What one poll of the inner resource gave, and what the adapter reports of
//! it to its own caller.

use crate::error::interrupted;
use crate::error::kind;
use crate::error::kind_of;
use crate::error::other_error;
use crate::error::Kind;
use crate::error::INTERRUPTED;
use std::io::Error;
use vstd::prelude::*;

verus! {

/// The state of an operation after one poll.
#[derive(Debug)]
pub enum Polled<T> {
    /// Not done yet: poll again later.
    Pending,
    /// Done, with this result.
    Ready(T),
}

impl<T> Polled<T> {
    /// Whether the operation is not done yet.
    pub fn is_pending(&self) -> (pending: bool)
        ensures
            pending == (*self is Pending),
    {
        match self {
            Polled::Pending => true,
            Polled::Ready(_) => false,
        }
    }

    /// Whether the operation is done.
    pub fn is_ready(&self) -> (ready: bool)
        ensures
            ready == (*self is Ready),
    {
        match self {
            Polled::Pending => false,
            Polled::Ready(_) => true,
        }
    }
}

/// Whether `polled` is a failure of kind `kind`.
pub open spec fn failed_as<T>(polled: Polled<Result<T, Error>>, kind: Kind) -> bool {
    polled matches Polled::Ready(Err(err)) && kind_of(err) == kind
}

/// What the adapter reports of a failure `err` of the inner resource: a stall
/// is no failure but "not ready", an interruption becomes the generic failure
/// with the fixed text, and any other failure is reported as it came.
pub open spec fn failure_report<T>(err: Error) -> Polled<Result<T, Error>> {
    match kind_of(err) {
        Kind::WouldBlock => Polled::Pending,
        Kind::Interrupted => Polled::Ready(Err(other_error(INTERRUPTED@))),
        _ => Polled::Ready(Err(err)),
    }
}

/// What the adapter reports of a poll of the inner resource whose success
/// needs no change: "not ready" and success as they came, a failure as
/// `failure_report` says.
pub open spec fn adapted<T>(polled: Polled<Result<T, Error>>) -> Polled<Result<T, Error>> {
    match polled {
        Polled::Pending => Polled::Pending,
        Polled::Ready(Ok(value)) => Polled::Ready(Ok(value)),
        Polled::Ready(Err(err)) => failure_report(err),
    }
}

/// Reports a failure of the inner resource. The failure that stands in for an
/// interruption is of the generic kind.
pub fn report_failure<T>(err: Error) -> (out: Polled<Result<T, Error>>)
    ensures
        out == failure_report::<T>(err),
        kind_of(err) == Kind::Interrupted ==> failed_as(out, Kind::Other),
{
    match kind(&err) {
        Kind::WouldBlock => Polled::Pending,
        Kind::Interrupted => Polled::Ready(Err(interrupted())),
        _ => Polled::Ready(Err(err)),
    }
}

/// Reports a poll of the inner resource whose success needs no change.
pub fn adapt<T>(polled: Polled<Result<T, Error>>) -> (out: Polled<Result<T, Error>>)
    ensures
        out == adapted(polled),
        failed_as(polled, Kind::Interrupted) ==> failed_as(out, Kind::Other),
{
    match polled {
        Polled::Pending => Polled::Pending,
        Polled::Ready(Ok(value)) => Polled::Ready(Ok(value)),
        Polled::Ready(Err(err)) => report_failure(err),
    }
}

/// Reports a poll of the inner buffered read: the filled slice as it came, a
/// failure as `failure_report` says.
pub fn poll_fill_buf<'a>(
    polled: Polled<Result<&'a [u8], Error>>,
) -> (out: Polled<Result<&'a [u8], Error>>)
    ensures
        out == adapted(polled),
        failed_as(polled, Kind::Interrupted) ==> failed_as(out, Kind::Other),
{
    adapt(polled)
}

/// Reports a poll of the inner write: the count of bytes written as it came,
/// a failure as `failure_report` says.
pub fn poll_write(polled: Polled<Result<usize, Error>>) -> (out: Polled<Result<usize, Error>>)
    ensures
        out == adapted(polled),
        failed_as(polled, Kind::Interrupted) ==> failed_as(out, Kind::Other),
{
    adapt(polled)
}

/// Reports a poll of the inner flush: success as it came, a failure as
/// `failure_report` says.
pub fn poll_flush(polled: Polled<Result<(), Error>>) -> (out: Polled<Result<(), Error>>)
    ensures
        out == adapted(polled),
        failed_as(polled, Kind::Interrupted) ==> failed_as(out, Kind::Other),
{
    adapt(polled)
}

/// Reports a close, from a poll of the inner shutdown: success as it came, a
/// failure as `failure_report` says.
pub fn poll_close(polled: Polled<Result<(), Error>>) -> (out: Polled<Result<(), Error>>)
    ensures
        out == adapted(polled),
        failed_as(polled, Kind::Interrupted) ==> failed_as(out, Kind::Other),
{
    adapt(polled)
}

} // verus!
