//! Reading: the inner resource fills a view over the caller's slice, and the
//! adapter reports by how much the filled region of that view grew.

use crate::error::kind_of;
use crate::error::other_error;
use crate::error::Kind;
use crate::error::INTERRUPTED;
use crate::poll::failed_as;
use crate::poll::failure_report;
use crate::poll::report_failure;
use crate::poll::Polled;
use std::io::Error;
use tokio::io::ReadBuf;
use vstd::prelude::*;

verus! {

/// A view over a byte slice that tracks how much of it has been filled.
#[verifier::external_type_specification]
#[verifier::external_body]
pub struct ExReadBuf<'a>(ReadBuf<'a>);

/// The filled region of `view`: the bytes that `tokio::io::ReadBuf::filled`
/// gives.
pub uninterp spec fn filled_of(view: ReadBuf<'_>) -> Seq<u8>;

/// The capacity of `view`: the length of the slice that it was made over.
pub uninterp spec fn capacity_of(view: ReadBuf<'_>) -> nat;

/// Calls `tokio::io::ReadBuf::new`. Trusted: the new view spans the whole of
/// `buf`, and nothing of it is filled yet; whatever is written through the
/// view, `buf` keeps its length.
#[verifier::external_body]
fn new_view<'a>(buf: &'a mut [u8]) -> (view: ReadBuf<'a>)
    ensures
        capacity_of(view) == old(buf)@.len(),
        filled_of(view) == Seq::<u8>::empty(),
        final(buf)@.len() == old(buf)@.len(),
{
    ReadBuf::new(buf)
}

/// Calls `tokio::io::ReadBuf::filled`. Trusted: the slice it gives is the
/// filled region, which lies within the view.
#[verifier::external_body]
fn filled<'b>(view: &'b ReadBuf<'_>) -> (bytes: &'b [u8])
    ensures
        bytes@ == filled_of(*view),
        bytes@.len() <= capacity_of(*view),
{
    view.filled()
}

/// What the adapter reports of a read: the growth of the filled region where
/// the inner resource succeeded, else as for any operation.
pub open spec fn read_outcome(
    filled_before: nat,
    filled_after: nat,
    polled: Polled<Result<(), Error>>,
) -> Polled<Result<usize, Error>> {
    match polled {
        Polled::Pending => Polled::Pending,
        Polled::Ready(Ok(_)) => Polled::Ready(Ok((filled_after - filled_before) as usize)),
        Polled::Ready(Err(err)) => failure_report(err),
    }
}

/// Begins a read into `buf`: gives the view to hand to the inner resource,
/// which spans the whole of `buf` with nothing filled, and the length of its
/// filled region before the inner resource is polled. What `buf` holds when
/// the view is done with is up to the inner resource; its length stays.
pub fn start_read<'a>(buf: &'a mut [u8]) -> (started: (ReadBuf<'a>, usize))
    ensures
        capacity_of(started.0) == old(buf)@.len(),
        filled_of(started.0) == Seq::<u8>::empty(),
        started.1 == 0,
        final(buf)@.len() == old(buf)@.len(),
{
    let view = new_view(buf);
    let filled_before = filled(&view).len();
    (view, filled_before)
}

/// Ends a read: from the view as the inner resource left it, the length that
/// `start_read` gave and the inner poll's result, what the adapter reports.
/// A count that is reported is no more than the view can hold.
pub fn poll_read(
    view: &ReadBuf<'_>,
    filled_before: usize,
    polled: Polled<Result<(), Error>>,
) -> (out: Polled<Result<usize, Error>>)
    requires
        polled matches Polled::Ready(Ok(_)) ==> filled_before <= filled_of(*view).len(),
    ensures
        out == read_outcome(filled_before as nat, filled_of(*view).len(), polled),
        out matches Polled::Ready(Ok(count)) ==> count <= capacity_of(*view),
        failed_as(polled, Kind::Interrupted) ==> failed_as(out, Kind::Other),
{
    match polled {
        Polled::Pending => Polled::Pending,
        Polled::Ready(Ok(_)) => Polled::Ready(Ok(filled(view).len() - filled_before)),
        Polled::Ready(Err(err)) => report_failure(err),
    }
}

/// As `poll_read`, for a caller that cannot show that the filled region did
/// not shrink: `None` where the inner resource succeeded and left less filled
/// than there was.
pub fn try_poll_read(
    view: &ReadBuf<'_>,
    filled_before: usize,
    polled: Polled<Result<(), Error>>,
) -> (out: Option<Polled<Result<usize, Error>>>)
    ensures
        out == if polled matches Polled::Ready(Ok(_)) && filled_of(*view).len() < filled_before {
            None
        } else {
            Some(read_outcome(filled_before as nat, filled_of(*view).len(), polled))
        },
        out matches Some(Polled::Ready(Ok(count))) ==> count <= capacity_of(*view),
        failed_as(polled, Kind::Interrupted) ==> (out matches Some(report) && failed_as(
            report,
            Kind::Other,
        )),
{
    if polled.is_ready() && filled(view).len() < filled_before {
        match polled {
            Polled::Ready(Ok(_)) => None,
            _ => Some(poll_read(view, filled_before, polled)),
        }
    } else {
        Some(poll_read(view, filled_before, polled))
    }
}

/// A read in which the inner resource succeeded and filled `count` bytes more
/// is reported as a success with exactly `count`.
pub proof fn lemma_read_counts_growth(filled_before: nat, count: nat)
    requires
        filled_before + count <= usize::MAX,
    ensures
        read_outcome(filled_before, filled_before + count, Polled::Ready(Ok(())))
            == Polled::<Result<usize, Error>>::Ready(Ok(count as usize)),
{
}

/// A read in which the inner resource failed with a stall is reported as
/// "not ready", never as a failure.
pub proof fn lemma_read_stall_is_pending(filled_before: nat, filled_after: nat, err: Error)
    requires
        kind_of(err) == Kind::WouldBlock,
    ensures
        read_outcome(filled_before, filled_after, Polled::Ready(Err(err))) is Pending,
{
}

/// A read in which the inner resource was interrupted is reported as the
/// failure with the fixed text that stands in for every interruption; that
/// this failure is of the generic kind is part of the contract of
/// `poll_read`.
pub proof fn lemma_read_interrupted_is_replaced(filled_before: nat, filled_after: nat, err: Error)
    requires
        kind_of(err) == Kind::Interrupted,
    ensures
        read_outcome(filled_before, filled_after, Polled::Ready(Err(err)))
            == Polled::<Result<usize, Error>>::Ready(Err(other_error(INTERRUPTED@))),
{
}

/// A read in which the inner resource failed in any other way is reported as
/// that same failure.
pub proof fn lemma_read_failure_is_kept(filled_before: nat, filled_after: nat, err: Error)
    requires
        kind_of(err) != Kind::WouldBlock,
        kind_of(err) != Kind::Interrupted,
    ensures
        read_outcome(filled_before, filled_after, Polled::Ready(Err(err)))
            == Polled::<Result<usize, Error>>::Ready(Err(err)),
{
}

} // verus!
