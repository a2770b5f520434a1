//! Seeking: the inner resource seeks in two phases, a start that does not
//! block and a completion that is polled, and the adapter drives both from
//! single polls of its own caller.

use crate::error::kind_of;
use crate::error::Kind;
use crate::poll::failure_report;
use crate::poll::Polled;
use std::io::Error;
use std::io::SeekFrom;
use vstd::prelude::*;

verus! {

/// A position to seek to, carried through as it came.
#[verifier::external_type_specification]
#[verifier::external_body]
pub struct ExSeekFrom(SeekFrom);

/// What happened to the adapter.
#[derive(Debug)]
pub enum SeekEvent {
    /// Its caller polls for a seek to this position.
    Requested(SeekFrom),
    /// The inner resource answered the start of a seek.
    Started(Result<(), Error>),
    /// The inner resource answered a poll for the completion of a seek.
    Completed(Polled<Result<u64, Error>>),
}

/// What is to be done next.
#[derive(Debug)]
pub enum SeekAction {
    /// Start a seek to this position on the inner resource.
    Start(SeekFrom),
    /// Poll the inner resource for the completion of the seek.
    Complete,
    /// Report this to the caller: the poll is over.
    Return(Polled<Result<u64, Error>>),
}

/// One step of the adapter: from whether a seek is in progress and an event,
/// whether one is in progress afterwards and what to do next.
pub open spec fn seek_step(in_progress: bool, event: SeekEvent) -> (bool, SeekAction) {
    match event {
        SeekEvent::Requested(pos) => if in_progress {
            (true, SeekAction::Complete)
        } else {
            (false, SeekAction::Start(pos))
        },
        SeekEvent::Started(Ok(_)) => (true, SeekAction::Complete),
        SeekEvent::Started(Err(err)) => (in_progress, SeekAction::Return(Polled::Ready(Err(err)))),
        SeekEvent::Completed(Polled::Pending) => (in_progress, SeekAction::Return(Polled::Pending)),
        SeekEvent::Completed(Polled::Ready(Ok(position))) => (
            false,
            SeekAction::Return(Polled::Ready(Ok(position))),
        ),
        SeekEvent::Completed(Polled::Ready(Err(err))) => (
            false,
            SeekAction::Return(failure_report(err)),
        ),
    }
}

/// Whether `event` is what follows `action`: the inner resource's answer to
/// what was asked of it, or, once the poll is over, the caller's next poll.
pub open spec fn answers(event: SeekEvent, action: SeekAction) -> bool {
    match action {
        SeekAction::Start(_) => event is Started,
        SeekAction::Complete => event is Completed,
        SeekAction::Return(_) => event is Requested,
    }
}

/// The adapter after the events of `events`, taken in turn from a state in
/// which a seek was in progress or not: whether one is in progress then, and
/// the last action. Before any event the adapter awaits a poll, as after a
/// `Return`.
pub open spec fn seek_run(in_progress: bool, events: Seq<SeekEvent>) -> (bool, SeekAction)
    decreases events.len(),
{
    if events.len() == 0 {
        (in_progress, SeekAction::Return(Polled::Pending))
    } else {
        seek_step(seek_run(in_progress, events.drop_last()).0, events.last())
    }
}

/// Whether every event of `events` is what follows the action before it.
pub open spec fn in_turn(in_progress: bool, events: Seq<SeekEvent>) -> bool {
    forall|i: int|
        0 <= i < events.len() ==> answers(
            #[trigger] events[i],
            seek_run(in_progress, events.take(i)).1,
        )
}

/// Whether, after `events`, the completion of a seek is owed: a start has
/// succeeded, and no poll for completion has given a definite result since.
/// Before any event it is owed if a seek was in progress.
pub open spec fn completion_owed(in_progress: bool, events: Seq<SeekEvent>) -> bool
    decreases events.len(),
{
    if events.len() == 0 {
        in_progress
    } else {
        match events.last() {
            SeekEvent::Started(Ok(_)) => true,
            SeekEvent::Completed(Polled::Ready(_)) => false,
            _ => completion_owed(in_progress, events.drop_last()),
        }
    }
}

/// Whether `event` is a completion that failed with a stall: the adapter then
/// reports "not ready" although no seek is in progress any more.
pub open spec fn stalled_completion(event: SeekEvent) -> bool {
    event matches SeekEvent::Completed(Polled::Ready(Err(err))) && kind_of(err) == Kind::WouldBlock
}

/// Whether `event` is one of a seek to `pos` that has not come to an end: a
/// poll for it, a start that succeeded, or a completion that is not ready.
pub open spec fn under_way(pos: SeekFrom, event: SeekEvent) -> bool {
    ||| event == SeekEvent::Requested(pos)
    ||| event == SeekEvent::Started(Ok(()))
    ||| event == SeekEvent::Completed(Polled::Pending)
}

/// After any events whatever, a seek is in progress exactly if the completion
/// of one is owed.
pub proof fn lemma_in_progress_while_owed(in_progress: bool, events: Seq<SeekEvent>)
    ensures
        seek_run(in_progress, events).0 == completion_owed(in_progress, events),
    decreases events.len(),
{
    if events.len() > 0 {
        lemma_in_progress_while_owed(in_progress, events.drop_last());
    }
}

/// What holds of the flag beside each action, on every run in turn.
spec fn flag_fits(in_progress: bool, action: SeekAction) -> bool {
    &&& action is Start ==> !in_progress
    &&& action is Complete ==> in_progress
    &&& action matches SeekAction::Return(Polled::Ready(_)) ==> !in_progress
}

/// Every front part of a run in turn is in turn.
proof fn lemma_front_in_turn(in_progress: bool, events: Seq<SeekEvent>, count: int)
    requires
        0 <= count <= events.len(),
        in_turn(in_progress, events),
    ensures
        in_turn(in_progress, events.take(count)),
{
    let front = events.take(count);
    assert forall|i: int| 0 <= i < front.len() implies answers(
        #[trigger] front[i],
        seek_run(in_progress, front.take(i)).1,
    ) by {
        assert(front.take(i) == events.take(i));
    }
}

/// On a run in turn, the last event is what follows the action before it.
proof fn lemma_last_in_turn(in_progress: bool, events: Seq<SeekEvent>)
    requires
        events.len() > 0,
        in_turn(in_progress, events),
    ensures
        in_turn(in_progress, events.drop_last()),
        answers(events.last(), seek_run(in_progress, events.drop_last()).1),
{
    assert(events.drop_last() == events.take(events.len() - 1));
    lemma_front_in_turn(in_progress, events, events.len() - 1);
    assert(answers(events[events.len() - 1], seek_run(in_progress, events.take(events.len() - 1)).1));
}

proof fn lemma_flag_fits(in_progress: bool, events: Seq<SeekEvent>)
    requires
        in_turn(in_progress, events),
    ensures
        flag_fits(seek_run(in_progress, events).0, seek_run(in_progress, events).1),
    decreases events.len(),
{
    if events.len() > 0 {
        lemma_last_in_turn(in_progress, events);
        lemma_flag_fits(in_progress, events.drop_last());
    }
}

/// The seek flag after any run of events in turn: once a poll has ended with
/// a definite result, no seek is in progress; when a poll has ended "not
/// ready", one is in progress, unless it ended so because the completion
/// failed with a stall.
pub proof fn lemma_seek_flag(in_progress: bool, events: Seq<SeekEvent>)
    requires
        events.len() > 0,
        in_turn(in_progress, events),
    ensures
        seek_run(in_progress, events).1 matches SeekAction::Return(Polled::Ready(_)) ==> !seek_run(
            in_progress,
            events,
        ).0,
        seek_run(in_progress, events).1 == SeekAction::Return(Polled::Pending)
            && !stalled_completion(events.last()) ==> seek_run(in_progress, events).0,
{
    lemma_flag_fits(in_progress, events);
    // A poll that ends "not ready" without a stall ends so on a completion
    // that is not ready, which leaves the flag as the step before it set it.
    lemma_last_in_turn(in_progress, events);
    lemma_flag_fits(in_progress, events.drop_last());
}

/// Whatever came before, a poll in which the inner resource reports that the
/// seek is complete reports the position that the inner resource gave, and
/// leaves no seek in progress.
pub proof fn lemma_seek_reports_position(
    in_progress: bool,
    events: Seq<SeekEvent>,
    position: u64,
)
    requires
        events.len() > 0,
        events.last() == SeekEvent::Completed(Polled::Ready(Ok(position))),
    ensures
        seek_run(in_progress, events) == (false, SeekAction::Return(Polled::Ready(Ok(position)))),
{
}

/// What holds after `count` events of a seek to `pos` that is under way, on
/// an adapter that began with no seek in progress.
spec fn under_way_fits(pos: SeekFrom, count: nat, in_progress: bool, action: SeekAction) -> bool {
    if count == 0 {
        !in_progress && action is Return
    } else if count == 1 {
        !in_progress && action == SeekAction::Start(pos)
    } else {
        in_progress && (action is Complete || action == SeekAction::Return(Polled::Pending))
    }
}

proof fn lemma_under_way_fits(pos: SeekFrom, events: Seq<SeekEvent>)
    requires
        in_turn(false, events),
        forall|i: int| 0 <= i < events.len() ==> under_way(pos, #[trigger] events[i]),
    ensures
        under_way_fits(pos, events.len(), seek_run(false, events).0, seek_run(false, events).1),
    decreases events.len(),
{
    if events.len() > 0 {
        lemma_last_in_turn(false, events);
        lemma_under_way_fits(pos, events.drop_last());
        assert(under_way(pos, events.last()));
    }
}

/// A seek on a new adapter that is polled until it is done, and that meets
/// no failure on the way, is the two-phase seek of the inner resource itself:
/// the seek is started once, at the first poll and to the position asked
/// for, every later step polls for completion or reports "not ready", and
/// the last poll reports the position that the inner resource gave.
pub proof fn lemma_seek_to_completion(pos: SeekFrom, events: Seq<SeekEvent>, position: u64)
    requires
        events.len() > 0,
        in_turn(false, events),
        forall|i: int| 0 <= i < events.len() - 1 ==> under_way(pos, #[trigger] events[i]),
        events.last() == SeekEvent::Completed(Polled::Ready(Ok(position))),
    ensures
        seek_run(false, events) == (false, SeekAction::Return(Polled::Ready(Ok(position)))),
        seek_run(false, events.take(1)).1 == SeekAction::Start(pos),
        forall|i: int|
            1 < i < events.len() ==> {
                let action = #[trigger] seek_run(false, events.take(i)).1;
                action is Complete || action == SeekAction::Return(Polled::Pending)
            },
{
    assert forall|i: int| 0 <= i < events.len() implies under_way_fits(
        pos,
        i as nat,
        (#[trigger] seek_run(false, events.take(i))).0,
        seek_run(false, events.take(i)).1,
    ) by {
        lemma_front_in_turn(false, events, i);
        lemma_under_way_fits(pos, events.take(i));
    }
    // The last event answers a poll for completion, and none is asked for
    // before a start: the run has a first event and a second before its last.
    lemma_last_in_turn(false, events);
    assert(events.drop_last() == events.take(events.len() - 1));
    assert(seek_run(false, events.take(events.len() - 1)).1 is Complete);
    assert(events.len() > 2);
    assert(under_way_fits(pos, 1, seek_run(false, events.take(1)).0, seek_run(false, events.take(1)).1));
}

} // verus!
