//! The decisions of the event-processing loops of KuRec's workers. The loops
//! themselves wait on streams and timers; each time they wake up they ask
//! these functions what to do.

use crate::error_handling::{ErrorAction, EpgUpdateError};
use crate::events::EpgStoredEvent;
use vstd::prelude::*;

verus! {

/// What a worker loop woke up for.
#[derive(Debug, Clone, Copy, PartialEq, Eq, Structural)]
pub enum LoopSignal {
    /// Shutdown was requested.
    ShutdownRequested,
    /// An event arrived.
    EventReceived,
    /// Receiving the next event failed.
    ReceiveFailed,
    /// The event stream ended.
    StreamEnded,
}

/// What a worker loop does next.
#[derive(Debug, Clone, Copy, PartialEq, Eq, Structural)]
pub enum LoopAction {
    /// Leave the loop.
    Stop,
    /// Handle the event that arrived, then go on.
    HandleEvent,
    /// Go on waiting.
    Continue,
    /// Subscribe to the event source again.
    Resubscribe,
}

/// The step of the mirakc-events and EPG-updater command loops: they stop on
/// shutdown, log receive errors and go on, and resubscribe when the stream ends.
pub open spec fn command_loop_step(signal: LoopSignal) -> LoopAction {
    match signal {
        LoopSignal::ShutdownRequested => LoopAction::Stop,
        LoopSignal::EventReceived => LoopAction::HandleEvent,
        LoopSignal::ReceiveFailed => LoopAction::Continue,
        LoopSignal::StreamEnded => LoopAction::Resubscribe,
    }
}

/// The next action of a command loop.
pub fn command_loop_action(signal: LoopSignal) -> (r: LoopAction)
    ensures
        r == command_loop_step(signal),
{
    match signal {
        LoopSignal::ShutdownRequested => LoopAction::Stop,
        LoopSignal::EventReceived => LoopAction::HandleEvent,
        LoopSignal::ReceiveFailed => LoopAction::Continue,
        LoopSignal::StreamEnded => LoopAction::Resubscribe,
    }
}

/// What a command loop does after trying to subscribe again: go on with the
/// new stream, or stop where that failed.
pub fn after_resubscribe(succeeded: bool) -> (r: LoopAction)
    ensures
        r == (if succeeded {
            LoopAction::Continue
        } else {
            LoopAction::Stop
        }),
{
    if succeeded {
        LoopAction::Continue
    } else {
        LoopAction::Stop
    }
}

/// The step of a worker built with the worker builder: it stops on shutdown
/// and when the stream ends, and goes on after a receive error.
pub open spec fn builder_loop_step(signal: LoopSignal) -> LoopAction {
    match signal {
        LoopSignal::ShutdownRequested => LoopAction::Stop,
        LoopSignal::EventReceived => LoopAction::HandleEvent,
        LoopSignal::ReceiveFailed => LoopAction::Continue,
        LoopSignal::StreamEnded => LoopAction::Stop,
    }
}

/// The next action of a worker built with the worker builder.
pub fn builder_loop_action(signal: LoopSignal) -> (r: LoopAction)
    ensures
        r == builder_loop_step(signal),
{
    match signal {
        LoopSignal::ShutdownRequested => LoopAction::Stop,
        LoopSignal::EventReceived => LoopAction::HandleEvent,
        LoopSignal::ReceiveFailed => LoopAction::Continue,
        LoopSignal::StreamEnded => LoopAction::Stop,
    }
}

/// The step of the loop that relays mirakc's events: it stops on shutdown
/// and when the event stream ends, and goes on after every event, whether the
/// event was published, could not be published, could not be parsed or was of
/// an unknown type.
pub open spec fn relay_loop_step(signal: LoopSignal) -> LoopAction {
    match signal {
        LoopSignal::ShutdownRequested => LoopAction::Stop,
        LoopSignal::EventReceived => LoopAction::HandleEvent,
        LoopSignal::ReceiveFailed => LoopAction::Continue,
        LoopSignal::StreamEnded => LoopAction::Stop,
    }
}

/// The next action of the loop that relays mirakc's events.
pub fn relay_loop_action(signal: LoopSignal) -> (r: LoopAction)
    ensures
        r == relay_loop_step(signal),
{
    match signal {
        LoopSignal::ShutdownRequested => LoopAction::Stop,
        LoopSignal::EventReceived => LoopAction::HandleEvent,
        LoopSignal::ReceiveFailed => LoopAction::Continue,
        LoopSignal::StreamEnded => LoopAction::Stop,
    }
}

/// How handling a message ended, as the worker sees it.
#[derive(Debug, Clone, Copy, PartialEq, Eq, Structural)]
pub enum HandlingOutcome {
    /// The handler succeeded.
    Succeeded,
    /// The handler failed with an error that says how to react to it.
    FailedClassified(ErrorAction),
    /// The handler failed with an error that does not say.
    FailedUnclassified,
}

/// Whether a message is acknowledged after handling: on success, and on a
/// failure classified as one to ignore. Otherwise it stays unacknowledged so
/// that the stream delivers it again.
pub open spec fn acknowledges(outcome: HandlingOutcome) -> bool {
    match outcome {
        HandlingOutcome::Succeeded => true,
        HandlingOutcome::FailedClassified(ErrorAction::Ignore) => true,
        HandlingOutcome::FailedClassified(ErrorAction::Retry) => false,
        HandlingOutcome::FailedUnclassified => false,
    }
}

/// Whether to acknowledge a message after handling it.
pub fn should_ack(outcome: HandlingOutcome) -> (r: bool)
    ensures
        r == acknowledges(outcome),
{
    match outcome {
        HandlingOutcome::Succeeded => true,
        HandlingOutcome::FailedClassified(action) => match action {
            ErrorAction::Retry => false,
            ErrorAction::Ignore => true,
        },
        HandlingOutcome::FailedUnclassified => false,
    }
}

/// The event that the EPG updater loop publishes after its handler ran: the
/// handler's output, if it succeeded with one.
pub fn event_to_publish(result: Result<Option<EpgStoredEvent>, EpgUpdateError>) -> (r: Option<
    EpgStoredEvent,
>)
    ensures
        r == match result {
            Ok(Some(e)) => Some(e),
            _ => None::<EpgStoredEvent>,
        },
{
    match result {
        Ok(Some(e)) => Some(e),
        _ => None,
    }
}

/// A command loop leaves only on shutdown, or where subscribing again failed;
/// a worker built with the builder, and the loop that relays mirakc's events,
/// leave on shutdown and at the end of their stream. None of them leaves
/// because receiving or handling an event failed.
pub proof fn lemma_loops_stop_only_on_shutdown_or_end(signal: LoopSignal)
    ensures
        command_loop_step(signal) == LoopAction::Stop <==> signal == LoopSignal::ShutdownRequested,
        builder_loop_step(signal) == LoopAction::Stop <==> (signal
            == LoopSignal::ShutdownRequested || signal == LoopSignal::StreamEnded),
        command_loop_step(signal) == LoopAction::Resubscribe <==> signal == LoopSignal::StreamEnded,
        signal == LoopSignal::ReceiveFailed ==> command_loop_step(signal) == LoopAction::Continue
            && builder_loop_step(signal) == LoopAction::Continue,
        relay_loop_step(signal) == LoopAction::Stop <==> (signal == LoopSignal::ShutdownRequested
            || signal == LoopSignal::StreamEnded),
        relay_loop_step(signal) != LoopAction::Resubscribe,
{
}

/// A message stays unacknowledged (and is delivered again) exactly when its
/// handling failed with an error that is not classified as one to ignore.
pub proof fn lemma_redelivery(outcome: HandlingOutcome)
    ensures
        !acknowledges(outcome) <==> outcome != HandlingOutcome::Succeeded && outcome
            != HandlingOutcome::FailedClassified(ErrorAction::Ignore),
{
}

/// Where the segment of `s` that starts at or after `start` begins, scanning
/// for `::` from position `i` on, as `split("::")` cuts.
pub open spec fn segment_start_from(s: Seq<char>, i: int, start: int) -> int
    decreases s.len() - i,
{
    if i < 0 || i + 1 >= s.len() {
        start
    } else if s[i] == ':' && s[i + 1] == ':' {
        segment_start_from(s, i + 2, i + 2)
    } else {
        segment_start_from(s, i + 1, start)
    }
}

/// The last of the segments that `::` separates in `s`, as
/// `s.split("::").last()` gives it.
pub open spec fn last_segment(s: Seq<char>) -> Seq<char> {
    s.subrange(segment_start_from(s, 0, 0), s.len() as int)
}

/// The start of the segment scan never moves backwards nor past the end.
proof fn lemma_segment_start_bounds(s: Seq<char>, i: int, start: int)
    requires
        0 <= start <= i <= s.len(),
    ensures
        start <= segment_start_from(s, i, start) <= s.len(),
    decreases s.len() - i,
{
    if i + 1 >= s.len() {
    } else if s[i] == ':' && s[i + 1] == ':' {
        lemma_segment_start_bounds(s, i + 2, i + 2);
    } else {
        lemma_segment_start_bounds(s, i + 1, start);
    }
}

/// The durable consumer name for an event type: `worker_` followed by the last
/// segment of the type's path.
pub fn durable_name_for(path: &str) -> (r: String)
    ensures
        r@ == "worker_"@ + last_segment(path@),
{
    let n = path.unicode_len();
    let mut i: usize = 0;
    let mut start: usize = 0;
    while n - i >= 2
        invariant
            n == path@.len(),
            0 <= start <= i <= n,
            segment_start_from(path@, 0, 0) == segment_start_from(
                path@,
                i as int,
                start as int,
            ),
        decreases n - i,
    {
        if path.get_char(i) == ':' && path.get_char(i + 1) == ':' {
            i = i + 2;
            start = i;
        } else {
            i = i + 1;
        }
    }
    proof {
        lemma_segment_start_bounds(path@, 0, 0);
    }
    let segment = path.substring_char(start, n);
    String::from_str("worker_").concat(segment)
}

} // verus!
