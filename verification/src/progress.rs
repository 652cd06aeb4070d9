//! The sending side of progress reporting.
//!
//! Progress travels over a bounded channel to a consumer that runs beside
//! the transfer. A report that finds the channel full is dropped; a report
//! that finds the consumer gone ends the transfer.

use vstd::prelude::*;
use tokio::sync::mpsc::Sender;
use crate::error::Error;

verus! {

#[verifier::external_type_specification]
#[verifier::external_body]
#[verifier::reject_recursive_types(T)]
pub struct ExSender<T>(Sender<T>);

/// What became of one report handed to the channel.
#[derive(Clone, Copy, Debug, PartialEq, Eq, Structural)]
pub enum SendOutcome {
    /// The report was queued for the consumer.
    Sent,
    /// The queue was full; the report was dropped.
    Full,
    /// The consumer is gone.
    Closed,
}

/// What an observer is told.
#[derive(Clone, Copy, Debug, PartialEq, Eq, Structural)]
pub enum ProgressEvent {
    /// The number of bytes transferred so far.
    Progress(u64),
    /// The download is over: `true` with the output path, `false` with nothing.
    Complete(bool),
}

/// The registration of an observer: the sending half of its channel.
pub struct Callback {
    internal_sender: Sender<u64>,
}

/// `tokio::sync::mpsc::Sender::try_send`, with the three ways it can end told
/// apart. Which of them comes back depends on the consumer, so nothing is
/// claimed of the result.
#[verifier::external_body]
fn try_send(sender: &Sender<u64>, bytes: u64) -> (outcome: SendOutcome) {
    match sender.try_send(bytes) {
        Ok(()) => SendOutcome::Sent,
        Err(tokio::sync::mpsc::error::TrySendError::Full(_)) => SendOutcome::Full,
        Err(tokio::sync::mpsc::error::TrySendError::Closed(_)) => SendOutcome::Closed,
    }
}

/// What a report's outcome means for the transfer: only a closed channel
/// stops it.
pub open spec fn settled(outcome: SendOutcome) -> Result<(), Error> {
    match outcome {
        SendOutcome::Closed => Err(Error::ChannelClosed),
        _ => Ok(()),
    }
}

/// Decides whether the transfer goes on after a report.
pub fn settle(outcome: SendOutcome) -> (verdict: Result<(), Error>)
    ensures
        verdict == settled(outcome),
{
    match outcome {
        SendOutcome::Closed => Err(Error::ChannelClosed),
        _ => Ok(()),
    }
}

impl Callback {
    /// The sending half that the registration holds.
    pub closed spec fn sender(&self) -> Sender<u64> {
        self.internal_sender
    }

    /// Registers an observer by the sending half of its channel.
    pub fn new(sender: Sender<u64>) -> (callback: Callback)
        ensures
            callback.sender() == sender,
    {
        Callback { internal_sender: sender }
    }

    /// Hands the cumulative byte count to the channel without waiting.
    pub fn report(&self, bytes: u64) -> (outcome: SendOutcome) {
        try_send(&self.internal_sender, bytes)
    }
}

/// The order that an observer can rely on: whatever is followed by another
/// event is a progress report, and of two reports the later one carries at
/// least the count of the earlier. So a completion comes at most once, and last.
pub open spec fn orderly(events: Seq<ProgressEvent>) -> bool {
    forall|i: int, j: int|
        0 <= i < j < events.len() ==> match #[trigger] events[i] {
            ProgressEvent::Progress(earlier) => match #[trigger] events[j] {
                ProgressEvent::Progress(later) => earlier <= later,
                ProgressEvent::Complete(_) => true,
            },
            ProgressEvent::Complete(_) => false,
        }
}

/// `picked` names, in rising order, places of a sequence of the given length.
pub open spec fn rising_places(picked: Seq<int>, length: nat) -> bool {
    &&& forall|k: int| 0 <= k < picked.len() ==> 0 <= #[trigger] picked[k] < length
    &&& forall|k: int, l: int| 0 <= k < l < picked.len() ==> #[trigger] picked[k] < #[trigger] picked[l]
}

/// Whatever a consumer sees of an orderly sequence is orderly: reports that
/// were dropped or never read leave the rest in order.
pub proof fn lemma_seen_events_orderly(events: Seq<ProgressEvent>, picked: Seq<int>)
    requires
        orderly(events),
        rising_places(picked, events.len()),
    ensures
        orderly(Seq::new(picked.len(), |k: int| events[picked[k]])),
{
    let seen = Seq::new(picked.len(), |k: int| events[picked[k]]);
    assert forall|i: int, j: int| 0 <= i < j < seen.len() implies match #[trigger] seen[i] {
        ProgressEvent::Progress(earlier) => match #[trigger] seen[j] {
            ProgressEvent::Progress(later) => earlier <= later,
            ProgressEvent::Complete(_) => true,
        },
        ProgressEvent::Complete(_) => false,
    } by {
        assert(picked[i] < picked[j]);
        assert(seen[i] == events[picked[i]]);
        assert(seen[j] == events[picked[j]]);
    }
}

} // verus!
