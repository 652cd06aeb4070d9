//! What holds of every run of a download session.
//!
//! A run is a start state and the turns taken from it; each turn is an event
//! and what became of the progress report of that step. Beside the session's
//! state, a run leaves a history of what passed between the session and the
//! world: what the sink holds, what the fetch yielded, which requests were
//! sent, and what the observer was told.

use vstd::prelude::*;
use crate::error::Error;
use crate::progress::{orderly, ProgressEvent, SendOutcome};
use crate::session::{
    initial, report_of, sends, transition, ActionView, EventView, Phase, SessionState, Target,
};

verus! {

/// One step of a run: the event, and what became of the progress report
/// where the step hands one to the channel.
pub struct Turn {
    pub event: EventView,
    pub sent: SendOutcome,
}

/// What has become of the output sink.
pub enum Sink {
    /// It was never created.
    Untouched,
    /// It was created and holds what was written to it.
    Open,
    /// Its removal was asked for, and nothing was written since.
    Removed,
}

/// What passed between a session and the world.
pub struct History {
    /// What has become of the sink.
    pub sink: Sink,
    /// The bytes of the writes that were carried out, in order.
    pub written: Seq<u8>,
    /// The chunk whose write is under way.
    pub in_flight: Seq<u8>,
    /// The bytes of the chunks that the fetch yielded, in order.
    pub delivered: Seq<u8>,
    /// The sum of the lengths of the chunks that the fetch yielded.
    pub delivered_len: nat,
    /// The sum of the lengths of the writes that were carried out and
    /// counted towards the progress.
    pub counted_len: nat,
    /// The targets of the requests, in the order in which they were sent.
    pub requested: Seq<Target>,
    /// What the observer's side was handed, in order: the reports that the
    /// channel took, and the completion.
    pub observer: Seq<ProgressEvent>,
}

/// The history of a run without turns.
pub open spec fn blank() -> History {
    History {
        sink: Sink::Untouched,
        written: Seq::empty(),
        in_flight: Seq::empty(),
        delivered: Seq::empty(),
        delivered_len: 0,
        counted_len: 0,
        requested: Seq::empty(),
        observer: Seq::empty(),
    }
}

/// The history after one more turn, taken from `state`.
pub open spec fn record(history: History, state: SessionState, turn: Turn) -> History {
    let (next, action) = transition(state, turn.event, turn.sent);
    History {
        sink: if action is RemoveSink {
            Sink::Removed
        } else if action is Write || (state.phase is AwaitSink && turn.event is Done) {
            Sink::Open
        } else {
            history.sink
        },
        written: if state.phase is AwaitWrite && turn.event is Done {
            history.written + history.in_flight
        } else {
            history.written
        },
        in_flight: match action {
            ActionView::Write(bytes) => bytes,
            _ => history.in_flight,
        },
        delivered: match turn.event {
            EventView::Chunk(bytes) if state.phase is AwaitChunk => history.delivered + bytes,
            _ => history.delivered,
        },
        delivered_len: match turn.event {
            EventView::Chunk(bytes) if state.phase is AwaitChunk => history.delivered_len
                + bytes.len(),
            _ => history.delivered_len,
        },
        counted_len: if sends(state, turn.event) {
            history.counted_len + history.in_flight.len()
        } else {
            history.counted_len
        },
        requested: match action {
            ActionView::Get { url, target } => history.requested.push(target),
            _ => history.requested,
        },
        observer: match action {
            ActionView::Complete(delivered) => history.observer.push(
                ProgressEvent::Complete(delivered),
            ),
            _ => match report_of(state, turn.event) {
                Some(count) if turn.sent == SendOutcome::Sent => history.observer.push(
                    ProgressEvent::Progress(count),
                ),
                _ => history.observer,
            },
        },
    }
}

/// The state and the history that a run ends in.
pub open spec fn run(url: Seq<char>, observed: bool, turns: Seq<Turn>) -> (SessionState, History)
    decreases turns.len(),
{
    if turns.len() == 0 {
        (initial(url, observed), blank())
    } else {
        let (state, history) = run(url, observed, turns.drop_last());
        (transition(state, turns.last().event, turns.last().sent).0, record(
            history,
            state,
            turns.last(),
        ))
    }
}

/// The first `n` requests of a download that goes all the way: the whole
/// resource, then the segments from 0 upwards.
pub open spec fn requests(n: nat) -> Seq<Target> {
    Seq::new(
        n,
        |i: int|
            if i == 0 {
                Target::Whole
            } else {
                Target::Segment((i - 1) as u64)
            },
    )
}

/// The number of segments that are fetched where the server announces
/// `count`: segment 0 is fetched to learn the count, whatever it is.
pub open spec fn segments_due(count: u64) -> nat {
    if count == 0 {
        1
    } else {
        count as nat
    }
}

/// No completion among the events.
pub open spec fn progress_only(events: Seq<ProgressEvent>) -> bool {
    forall|i: int| 0 <= i < events.len() ==> #[trigger] events[i] is Progress
}

/// The completion for this outcome is the last of the events.
pub open spec fn told(events: Seq<ProgressEvent>, outcome: Result<(), Error>) -> bool {
    events.len() > 0 && events.last() == ProgressEvent::Complete(outcome is Ok)
}

/// What a settled outcome means for the history: a success has left the
/// sink with all that the fetch yielded, after the one whole-file request
/// or after the whole-file request and every segment due; a failure has
/// left the sink removed.
pub open spec fn settled(state: SessionState, history: History, outcome: Result<(), Error>) -> bool {
    match outcome {
        Ok(_) => {
            &&& history.sink is Open
            &&& history.written == history.delivered
            &&& (history.requested.len() == 1 || history.requested.len() == segments_due(
                state.segment_count,
            ) + 1)
        },
        Err(_) => history.sink is Removed,
    }
}

/// How far the requests have come while `target` is being fetched.
pub open spec fn placed(history: History, target: Target) -> bool {
    match target {
        Target::Whole => history.requested.len() == 1,
        Target::Segment(sq) => history.requested.len() == sq + 2,
    }
}

/// What ties a session's state to the history of the run that led to it.
pub open spec fn coherent(state: SessionState, history: History) -> bool {
    &&& history.requested == requests(history.requested.len())
    &&& history.delivered_len == history.delivered.len()
    &&& orderly(history.observer)
    &&& forall|i: int|
        0 <= i < history.observer.len() ==> (#[trigger] history.observer[i] matches ProgressEvent::Progress(
            count,
        ) ==> count <= state.counter)
    &&& (!state.observed ==> history.observer.len() == 0)
    &&& match state.phase {
        Phase::AwaitSink => {
            &&& history.sink is Untouched
            &&& history.requested.len() == 0
            &&& history.written.len() == 0
            &&& history.delivered.len() == 0
            &&& history.observer.len() == 0
        },
        Phase::AwaitConsumer => {
            &&& history.sink is Open
            &&& history.requested.len() == 0
            &&& history.written.len() == 0
            &&& history.delivered.len() == 0
            &&& progress_only(history.observer)
        },
        Phase::AwaitResponse(target) => {
            &&& history.sink is Open
            &&& history.written == history.delivered
            &&& progress_only(history.observer)
            &&& placed(history, target)
            &&& (target matches Target::Segment(sq) ==> sq == 0 || sq < state.segment_count)
        },
        Phase::AwaitChunk(target) => {
            &&& history.sink is Open
            &&& history.written == history.delivered
            &&& progress_only(history.observer)
            &&& placed(history, target)
            &&& (target matches Target::Segment(sq) ==> sq < segments_due(state.segment_count))
        },
        Phase::AwaitWrite(target, _) => {
            &&& history.sink is Open
            &&& history.written + history.in_flight == history.delivered
            &&& progress_only(history.observer)
            &&& placed(history, target)
            &&& (target matches Target::Segment(sq) ==> sq < segments_due(state.segment_count))
        },
        Phase::AwaitRemoval(_) => {
            &&& history.sink is Removed
            &&& progress_only(history.observer)
        },
        Phase::AwaitStop(outcome) => {
            &&& state.observed
            &&& settled(state, history, outcome)
            &&& progress_only(history.observer)
        },
        Phase::AwaitComplete(outcome) => {
            &&& state.observed
            &&& settled(state, history, outcome)
            &&& told(history.observer, outcome)
        },
        Phase::Finished(outcome) => if history.sink is Untouched {
            outcome == Err::<(), Error>(Error::Filesystem) && history.observer.len() == 0
        } else {
            settled(state, history, outcome) && (state.observed ==> told(
                history.observer,
                outcome,
            ))
        },
    }
}

/// One more request keeps the requests in their order.
proof fn lemma_requests_push(n: nat)
    ensures
        n == 0 ==> requests(n).push(Target::Whole) == requests(n + 1),
        0 < n <= u64::MAX + 1 ==> requests(n).push(Target::Segment((n - 1) as u64)) == requests(
            n + 1,
        ),
{
    if n == 0 {
        assert(requests(n).push(Target::Whole) =~= requests(n + 1));
    } else if n <= u64::MAX + 1 {
        assert(requests(n).push(Target::Segment((n - 1) as u64)) =~= requests(n + 1));
    }
}

/// A report of at least the count of every report before it keeps the
/// events in order, as long as no completion stands among them.
proof fn lemma_orderly_push_progress(events: Seq<ProgressEvent>, count: u64)
    requires
        orderly(events),
        progress_only(events),
        forall|i: int|
            0 <= i < events.len() ==> (#[trigger] events[i] matches ProgressEvent::Progress(earlier)
                ==> earlier <= count),
    ensures
        orderly(events.push(ProgressEvent::Progress(count))),
        progress_only(events.push(ProgressEvent::Progress(count))),
{
    let longer = events.push(ProgressEvent::Progress(count));
    assert forall|i: int| 0 <= i < longer.len() implies #[trigger] longer[i] is Progress by {
        if i < events.len() {
            assert(longer[i] == events[i]);
        }
    }
    assert forall|i: int, j: int| 0 <= i < j < longer.len() implies match #[trigger] longer[i] {
        ProgressEvent::Progress(earlier) => match #[trigger] longer[j] {
            ProgressEvent::Progress(later) => earlier <= later,
            ProgressEvent::Complete(_) => true,
        },
        ProgressEvent::Complete(_) => false,
    } by {
        assert(longer[i] == events[i]);
        assert(events[i] is Progress);
        if j < events.len() {
            assert(longer[j] == events[j]);
        }
    }
}

/// A completion after reports only keeps the events in order, and is their last.
proof fn lemma_orderly_push_complete(events: Seq<ProgressEvent>, delivered: bool)
    requires
        orderly(events),
        progress_only(events),
    ensures
        orderly(events.push(ProgressEvent::Complete(delivered))),
{
    let longer = events.push(ProgressEvent::Complete(delivered));
    assert forall|i: int, j: int| 0 <= i < j < longer.len() implies match #[trigger] longer[i] {
        ProgressEvent::Progress(earlier) => match #[trigger] longer[j] {
            ProgressEvent::Progress(later) => earlier <= later,
            ProgressEvent::Complete(_) => true,
        },
        ProgressEvent::Complete(_) => false,
    } by {
        assert(longer[i] == events[i]);
        assert(events[i] is Progress);
        if j < events.len() {
            assert(longer[j] == events[j]);
        }
    }
}

/// A step from a state that fits its history leads to a state that fits the
/// history with that turn recorded.
pub proof fn lemma_step_coherent(state: SessionState, history: History, turn: Turn)
    requires
        coherent(state, history),
    ensures
        coherent(transition(state, turn.event, turn.sent).0, record(history, state, turn)),
{
    let (next, action) = transition(state, turn.event, turn.sent);
    let after = record(history, state, turn);
    let n = history.requested.len();
    lemma_requests_push(n);
    if action is Complete {
        lemma_orderly_push_complete(history.observer, action->Complete_0);
    }
    if sends(state, turn.event) && turn.sent == SendOutcome::Sent {
        lemma_orderly_push_progress(history.observer, next.counter);
    }
    assert forall|i: int| 0 <= i < after.observer.len() implies (
    #[trigger] after.observer[i] matches ProgressEvent::Progress(count) ==> count <= next.counter) by {
        if i < history.observer.len() {
            assert(after.observer[i] == history.observer[i]);
        }
    }
    match state.phase {
        Phase::AwaitWrite(target, len) => {
            if turn.event is Done {
                assert(after.written == history.delivered);
            }
        },
        Phase::AwaitChunk(target) => {
            match turn.event {
                EventView::Chunk(bytes) => {
                    assert(after.written + after.in_flight == after.delivered);
                },
                _ => {},
            }
        },
        Phase::AwaitSink | Phase::AwaitConsumer => {
            assert(after.written =~= after.delivered);
        },
        _ => {},
    }
    if next.phase is AwaitStop || next.phase is AwaitRemoval || next.phase is AwaitChunk
        || next.phase is AwaitWrite || next.phase is AwaitResponse || next.phase is AwaitConsumer {
        assert(progress_only(after.observer)) by {
            assert forall|i: int| 0 <= i < after.observer.len() implies #[trigger] after.observer[i] is Progress by {
                if i < history.observer.len() {
                    assert(after.observer[i] == history.observer[i]);
                }
            }
        }
    }
}

/// Every run ends in a state that fits its history.
pub proof fn lemma_run_coherent(url: Seq<char>, observed: bool, turns: Seq<Turn>)
    ensures
        coherent(run(url, observed, turns).0, run(url, observed, turns).1),
    decreases turns.len(),
{
    if turns.len() == 0 {
        assert(blank().requested =~= requests(0));
    } else {
        lemma_run_coherent(url, observed, turns.drop_last());
        let (state, history) = run(url, observed, turns.drop_last());
        lemma_step_coherent(state, history, turns.last());
    }
}

/// A download that succeeds leaves in the sink exactly the bytes that the
/// fetch yielded, in their order: nothing is lost, doubled or moved. So the
/// sink is as long as the lengths of all chunks add up to. This holds of the
/// whole-file transfer and of the segmented one, where the chunks are the
/// bodies of the segments, one after the other.
pub proof fn lemma_success_keeps_every_byte(url: Seq<char>, observed: bool, turns: Seq<Turn>)
    requires
        run(url, observed, turns).0.phase == Phase::Finished(Ok(())),
    ensures
        run(url, observed, turns).1.sink is Open,
        run(url, observed, turns).1.written == run(url, observed, turns).1.delivered,
        run(url, observed, turns).1.written.len() == run(url, observed, turns).1.delivered_len,
{
    lemma_run_coherent(url, observed, turns);
}

/// A download that fails leaves no sink behind: either the sink was never
/// created, and then the failure is that of its creation, or its removal
/// was asked for and nothing was written since.
pub proof fn lemma_failure_leaves_no_sink(
    url: Seq<char>,
    observed: bool,
    turns: Seq<Turn>,
    error: Error,
)
    requires
        run(url, observed, turns).0.phase == Phase::Finished(Err(error)),
    ensures
        !(run(url, observed, turns).1.sink is Open),
        run(url, observed, turns).1.sink is Untouched ==> error == Error::Filesystem,
{
    lemma_run_coherent(url, observed, turns);
}

/// Requests go out in one order only: first the whole resource, then
/// segment 0, segment 1 and so on, each sequence number once and none left
/// out. A segmented download that succeeds has asked for every segment due:
/// as many as the answer to segment 0 announced, and segment 0 in any case.
pub proof fn lemma_requests_in_order(url: Seq<char>, observed: bool, turns: Seq<Turn>)
    ensures
        run(url, observed, turns).1.requested == requests(
            run(url, observed, turns).1.requested.len(),
        ),
        forall|i: int|
            0 <= i < run(url, observed, turns).1.requested.len() ==> #[trigger] run(
                url,
                observed,
                turns,
            ).1.requested[i] == if i == 0 {
                Target::Whole
            } else {
                Target::Segment((i - 1) as u64)
            },
        run(url, observed, turns).0.phase == Phase::Finished(Ok(())) && run(
            url,
            observed,
            turns,
        ).1.requested.len() != 1 ==> run(url, observed, turns).1.requested == requests(
            segments_due(run(url, observed, turns).0.segment_count) + 1,
        ),
{
    lemma_run_coherent(url, observed, turns);
}

/// What the observer's side is handed is in order: byte counts that never
/// fall, and after them at most one completion, which is the last. Where an
/// observer is registered and the sink was created, a finished download has
/// told its outcome; without an observer nothing is handed over at all.
pub proof fn lemma_observer_in_order(url: Seq<char>, observed: bool, turns: Seq<Turn>)
    ensures
        orderly(run(url, observed, turns).1.observer),
        !observed ==> run(url, observed, turns).1.observer.len() == 0,
        forall|outcome: Result<(), Error>|
            observed && run(url, observed, turns).0.phase == Phase::Finished(outcome) && !(run(
                url,
                observed,
                turns,
            ).1.sink is Untouched) ==> told(run(url, observed, turns).1.observer, outcome),
{
    lemma_run_coherent(url, observed, turns);
    lemma_run_keeps_observed(url, observed, turns);
}

/// A run never changes whether an observer is registered, nor the address.
pub proof fn lemma_run_keeps_observed(url: Seq<char>, observed: bool, turns: Seq<Turn>)
    ensures
        run(url, observed, turns).0.observed == observed,
        run(url, observed, turns).0.url == url,
    decreases turns.len(),
{
    if turns.len() > 0 {
        lemma_run_keeps_observed(url, observed, turns.drop_last());
    }
}

/// A byte count, as far as 64 bits hold it.
pub open spec fn capped(count: nat) -> u64 {
    if count > u64::MAX {
        u64::MAX
    } else {
        count as u64
    }
}

/// Every chunk of the run is one that memory can hold.
pub open spec fn chunks_fit(turns: Seq<Turn>) -> bool {
    forall|i: int|
        0 <= i < turns.len() ==> (#[trigger] turns[i].event matches EventView::Chunk(bytes)
            ==> bytes.len() <= usize::MAX)
}

/// What ties the byte count of a session to the history of its run.
pub open spec fn tallied(state: SessionState, history: History) -> bool {
    &&& state.counter == capped(history.counted_len)
    &&& (state.phase matches Phase::AwaitWrite(_, len) ==> history.in_flight.len() == len)
    &&& (state.observed && history.requested.len() <= 1 ==> history.counted_len
        == history.written.len())
    &&& (!state.observed ==> history.counted_len == 0)
}

/// A step keeps the byte count in line with the history.
proof fn lemma_step_tallied(state: SessionState, history: History, turn: Turn)
    requires
        coherent(state, history),
        tallied(state, history),
        turn.event matches EventView::Chunk(bytes) ==> bytes.len() <= usize::MAX,
    ensures
        tallied(transition(state, turn.event, turn.sent).0, record(history, state, turn)),
{
}

/// Every run of chunks that fit keeps the byte count in line with its history.
proof fn lemma_run_tallied(url: Seq<char>, observed: bool, turns: Seq<Turn>)
    requires
        chunks_fit(turns),
    ensures
        tallied(run(url, observed, turns).0, run(url, observed, turns).1),
    decreases turns.len(),
{
    if turns.len() > 0 {
        let earlier = turns.drop_last();
        assert forall|i: int| 0 <= i < earlier.len() implies (
        #[trigger] earlier[i].event matches EventView::Chunk(bytes) ==> bytes.len() <= usize::MAX) by {
            assert(earlier[i] == turns[i]);
        }
        lemma_run_tallied(url, observed, earlier);
        lemma_run_coherent(url, observed, earlier);
        let (state, history) = run(url, observed, earlier);
        assert(turns.last() == turns[turns.len() - 1]);
        lemma_step_tallied(state, history, turns.last());
    }
}

/// The byte count of a session is the sum of the lengths of the writes
/// that were carried out and counted, as far as 64 bits hold it. With an
/// observer and without a fallback every write is counted: after a
/// whole-file download the count is the length of the sink.
pub proof fn lemma_counter_counts_written_bytes(url: Seq<char>, observed: bool, turns: Seq<Turn>)
    requires
        chunks_fit(turns),
    ensures
        run(url, observed, turns).0.counter == capped(run(url, observed, turns).1.counted_len),
        observed && run(url, observed, turns).1.requested.len() <= 1 ==> run(
            url,
            observed,
            turns,
        ).0.counter == capped(run(url, observed, turns).1.written.len()),
        !observed ==> run(url, observed, turns).0.counter == 0,
{
    lemma_run_tallied(url, observed, turns);
    lemma_run_keeps_observed(url, observed, turns);
}

} // verus!
