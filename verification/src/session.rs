//! One download, as a conversation between the library and its driver.
//!
//! The session decides; the driver acts. The session names the next thing to
//! do as an [`Action`]: create the sink, send a request, await a chunk, write
//! it, and so on. The driver carries it out and tells what came of it in an
//! [`Event`], and the session answers with the next action.
//!
//! An event that does not answer the action asked for counts as that
//! action's failure. A sink that is not created or not written is a
//! `Filesystem` error, a request or a chunk that does not arrive a
//! `Transport` error, a consumer that does not start a `ChannelClosed`
//! error. What comes of removing the sink, of stopping the consumer and of
//! telling the observer changes nothing.
//!
//! The policy: fetch the whole resource with one request. If the server
//! answers 404, fetch it in numbered segments instead; the answer to segment
//! 0 tells how many there are. Any failure after the sink was created has
//! the sink removed before the failure is reported. With an observer, the
//! cumulative byte count is reported after each write, but for segment 0,
//! and the consumer is stopped and told of the end once the transfer is over.

use vstd::prelude::*;
use bytes::Bytes;
use crate::chunk::{chunk_bytes, chunk_len};
use crate::error::Error;
use crate::fetch::{check_status, status_verdict};
use crate::header::{extract_segment_count, segment_count_of};
use crate::progress::{settle, settled, Callback, SendOutcome};
use crate::segment::{
    base_query, base_query_text, segment_url_text, set_url_seq_query, text_view,
};

verus! {

/// What a request asks for.
#[derive(Clone, Copy, Debug, PartialEq, Eq, Structural)]
pub enum Target {
    /// The whole resource, at the stream's own address.
    Whole,
    /// The segment with this sequence number.
    Segment(u64),
}

/// Where a session stands: which action it waits to hear of.
#[derive(Clone, Copy, Debug, PartialEq, Eq)]
pub enum Phase {
    /// `CreateSink` is under way.
    AwaitSink,
    /// `StartConsumer` is under way.
    AwaitConsumer,
    /// `Get` for this target is under way.
    AwaitResponse(Target),
    /// `NextChunk` of this target's body is under way.
    AwaitChunk(Target),
    /// `Write` of a chunk of this length, from this target's body, is under way.
    AwaitWrite(Target, usize),
    /// `RemoveSink` is under way, after this failure.
    AwaitRemoval(Error),
    /// `StopConsumer` is under way, with this outcome settled.
    AwaitStop(Result<(), Error>),
    /// `Complete` is under way, with this outcome settled.
    AwaitComplete(Result<(), Error>),
    /// `Finish` was given with this outcome; nothing is left to do.
    Finished(Result<(), Error>),
}

/// What the driver reports back.
#[derive(Debug, PartialEq, Eq)]
pub enum Event {
    /// The action was carried out and has nothing to tell.
    Done,
    /// The action could not be carried out.
    Failed,
    /// A request was answered: the status, and the raw value of the
    /// `Segment-Count` header if the answer has one.
    Response { status: u16, segment_count: Option<Vec<u8>> },
    /// The body under way yielded its next chunk.
    Chunk(Bytes),
    /// The body under way has ended.
    BodyEnd,
}

/// What the driver is to do next.
#[derive(Debug, PartialEq, Eq)]
pub enum Action {
    /// Create the output sink, empty.
    CreateSink,
    /// Start the progress consumer.
    StartConsumer,
    /// Send a `GET` request to this address.
    Get { url: String, target: Target },
    /// Await the next chunk of the body under way.
    NextChunk,
    /// Append this chunk to the sink.
    Write(Bytes),
    /// Close the sink and remove it; a failure to do so is only logged.
    RemoveSink,
    /// Stop the progress consumer, whatever it has not yet delivered.
    StopConsumer,
    /// Tell the observer that the download is over: `true` with the output
    /// path, `false` with nothing.
    Complete(bool),
    /// Return this outcome to the caller.
    Finish(Result<(), Error>),
    /// Nothing: the session had finished before.
    Halt,
}

/// An event, seen as plain values.
pub enum EventView {
    Done,
    Failed,
    Response { status: u16, segment_count: Option<Seq<u8>> },
    Chunk(Seq<u8>),
    BodyEnd,
}

/// An action, seen as plain values.
pub enum ActionView {
    CreateSink,
    StartConsumer,
    Get { url: Seq<char>, target: Target },
    NextChunk,
    Write(Seq<u8>),
    RemoveSink,
    StopConsumer,
    Complete(bool),
    Finish(Result<(), Error>),
    Halt,
}

/// The view of header bytes that may be absent.
pub open spec fn bytes_view(value: Option<Vec<u8>>) -> Option<Seq<u8>> {
    match value {
        Some(held) => Some(held@),
        None => None,
    }
}

impl View for Event {
    type V = EventView;

    open spec fn view(&self) -> EventView {
        match *self {
            Event::Done => EventView::Done,
            Event::Failed => EventView::Failed,
            Event::Response { status, segment_count } => EventView::Response {
                status,
                segment_count: bytes_view(segment_count),
            },
            Event::Chunk(chunk) => EventView::Chunk(chunk_bytes(chunk)),
            Event::BodyEnd => EventView::BodyEnd,
        }
    }
}

impl View for Action {
    type V = ActionView;

    open spec fn view(&self) -> ActionView {
        match *self {
            Action::CreateSink => ActionView::CreateSink,
            Action::StartConsumer => ActionView::StartConsumer,
            Action::Get { url, target } => ActionView::Get { url: url@, target },
            Action::NextChunk => ActionView::NextChunk,
            Action::Write(chunk) => ActionView::Write(chunk_bytes(chunk)),
            Action::RemoveSink => ActionView::RemoveSink,
            Action::StopConsumer => ActionView::StopConsumer,
            Action::Complete(delivered) => ActionView::Complete(delivered),
            Action::Finish(outcome) => ActionView::Finish(outcome),
            Action::Halt => ActionView::Halt,
        }
    }
}

/// A session, seen as plain values.
pub struct SessionState {
    /// The stream's address.
    pub url: Seq<char>,
    /// The query that segment addresses start from; set when the fallback begins.
    pub base_query: Seq<char>,
    /// Whether an observer is registered.
    pub observed: bool,
    /// Where the session stands.
    pub phase: Phase,
    /// The cumulative byte count, as last reported.
    pub counter: u64,
    /// The number of segments, as the answer to segment 0 gave it.
    pub segment_count: u64,
}

/// The state of one download.
pub struct DownloadSession {
    url: String,
    base_query: String,
    callback: Option<Callback>,
    phase: Phase,
    counter: u64,
    segment_count: u64,
}

/// The byte count after `len` more bytes. It stops at `u64::MAX`.
pub open spec fn grown(counter: u64, len: usize) -> u64 {
    if counter + len > u64::MAX {
        u64::MAX
    } else {
        (counter + len) as u64
    }
}

/// Whether writes from this target's body are reported: all are, with an
/// observer, but those of segment 0, which only serves to learn the segment count.
pub open spec fn reported(state: SessionState, target: Target) -> bool {
    state.observed && target != Target::Segment(0)
}

/// Whether the step from this state on this event hands a report to the channel.
pub open spec fn sends(state: SessionState, event: EventView) -> bool {
    match state.phase {
        Phase::AwaitWrite(target, _) => event is Done && reported(state, target),
        _ => false,
    }
}

/// The byte count that the step from this state on this event hands to the
/// channel: the count so far and the length of the write that was carried out.
pub open spec fn report_of(state: SessionState, event: EventView) -> Option<u64> {
    match state.phase {
        Phase::AwaitWrite(target, len) => if event is Done && reported(state, target) {
            Some(grown(state.counter, len))
        } else {
            None
        },
        _ => None,
    }
}

/// The start of a download of the stream at `url`.
pub open spec fn initial(url: Seq<char>, observed: bool) -> SessionState {
    SessionState {
        url,
        base_query: Seq::empty(),
        observed,
        phase: Phase::AwaitSink,
        counter: 0,
        segment_count: 0,
    }
}

/// A failure after the sink was created: the sink is removed first.
pub open spec fn fail(state: SessionState, error: Error) -> (SessionState, ActionView) {
    (SessionState { phase: Phase::AwaitRemoval(error), ..state }, ActionView::RemoveSink)
}

/// The end of the transfer and of all cleanup: with an observer the consumer
/// is stopped and told, then the outcome is returned.
pub open spec fn wind_up(state: SessionState, outcome: Result<(), Error>) -> (
    SessionState,
    ActionView,
) {
    if state.observed {
        (SessionState { phase: Phase::AwaitStop(outcome), ..state }, ActionView::StopConsumer)
    } else {
        (SessionState { phase: Phase::Finished(outcome), ..state }, ActionView::Finish(outcome))
    }
}

/// The request for segment `sq`, given its address if one could be built.
/// An address that cannot be built counts as a request that could not be sent.
pub open spec fn segment_request_of(sq: u64, address: Option<Seq<char>>) -> Result<
    ActionView,
    Error,
> {
    match address {
        Some(url) => Ok(ActionView::Get { url, target: Target::Segment(sq) }),
        None => Err(Error::Transport),
    }
}

/// The step that asks for segment `sq`.
pub open spec fn request_segment(state: SessionState, sq: u64) -> (SessionState, ActionView) {
    match segment_request_of(sq, segment_url_text(state.url, state.base_query, sq)) {
        Ok(action) => (
            SessionState { phase: Phase::AwaitResponse(Target::Segment(sq)), ..state },
            action,
        ),
        Err(error) => fail(state, error),
    }
}

/// The step on the answer to a request.
pub open spec fn on_response(
    state: SessionState,
    target: Target,
    status: u16,
    segment_count: Option<Seq<u8>>,
) -> (SessionState, ActionView) {
    match status_verdict(status) {
        Err(error) => if target == Target::Whole && error.spec_is_not_found() {
            request_segment(SessionState { base_query: base_query_text(state.url), ..state }, 0)
        } else {
            fail(state, error)
        },
        Ok(_) => if target == Target::Segment(0) {
            match segment_count_of(segment_count) {
                Ok(count) => (
                    SessionState {
                        segment_count: count,
                        phase: Phase::AwaitChunk(target),
                        ..state
                    },
                    ActionView::NextChunk,
                ),
                Err(error) => fail(state, error),
            }
        } else {
            (SessionState { phase: Phase::AwaitChunk(target), ..state }, ActionView::NextChunk)
        },
    }
}

/// The step on the end of a body: the whole resource, or the last segment,
/// ends the transfer; any other segment is followed by the next.
pub open spec fn on_body_end(state: SessionState, target: Target) -> (SessionState, ActionView) {
    match target {
        Target::Whole => wind_up(state, Ok(())),
        Target::Segment(sq) => if sq + 1 < state.segment_count {
            request_segment(state, (sq + 1) as u64)
        } else {
            wind_up(state, Ok(()))
        },
    }
}

/// The step on a write that was carried out. `sent` is what became of the
/// report, where one is handed to the channel.
pub open spec fn on_written(state: SessionState, target: Target, len: usize, sent: SendOutcome) -> (
    SessionState,
    ActionView,
) {
    if reported(state, target) {
        let counted = SessionState { counter: grown(state.counter, len), ..state };
        match settled(sent) {
            Err(error) => fail(counted, error),
            Ok(_) => (
                SessionState { phase: Phase::AwaitChunk(target), ..counted },
                ActionView::NextChunk,
            ),
        }
    } else {
        (SessionState { phase: Phase::AwaitChunk(target), ..state }, ActionView::NextChunk)
    }
}

/// One step of a session: the state and the action that follow from a state
/// and an event. `sent` is what became of the progress report; it matters
/// only where `sends(state, event)` holds.
pub open spec fn transition(state: SessionState, event: EventView, sent: SendOutcome) -> (
    SessionState,
    ActionView,
) {
    match state.phase {
        Phase::AwaitSink => match event {
            EventView::Done => if state.observed {
                (SessionState { phase: Phase::AwaitConsumer, ..state }, ActionView::StartConsumer)
            } else {
                (
                    SessionState { phase: Phase::AwaitResponse(Target::Whole), ..state },
                    ActionView::Get { url: state.url, target: Target::Whole },
                )
            },
            _ => (
                SessionState { phase: Phase::Finished(Err(Error::Filesystem)), ..state },
                ActionView::Finish(Err(Error::Filesystem)),
            ),
        },
        Phase::AwaitConsumer => match event {
            EventView::Done => (
                SessionState { phase: Phase::AwaitResponse(Target::Whole), ..state },
                ActionView::Get { url: state.url, target: Target::Whole },
            ),
            _ => fail(state, Error::ChannelClosed),
        },
        Phase::AwaitResponse(target) => match event {
            EventView::Response { status, segment_count } => on_response(
                state,
                target,
                status,
                segment_count,
            ),
            _ => fail(state, Error::Transport),
        },
        Phase::AwaitChunk(target) => match event {
            EventView::Chunk(bytes) => (
                SessionState { phase: Phase::AwaitWrite(target, bytes.len() as usize), ..state },
                ActionView::Write(bytes),
            ),
            EventView::BodyEnd => on_body_end(state, target),
            _ => fail(state, Error::Transport),
        },
        Phase::AwaitWrite(target, len) => match event {
            EventView::Done => on_written(state, target, len, sent),
            _ => fail(state, Error::Filesystem),
        },
        Phase::AwaitRemoval(error) => wind_up(state, Err(error)),
        Phase::AwaitStop(outcome) => (
            SessionState { phase: Phase::AwaitComplete(outcome), ..state },
            ActionView::Complete(outcome is Ok),
        ),
        Phase::AwaitComplete(outcome) => (
            SessionState { phase: Phase::Finished(outcome), ..state },
            ActionView::Finish(outcome),
        ),
        Phase::Finished(_) => (state, ActionView::Halt),
    }
}

/// Makes the request for segment `sq` out of its address, if one could be built.
pub fn segment_request(sq: u64, address: Option<String>) -> (request: Result<Action, Error>)
    ensures
        match request {
            Ok(action) => segment_request_of(sq, text_view(address)) == Ok::<ActionView, Error>(
                action@,
            ),
            Err(error) => segment_request_of(sq, text_view(address)) == Err::<ActionView, Error>(
                error,
            ),
        },
{
    match address {
        Some(url) => Ok(Action::Get { url, target: Target::Segment(sq) }),
        None => Err(Error::Transport),
    }
}

impl View for DownloadSession {
    type V = SessionState;

    closed spec fn view(&self) -> SessionState {
        SessionState {
            url: self.url@,
            base_query: self.base_query@,
            observed: self.callback is Some,
            phase: self.phase,
            counter: self.counter,
            segment_count: self.segment_count,
        }
    }
}

impl DownloadSession {
    /// Begins the download of the stream at `url`, with an observer if
    /// `callback` holds one. The first action is to create the sink.
    pub fn new(url: String, callback: Option<Callback>) -> (begun: (DownloadSession, Action))
        ensures
            begun.0@ == initial(url@, callback is Some),
            begun.1@ == ActionView::CreateSink,
    {
        let session = DownloadSession {
            url,
            base_query: String::new(),
            callback,
            phase: Phase::AwaitSink,
            counter: 0,
            segment_count: 0,
        };
        (session, Action::CreateSink)
    }

    /// Where the session stands.
    pub fn phase(&self) -> (phase: Phase)
        ensures
            phase == self@.phase,
    {
        self.phase
    }

    /// The cumulative byte count, as last reported.
    pub fn counter(&self) -> (counter: u64)
        ensures
            counter == self@.counter,
    {
        self.counter
    }

    /// The outcome of the download, once the session has finished.
    pub fn outcome(&self) -> (outcome: Option<Result<(), Error>>)
        ensures
            outcome == match self@.phase {
                Phase::Finished(settled) => Some(settled),
                _ => None,
            },
    {
        match self.phase {
            Phase::Finished(settled) => Some(settled),
            _ => None,
        }
    }

    fn fail(&mut self, error: Error) -> (action: Action)
        ensures
            (final(self)@, action@) == fail(old(self)@, error),
    {
        self.phase = Phase::AwaitRemoval(error);
        Action::RemoveSink
    }

    fn wind_up(&mut self, outcome: Result<(), Error>) -> (action: Action)
        ensures
            (final(self)@, action@) == wind_up(old(self)@, outcome),
    {
        if self.callback.is_some() {
            self.phase = Phase::AwaitStop(outcome);
            Action::StopConsumer
        } else {
            self.phase = Phase::Finished(outcome);
            Action::Finish(outcome)
        }
    }

    fn request_segment(&mut self, sq: u64) -> (action: Action)
        ensures
            (final(self)@, action@) == request_segment(old(self)@, sq),
    {
        let address = set_url_seq_query(self.url.as_str(), self.base_query.as_str(), sq);
        match segment_request(sq, address) {
            Ok(action) => {
                self.phase = Phase::AwaitResponse(Target::Segment(sq));
                action
            },
            Err(error) => self.fail(error),
        }
    }

    fn on_response(&mut self, target: Target, status: u16, segment_count: Option<Vec<u8>>) -> (action:
        Action)
        ensures
            (final(self)@, action@) == on_response(
                old(self)@,
                target,
                status,
                bytes_view(segment_count),
            ),
    {
        let first_segment = match target {
            Target::Segment(sq) => sq == 0,
            Target::Whole => false,
        };
        let whole = match target {
            Target::Whole => true,
            Target::Segment(_) => false,
        };
        match check_status(status) {
            Err(error) => {
                if whole && error.is_not_found() {
                    self.base_query = base_query(self.url.as_str());
                    self.request_segment(0)
                } else {
                    self.fail(error)
                }
            },
            Ok(_) => {
                if first_segment {
                    let header: Option<&[u8]> = match &segment_count {
                        Some(value) => Some(value.as_slice()),
                        None => None,
                    };
                    match extract_segment_count(header) {
                        Ok(count) => {
                            self.segment_count = count;
                            self.phase = Phase::AwaitChunk(target);
                            Action::NextChunk
                        },
                        Err(error) => self.fail(error),
                    }
                } else {
                    self.phase = Phase::AwaitChunk(target);
                    Action::NextChunk
                }
            },
        }
    }

    fn on_body_end(&mut self, target: Target) -> (action: Action)
        ensures
            (final(self)@, action@) == on_body_end(old(self)@, target),
    {
        match target {
            Target::Whole => self.wind_up(Ok(())),
            Target::Segment(sq) => {
                if sq < u64::MAX && sq + 1 < self.segment_count {
                    self.request_segment(sq + 1)
                } else {
                    self.wind_up(Ok(()))
                }
            },
        }
    }

    fn reports(&self, target: Target) -> (reports: bool)
        ensures
            reports == reported(self@, target),
    {
        let first_segment = match target {
            Target::Segment(sq) => sq == 0,
            Target::Whole => false,
        };
        self.callback.is_some() && !first_segment
    }

    fn on_written(&mut self, target: Target, len: usize, sent: SendOutcome) -> (action: Action)
        ensures
            (final(self)@, action@) == on_written(old(self)@, target, len, sent),
    {
        if self.reports(target) {
            self.counter = self.counter.saturating_add(len as u64);
            match settle(sent) {
                Err(error) => self.fail(error),
                Ok(_) => {
                    self.phase = Phase::AwaitChunk(target);
                    Action::NextChunk
                },
            }
        } else {
            self.phase = Phase::AwaitChunk(target);
            Action::NextChunk
        }
    }

    /// Takes one step, given what became of the progress report that the
    /// step hands to the channel, if it hands one.
    pub fn step_with(&mut self, event: Event, sent: SendOutcome) -> (action: Action)
        ensures
            (final(self)@, action@) == transition(old(self)@, event@, sent),
    {
        match self.phase {
            Phase::AwaitSink => match event {
                Event::Done => {
                    if self.callback.is_some() {
                        self.phase = Phase::AwaitConsumer;
                        Action::StartConsumer
                    } else {
                        self.phase = Phase::AwaitResponse(Target::Whole);
                        Action::Get { url: self.url.clone(), target: Target::Whole }
                    }
                },
                _ => {
                    self.phase = Phase::Finished(Err(Error::Filesystem));
                    Action::Finish(Err(Error::Filesystem))
                },
            },
            Phase::AwaitConsumer => match event {
                Event::Done => {
                    self.phase = Phase::AwaitResponse(Target::Whole);
                    Action::Get { url: self.url.clone(), target: Target::Whole }
                },
                _ => self.fail(Error::ChannelClosed),
            },
            Phase::AwaitResponse(target) => match event {
                Event::Response { status, segment_count } => self.on_response(
                    target,
                    status,
                    segment_count,
                ),
                _ => self.fail(Error::Transport),
            },
            Phase::AwaitChunk(target) => match event {
                Event::Chunk(chunk) => {
                    self.phase = Phase::AwaitWrite(target, chunk_len(&chunk));
                    Action::Write(chunk)
                },
                Event::BodyEnd => self.on_body_end(target),
                _ => self.fail(Error::Transport),
            },
            Phase::AwaitWrite(target, len) => match event {
                Event::Done => self.on_written(target, len, sent),
                _ => self.fail(Error::Filesystem),
            },
            Phase::AwaitRemoval(error) => self.wind_up(Err(error)),
            Phase::AwaitStop(outcome) => {
                self.phase = Phase::AwaitComplete(outcome);
                Action::Complete(outcome.is_ok())
            },
            Phase::AwaitComplete(outcome) => {
                self.phase = Phase::Finished(outcome);
                Action::Finish(outcome)
            },
            Phase::Finished(_) => Action::Halt,
        }
    }

    /// The byte count that the step on this event hands to the channel, if
    /// the step hands one over.
    pub fn next_report(&self, event: &Event) -> (report: Option<u64>)
        ensures
            report == report_of(self@, event@),
    {
        match (&self.phase, event) {
            (Phase::AwaitWrite(target, len), Event::Done) => {
                if self.reports(*target) {
                    Some(self.counter.saturating_add(*len as u64))
                } else {
                    None
                }
            },
            _ => None,
        }
    }

    /// Takes one step. Where the step reports progress, the byte count of
    /// `next_report` is handed to the observer's channel without waiting;
    /// what becomes of it is the channel's to decide, and the step is the
    /// one that `step_with` takes on that outcome.
    pub fn step(&mut self, event: Event) -> (action: Action)
        ensures
            exists|sent: SendOutcome| #[trigger]
                transition(old(self)@, event@, sent) == (final(self)@, action@),
            !sends(old(self)@, event@) ==> transition(old(self)@, event@, SendOutcome::Sent) == (
                final(self)@,
                action@,
            ),
    {
        let sent = match (self.next_report(&event), &self.callback) {
            (Some(bytes), Some(callback)) => callback.report(bytes),
            _ => SendOutcome::Sent,
        };
        self.step_with(event, sent)
    }
}

} // verus!
