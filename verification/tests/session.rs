use bytes::Bytes;
use rustube::error::{Defect, Error};
use rustube::progress::{settle, Callback, SendOutcome};
use rustube::session::{segment_request, Action, DownloadSession, Event, Phase, Target};

const URL: &str = "https://example.com/video?itag=22";

/// One canned answer of the server: a status, a `Segment-Count` header and a
/// body in chunks, which may break off.
struct Answer {
    url: String,
    status: u16,
    segment_count: Option<Vec<u8>>,
    chunks: Vec<Vec<u8>>,
    breaks_off: bool,
}

fn answer(url: &str, status: u16, segment_count: Option<&str>, chunks: &[&[u8]]) -> Answer {
    Answer {
        url: String::from(url),
        status,
        segment_count: segment_count.map(|text| text.as_bytes().to_vec()),
        chunks: chunks.iter().map(|chunk| chunk.to_vec()).collect(),
        breaks_off: false,
    }
}

/// What a run left behind.
struct Ran {
    result: Result<(), Error>,
    sink: Option<Vec<u8>>,
    requests: Vec<String>,
    targets: Vec<Target>,
    actions: Vec<String>,
    completions: Vec<bool>,
}

/// Carries out every action of a session against canned answers and a sink
/// in memory, until the session finishes.
fn drive(server: &[Answer], callback: Option<Callback>, sink_can_be_made: bool) -> Ran {
    let (mut session, mut action) = DownloadSession::new(String::from(URL), callback);
    let mut ran = Ran {
        result: Ok(()),
        sink: None,
        requests: Vec::new(),
        targets: Vec::new(),
        actions: Vec::new(),
        completions: Vec::new(),
    };
    let mut body: Vec<Vec<u8>> = Vec::new();
    let mut breaks_off = false;
    for _ in 0..10_000 {
        let event = match action {
            Action::CreateSink => {
                ran.actions.push(String::from("create"));
                if sink_can_be_made {
                    ran.sink = Some(Vec::new());
                    Event::Done
                } else {
                    Event::Failed
                }
            }
            Action::StartConsumer => {
                ran.actions.push(String::from("start"));
                Event::Done
            }
            Action::Get { url, target } => {
                ran.actions.push(String::from("get"));
                ran.requests.push(url.clone());
                ran.targets.push(target);
                match server.iter().find(|answer| answer.url == url) {
                    Some(found) => {
                        body = found.chunks.iter().rev().cloned().collect();
                        breaks_off = found.breaks_off;
                        Event::Response {
                            status: found.status,
                            segment_count: found.segment_count.clone(),
                        }
                    }
                    None => Event::Failed,
                }
            }
            Action::NextChunk => match body.pop() {
                Some(chunk) => Event::Chunk(Bytes::from(chunk)),
                None => {
                    if breaks_off {
                        Event::Failed
                    } else {
                        Event::BodyEnd
                    }
                }
            },
            Action::Write(chunk) => {
                ran.actions.push(String::from("write"));
                ran.sink.as_mut().unwrap().extend_from_slice(&chunk);
                Event::Done
            }
            Action::RemoveSink => {
                ran.actions.push(String::from("remove"));
                ran.sink = None;
                Event::Done
            }
            Action::StopConsumer => {
                ran.actions.push(String::from("stop"));
                Event::Done
            }
            Action::Complete(delivered) => {
                ran.actions.push(String::from("complete"));
                ran.completions.push(delivered);
                Event::Done
            }
            Action::Finish(result) => {
                ran.actions.push(String::from("finish"));
                ran.result = result;
                assert_eq!(session.outcome(), Some(result));
                assert_eq!(session.step(Event::Done), Action::Halt);
                return ran;
            }
            Action::Halt => panic!("a session halts only after it has finished"),
        };
        action = session.step(event);
    }
    panic!("the session did not finish");
}

#[test]
fn whole_file_download_writes_every_chunk_in_order() {
    let server = vec![answer(URL, 200, None, &[b"abc", b"", b"defg", b"h"])];
    let ran = drive(&server, None, true);
    assert_eq!(ran.result, Ok(()));
    assert_eq!(ran.sink, Some(b"abcdefgh".to_vec()));
    assert_eq!(ran.sink.unwrap().len(), 3 + 0 + 4 + 1);
    assert_eq!(ran.requests, vec![String::from(URL)]);
    assert_eq!(ran.targets, vec![Target::Whole]);
    assert!(ran.completions.is_empty());
}

#[test]
fn whole_file_download_of_an_empty_body() {
    let server = vec![answer(URL, 204, None, &[])];
    let ran = drive(&server, None, true);
    assert_eq!(ran.result, Ok(()));
    assert_eq!(ran.sink, Some(Vec::new()));
    assert_eq!(ran.actions, vec!["create", "get", "finish"]);
}

#[test]
fn not_found_falls_back_to_segments() {
    let server = vec![
        answer(URL, 404, None, &[]),
        answer("https://example.com/video?itag=22&sq=0", 200, Some("3"), &[b"first-", b"body "]),
        answer("https://example.com/video?itag=22&sq=1", 200, None, &[b"second "]),
        answer("https://example.com/video?itag=22&sq=2", 200, None, &[b"thi", b"rd"]),
    ];
    let ran = drive(&server, None, true);
    assert_eq!(ran.result, Ok(()));
    assert_eq!(ran.sink, Some(b"first-body second third".to_vec()));
    assert_eq!(
        ran.requests,
        vec![
            String::from(URL),
            String::from("https://example.com/video?itag=22&sq=0"),
            String::from("https://example.com/video?itag=22&sq=1"),
            String::from("https://example.com/video?itag=22&sq=2"),
        ]
    );
    assert_eq!(
        ran.targets,
        vec![Target::Whole, Target::Segment(0), Target::Segment(1), Target::Segment(2)]
    );
}

#[test]
fn server_error_is_no_reason_to_fall_back() {
    let server = vec![
        answer(URL, 500, None, &[b"oops"]),
        answer("https://example.com/video?itag=22&sq=0", 200, Some("1"), &[b"segment"]),
    ];
    let ran = drive(&server, None, true);
    assert_eq!(ran.result, Err(Error::Request(500)));
    assert_eq!(ran.sink, None);
    assert_eq!(ran.requests, vec![String::from(URL)]);
    assert_eq!(ran.actions, vec!["create", "get", "remove", "finish"]);
}

#[test]
fn redirect_status_is_a_failure() {
    let server = vec![answer(URL, 304, None, &[])];
    let ran = drive(&server, None, true);
    assert_eq!(ran.result, Err(Error::Request(304)));
    assert_eq!(ran.sink, None);
}

#[test]
fn sink_that_cannot_be_created_ends_the_download_at_once() {
    let server = vec![answer(URL, 200, None, &[b"abc"])];
    let (sender, mut receiver) = tokio::sync::mpsc::channel::<u64>(8);
    let ran = drive(&server, Some(Callback::new(sender)), false);
    assert_eq!(ran.result, Err(Error::Filesystem));
    assert_eq!(ran.actions, vec!["create", "finish"]);
    assert!(ran.requests.is_empty());
    assert!(ran.completions.is_empty());
    assert!(receiver.try_recv().is_err());
}

#[test]
fn request_that_gets_no_answer_is_a_transport_failure() {
    let ran = drive(&[], None, true);
    assert_eq!(ran.result, Err(Error::Transport));
    assert_eq!(ran.sink, None);
    assert_eq!(ran.actions, vec!["create", "get", "remove", "finish"]);
}

#[test]
fn body_that_breaks_off_removes_the_partial_sink() {
    let mut broken = answer(URL, 200, None, &[b"abc", b"def"]);
    broken.breaks_off = true;
    let ran = drive(&[broken], None, true);
    assert_eq!(ran.result, Err(Error::Transport));
    assert_eq!(ran.sink, None);
    assert_eq!(ran.actions, vec!["create", "get", "write", "write", "remove", "finish"]);
}

#[test]
fn segment_count_zero_still_fetches_segment_zero() {
    let server = vec![
        answer(URL, 404, None, &[]),
        answer("https://example.com/video?itag=22&sq=0", 200, Some("0"), &[b"only"]),
    ];
    let ran = drive(&server, None, true);
    assert_eq!(ran.result, Ok(()));
    assert_eq!(ran.sink, Some(b"only".to_vec()));
    assert_eq!(ran.targets, vec![Target::Whole, Target::Segment(0)]);
}

#[test]
fn segment_count_one_fetches_segment_zero_only() {
    let server = vec![
        answer(URL, 404, None, &[]),
        answer("https://example.com/video?itag=22&sq=0", 200, Some("1"), &[b"only"]),
        answer("https://example.com/video?itag=22&sq=1", 200, None, &[b"never"]),
    ];
    let ran = drive(&server, None, true);
    assert_eq!(ran.result, Ok(()));
    assert_eq!(ran.sink, Some(b"only".to_vec()));
    assert_eq!(ran.targets, vec![Target::Whole, Target::Segment(0)]);
}

#[test]
fn fallback_without_segment_count_fails() {
    let server = vec![
        answer(URL, 404, None, &[]),
        answer("https://example.com/video?itag=22&sq=0", 200, None, &[b"body"]),
    ];
    let ran = drive(&server, None, true);
    assert_eq!(ran.result, Err(Error::UnexpectedResponse(Defect::MissingSegmentCount)));
    assert_eq!(ran.sink, None);
}

#[test]
fn fallback_with_unreadable_segment_count_fails() {
    let mut garbled = answer("https://example.com/video?itag=22&sq=0", 200, None, &[b"body"]);
    garbled.segment_count = Some(vec![b'3', 0xff]);
    let ran = drive(&[answer(URL, 404, None, &[]), garbled], None, true);
    assert_eq!(ran.result, Err(Error::UnexpectedResponse(Defect::SegmentCountNotText)));
    let server = vec![
        answer(URL, 404, None, &[]),
        answer("https://example.com/video?itag=22&sq=0", 200, Some("many"), &[b"body"]),
    ];
    let ran = drive(&server, None, true);
    assert_eq!(ran.result, Err(Error::UnexpectedResponse(Defect::SegmentCountNotInteger)));
    assert_eq!(ran.sink, None);
}

#[test]
fn fallback_has_no_further_fallback() {
    let server = vec![
        answer(URL, 404, None, &[]),
        answer("https://example.com/video?itag=22&sq=0", 200, Some("3"), &[b"first"]),
        answer("https://example.com/video?itag=22&sq=1", 404, None, &[]),
        answer("https://example.com/video?itag=22&sq=2", 200, None, &[b"third"]),
    ];
    let ran = drive(&server, None, true);
    assert_eq!(ran.result, Err(Error::Request(404)));
    assert_eq!(ran.sink, None);
    assert_eq!(ran.targets, vec![Target::Whole, Target::Segment(0), Target::Segment(1)]);
}

#[test]
fn fallback_that_is_refused_at_segment_zero_fails() {
    let server = vec![
        answer(URL, 404, None, &[]),
        answer("https://example.com/video?itag=22&sq=0", 403, Some("3"), &[]),
    ];
    let ran = drive(&server, None, true);
    assert_eq!(ran.result, Err(Error::Request(403)));
    assert_eq!(ran.sink, None);
}

#[test]
fn progress_counts_are_cumulative_and_completion_comes_last() {
    let server = vec![answer(URL, 200, None, &[b"abc", b"defg", b"", b"hi"])];
    let (sender, mut receiver) = tokio::sync::mpsc::channel::<u64>(16);
    let ran = drive(&server, Some(Callback::new(sender)), true);
    assert_eq!(ran.result, Ok(()));
    assert_eq!(ran.sink, Some(b"abcdefghi".to_vec()));
    let mut seen = Vec::new();
    while let Ok(count) = receiver.try_recv() {
        seen.push(count);
    }
    assert_eq!(seen, vec![3, 7, 7, 9]);
    assert_eq!(ran.completions, vec![true]);
    assert_eq!(
        ran.actions,
        vec![
            "create", "start", "get", "write", "write", "write", "write", "stop", "complete",
            "finish"
        ]
    );
}

#[test]
fn full_channel_drops_reports_and_never_stops_the_transfer() {
    let server = vec![answer(URL, 200, None, &[b"a", b"b", b"c", b"d", b"e"])];
    let (sender, mut receiver) = tokio::sync::mpsc::channel::<u64>(2);
    let ran = drive(&server, Some(Callback::new(sender)), true);
    assert_eq!(ran.result, Ok(()));
    assert_eq!(ran.sink, Some(b"abcde".to_vec()));
    assert_eq!(receiver.try_recv(), Ok(1));
    assert_eq!(receiver.try_recv(), Ok(2));
    assert!(receiver.try_recv().is_err());
    assert_eq!(ran.completions, vec![true]);
}

#[test]
fn closed_channel_aborts_the_transfer() {
    let server = vec![answer(URL, 200, None, &[b"abc", b"def"])];
    let (sender, receiver) = tokio::sync::mpsc::channel::<u64>(4);
    drop(receiver);
    let ran = drive(&server, Some(Callback::new(sender)), true);
    assert_eq!(ran.result, Err(Error::ChannelClosed));
    assert_eq!(ran.sink, None);
    assert_eq!(ran.completions, vec![false]);
    assert_eq!(
        ran.actions,
        vec!["create", "start", "get", "write", "remove", "stop", "complete", "finish"]
    );
}

#[test]
fn failure_with_an_observer_completes_with_nothing() {
    let server = vec![answer(URL, 503, None, &[])];
    let (sender, mut receiver) = tokio::sync::mpsc::channel::<u64>(4);
    let ran = drive(&server, Some(Callback::new(sender)), true);
    assert_eq!(ran.result, Err(Error::Request(503)));
    assert_eq!(ran.completions, vec![false]);
    assert!(receiver.try_recv().is_err());
    assert_eq!(ran.actions, vec!["create", "start", "get", "remove", "stop", "complete", "finish"]);
}

#[test]
fn segment_zero_is_not_reported_and_counts_run_across_segments() {
    let server = vec![
        answer(URL, 404, None, &[]),
        answer("https://example.com/video?itag=22&sq=0", 200, Some("3"), &[b"0123456789"]),
        answer("https://example.com/video?itag=22&sq=1", 200, None, &[b"ab", b"cde"]),
        answer("https://example.com/video?itag=22&sq=2", 200, None, &[b"f"]),
    ];
    let (sender, mut receiver) = tokio::sync::mpsc::channel::<u64>(16);
    let ran = drive(&server, Some(Callback::new(sender)), true);
    assert_eq!(ran.result, Ok(()));
    assert_eq!(ran.sink, Some(b"0123456789abcdef".to_vec()));
    let mut seen = Vec::new();
    while let Ok(count) = receiver.try_recv() {
        seen.push(count);
    }
    assert_eq!(seen, vec![2, 5, 6]);
    assert_eq!(ran.completions, vec![true]);
}

#[test]
fn step_with_takes_the_outcome_of_the_report_as_given() {
    let (sender, _receiver) = tokio::sync::mpsc::channel::<u64>(4);
    let callback = Some(Callback::new(sender));
    let (mut session, first) = DownloadSession::new(String::from(URL), callback);
    assert_eq!(first, Action::CreateSink);
    assert_eq!(session.phase(), Phase::AwaitSink);
    assert_eq!(session.step_with(Event::Done, SendOutcome::Sent), Action::StartConsumer);
    assert_eq!(
        session.step_with(Event::Done, SendOutcome::Sent),
        Action::Get { url: String::from(URL), target: Target::Whole }
    );
    assert_eq!(
        session.step_with(Event::Response { status: 200, segment_count: None }, SendOutcome::Sent),
        Action::NextChunk
    );
    let chunk = Bytes::from_static(b"12345");
    assert_eq!(
        session.step_with(Event::Chunk(chunk.clone()), SendOutcome::Closed),
        Action::Write(chunk)
    );
    assert_eq!(session.phase(), Phase::AwaitWrite(Target::Whole, 5));
    assert_eq!(session.counter(), 0);
    assert_eq!(session.step_with(Event::Done, SendOutcome::Full), Action::NextChunk);
    assert_eq!(session.counter(), 5);
    let chunk = Bytes::from_static(b"678");
    assert_eq!(session.step_with(Event::Chunk(chunk.clone()), SendOutcome::Sent), Action::Write(chunk));
    assert_eq!(session.step_with(Event::Done, SendOutcome::Closed), Action::RemoveSink);
    assert_eq!(session.counter(), 8);
    assert_eq!(session.phase(), Phase::AwaitRemoval(Error::ChannelClosed));
    assert_eq!(session.outcome(), None);
    assert_eq!(session.step_with(Event::Failed, SendOutcome::Sent), Action::StopConsumer);
    assert_eq!(session.step_with(Event::Failed, SendOutcome::Sent), Action::Complete(false));
    assert_eq!(
        session.step_with(Event::Failed, SendOutcome::Sent),
        Action::Finish(Err(Error::ChannelClosed))
    );
    assert_eq!(session.outcome(), Some(Err(Error::ChannelClosed)));
    assert_eq!(session.step_with(Event::BodyEnd, SendOutcome::Sent), Action::Halt);
}

#[test]
fn event_that_does_not_answer_the_action_counts_as_its_failure() {
    let (mut session, _) = DownloadSession::new(String::from(URL), None);
    assert_eq!(
        session.step(Event::BodyEnd),
        Action::Finish(Err(Error::Filesystem))
    );

    let (mut session, _) = DownloadSession::new(String::from(URL), None);
    session.step(Event::Done);
    assert_eq!(session.step(Event::Done), Action::RemoveSink);
    assert_eq!(session.step(Event::Done), Action::Finish(Err(Error::Transport)));

    let (mut session, _) = DownloadSession::new(String::from(URL), None);
    session.step(Event::Done);
    session.step(Event::Response { status: 200, segment_count: None });
    assert_eq!(session.step(Event::Done), Action::RemoveSink);
    assert_eq!(session.step(Event::Done), Action::Finish(Err(Error::Transport)));

    let (mut session, _) = DownloadSession::new(String::from(URL), None);
    session.step(Event::Done);
    session.step(Event::Response { status: 200, segment_count: None });
    session.step(Event::Chunk(Bytes::from_static(b"x")));
    assert_eq!(session.step(Event::BodyEnd), Action::RemoveSink);
    assert_eq!(session.step(Event::Done), Action::Finish(Err(Error::Filesystem)));
}

#[test]
fn consumer_that_cannot_be_started_closes_the_channel() {
    let (sender, _receiver) = tokio::sync::mpsc::channel::<u64>(4);
    let (mut session, _) = DownloadSession::new(String::from(URL), Some(Callback::new(sender)));
    assert_eq!(session.step(Event::Done), Action::StartConsumer);
    assert_eq!(session.step(Event::Failed), Action::RemoveSink);
    assert_eq!(session.step(Event::Done), Action::StopConsumer);
    assert_eq!(session.step(Event::Done), Action::Complete(false));
    assert_eq!(session.step(Event::Done), Action::Finish(Err(Error::ChannelClosed)));
}

#[test]
fn write_failure_is_a_filesystem_error() {
    let (mut session, _) = DownloadSession::new(String::from(URL), None);
    session.step(Event::Done);
    session.step(Event::Response { status: 200, segment_count: None });
    session.step(Event::Chunk(Bytes::from_static(b"abc")));
    assert_eq!(session.step(Event::Failed), Action::RemoveSink);
    assert_eq!(session.step(Event::Failed), Action::Finish(Err(Error::Filesystem)));
}

#[test]
fn address_that_does_not_parse_cannot_fall_back() {
    let (mut session, _) = DownloadSession::new(String::from("no address"), None);
    assert_eq!(
        session.step(Event::Done),
        Action::Get { url: String::from("no address"), target: Target::Whole }
    );
    assert_eq!(
        session.step(Event::Response { status: 404, segment_count: None }),
        Action::RemoveSink
    );
    assert_eq!(session.step(Event::Done), Action::Finish(Err(Error::Transport)));
}

#[test]
fn counter_stops_at_the_largest_value() {
    let (sender, mut receiver) = tokio::sync::mpsc::channel::<u64>(1);
    let (mut session, _) = DownloadSession::new(String::from(URL), Some(Callback::new(sender)));
    session.step(Event::Done);
    session.step(Event::Done);
    session.step(Event::Response { status: 200, segment_count: None });
    let chunk = Bytes::from(vec![0u8; 1000]);
    let mut expected: u64 = 0;
    for _ in 0..5 {
        session.step(Event::Chunk(chunk.clone()));
        session.step(Event::Done);
        expected += 1000;
        assert_eq!(session.counter(), expected);
    }
    assert_eq!(receiver.try_recv(), Ok(1000));
}

#[test]
fn segment_request_needs_an_address() {
    assert_eq!(
        segment_request(4, Some(String::from("https://example.com/v?sq=4"))),
        Ok(Action::Get { url: String::from("https://example.com/v?sq=4"), target: Target::Segment(4) })
    );
    assert_eq!(segment_request(4, None), Err(Error::Transport));
}

#[test]
fn only_a_closed_channel_stops_the_transfer() {
    assert_eq!(settle(SendOutcome::Sent), Ok(()));
    assert_eq!(settle(SendOutcome::Full), Ok(()));
    assert_eq!(settle(SendOutcome::Closed), Err(Error::ChannelClosed));
}

#[test]
fn report_tells_sent_full_and_closed_apart() {
    let (sender, mut receiver) = tokio::sync::mpsc::channel::<u64>(1);
    let callback = Callback::new(sender);
    assert_eq!(callback.report(11), SendOutcome::Sent);
    assert_eq!(callback.report(12), SendOutcome::Full);
    assert_eq!(receiver.try_recv(), Ok(11));
    assert_eq!(callback.report(13), SendOutcome::Sent);
    drop(receiver);
    assert_eq!(callback.report(14), SendOutcome::Closed);
}

#[test]
fn next_report_is_the_count_after_the_write() {
    let (sender, _receiver) = tokio::sync::mpsc::channel::<u64>(4);
    let (mut session, _) = DownloadSession::new(String::from(URL), Some(Callback::new(sender)));
    assert_eq!(session.next_report(&Event::Done), None);
    session.step(Event::Done);
    session.step(Event::Done);
    session.step(Event::Response { status: 200, segment_count: None });
    assert_eq!(session.next_report(&Event::Done), None);
    session.step(Event::Chunk(Bytes::from_static(b"abcd")));
    assert_eq!(session.next_report(&Event::Done), Some(4));
    assert_eq!(session.next_report(&Event::Failed), None);
    session.step(Event::Done);
    session.step(Event::Chunk(Bytes::from_static(b"efghij")));
    assert_eq!(session.next_report(&Event::Done), Some(10));

    let (mut silent, _) = DownloadSession::new(String::from(URL), None);
    silent.step(Event::Done);
    silent.step(Event::Response { status: 200, segment_count: None });
    silent.step(Event::Chunk(Bytes::from_static(b"abcd")));
    assert_eq!(silent.next_report(&Event::Done), None);
    silent.step(Event::Done);
    assert_eq!(silent.counter(), 0);
}
