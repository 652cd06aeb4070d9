use std::sync::atomic::AtomicU64;
use std::sync::Arc;

use rustube::codecs::{
    carries_track, includes_audio_track, includes_video_track, is_adaptive, is_progressive,
};
use rustube::content_length::{
    atomic_u64_is_eq, lookup, resolve, same_size, ContentLengthCache, Head, Lookup,
};
use rustube::error::{Defect, Error};
use rustube::session::{Action, Event, Target};
use rustube::stream::{default_file_name, FormatType, RawFormat, Stream};

fn texts(items: &[&str]) -> Vec<String> {
    items.iter().map(|item| String::from(*item)).collect()
}

fn raw(mime: &str, codecs: &[&str]) -> RawFormat {
    RawFormat {
        url: String::from("https://example.com/video?itag=22"),
        mime: String::from(mime),
        codecs: texts(codecs),
        format_type: None,
        approx_duration_ms: Some(1500),
        audio_channels: Some(2),
        audio_sample_rate: Some(44100),
        average_bitrate: Some(1000),
        bitrate: Some(1200),
        content_length: None,
        fps: 30,
        height: Some(720),
        high_replication: Some(true),
        index_range: Some(10..20),
        init_range: Some(0..9),
        itag: 22,
        width: Some(1280),
    }
}

#[test]
fn odd_number_of_codecs_is_adaptive() {
    assert!(is_adaptive(&texts(&["avc1.64001F"])));
    assert!(is_adaptive(&texts(&["a", "b", "c"])));
    assert!(!is_adaptive(&texts(&[])));
    assert!(!is_adaptive(&texts(&["avc1.64001F", "mp4a.40.2"])));
}

#[test]
fn progressive_is_not_adaptive() {
    assert!(is_progressive(&texts(&["avc1.64001F", "mp4a.40.2"])));
    assert!(is_progressive(&texts(&[])));
    assert!(!is_progressive(&texts(&["opus"])));
}

#[test]
fn progressive_streams_carry_both_tracks() {
    let codecs = texts(&["avc1.64001F", "mp4a.40.2"]);
    assert!(includes_video_track(&codecs, "video/mp4"));
    assert!(includes_audio_track(&codecs, "video/mp4"));
    assert!(includes_video_track(&codecs, "nonsense"));
    assert!(includes_audio_track(&codecs, "nonsense"));
}

#[test]
fn adaptive_streams_carry_the_track_of_their_media_type() {
    let codecs = texts(&["vp9"]);
    assert!(includes_video_track(&codecs, "video/webm"));
    assert!(!includes_audio_track(&codecs, "video/webm"));
    assert!(includes_audio_track(&codecs, "audio/webm"));
    assert!(!includes_video_track(&codecs, "audio/webm"));
    assert!(includes_video_track(&codecs, "Video/WebM; codecs=\"vp9\""));
    assert!(!includes_video_track(&codecs, "video"));
    assert!(!includes_video_track(&codecs, ""));
    assert!(!includes_audio_track(&codecs, "text/plain"));
}

#[test]
fn carries_track_is_either_reason() {
    assert!(carries_track(true, true));
    assert!(carries_track(true, false));
    assert!(carries_track(false, true));
    assert!(!carries_track(false, false));
}

#[test]
fn descriptor_takes_over_what_the_metadata_lists() {
    let stream = Stream::from_raw_format(raw("video/mp4", &["avc1", "mp4a"]), String::from("abc-DEF_123"));
    assert!(stream.is_progressive);
    assert!(stream.includes_video_track);
    assert!(stream.includes_audio_track);
    assert!(!stream.is_otf);
    assert_eq!(stream.mime, "video/mp4");
    assert_eq!(stream.codecs, texts(&["avc1", "mp4a"]));
    assert_eq!(stream.format_type, None);
    assert_eq!(stream.approx_duration_ms, Some(1500));
    assert_eq!(stream.audio_channels, Some(2));
    assert_eq!(stream.audio_sample_rate, Some(44100));
    assert_eq!(stream.average_bitrate, Some(1000));
    assert_eq!(stream.bitrate, Some(1200));
    assert_eq!(stream.fps, 30);
    assert_eq!(stream.height, Some(720));
    assert_eq!(stream.high_replication, Some(true));
    assert_eq!(stream.index_range, Some(10..20));
    assert_eq!(stream.init_range, Some(0..9));
    assert_eq!(stream.itag, 22);
    assert_eq!(stream.width, Some(1280));
    assert_eq!(stream.url, "https://example.com/video?itag=22");
    assert_eq!(stream.video_id, "abc-DEF_123");
    assert_eq!(stream.content_length.begin(), Lookup::Ask);
}

#[test]
fn descriptor_of_an_adaptive_audio_stream() {
    let mut format = raw("audio/webm", &["opus"]);
    format.format_type = Some(FormatType::Otf);
    format.content_length = Some(4096);
    let stream = Stream::from_raw_format(format, String::from("xyz"));
    assert!(!stream.is_progressive);
    assert!(!stream.includes_video_track);
    assert!(stream.includes_audio_track);
    assert!(stream.is_otf);
    assert_eq!(stream.format_type, Some(FormatType::Otf));
    assert_eq!(stream.content_length.begin(), Lookup::Known(4096));
}

#[test]
fn default_file_name_is_the_identifier_with_mp4() {
    assert_eq!(default_file_name("dQw4w9WgXcQ"), "dQw4w9WgXcQ.mp4");
    assert_eq!(default_file_name("a-b_c"), "a-b_c.mp4");
    assert_eq!(default_file_name("x"), "x.mp4");
    let stream = Stream::from_raw_format(raw("video/mp4", &["avc1", "mp4a"]), String::from("abc-DEF_123"));
    assert_eq!(stream.default_file_name(), "abc-DEF_123.mp4");
}

#[test]
fn default_file_name_replaces_an_extension() {
    assert_eq!(default_file_name("clip.webm"), "clip.mp4");
}

#[test]
fn download_begins_with_the_sink() {
    let stream = Stream::from_raw_format(raw("video/mp4", &["avc1", "mp4a"]), String::from("abc"));
    let (mut session, first) = stream.begin_download(None);
    assert_eq!(first, Action::CreateSink);
    assert_eq!(
        session.step(Event::Done),
        Action::Get { url: String::from("https://example.com/video?itag=22"), target: Target::Whole }
    );
}

#[test]
fn lookup_treats_zero_as_unknown() {
    assert_eq!(lookup(0), Lookup::Ask);
    assert_eq!(lookup(1), Lookup::Known(1));
    assert_eq!(lookup(u64::MAX), Lookup::Known(u64::MAX));
}

#[test]
fn size_is_resolved_once_and_then_known() {
    let cache = ContentLengthCache::new(Some(0));
    assert_eq!(cache.begin(), Lookup::Ask);
    let head = Head::Response { status: 200, content_length: Some(b"12345".to_vec()) };
    assert_eq!(cache.finish(&head), Ok(12345));
    assert_eq!(cache.begin(), Lookup::Known(12345));
    assert_eq!(cache.begin(), Lookup::Known(12345));
}

#[test]
fn size_hint_needs_no_request() {
    let cache = ContentLengthCache::new(Some(777));
    assert_eq!(cache.begin(), Lookup::Known(777));
    assert_eq!(ContentLengthCache::new(None).begin(), Lookup::Ask);
}

#[test]
fn known_size_is_never_replaced() {
    let cache = ContentLengthCache::new(Some(777));
    cache.offer(5);
    assert_eq!(cache.begin(), Lookup::Known(777));
    cache.offer(0);
    assert_eq!(cache.begin(), Lookup::Known(777));
    let head = Head::Response { status: 200, content_length: Some(b"9".to_vec()) };
    assert_eq!(cache.finish(&head), Ok(9));
    assert_eq!(cache.begin(), Lookup::Known(777));
}

#[test]
fn many_resolutions_of_one_size_converge() {
    let cache = ContentLengthCache::new(None);
    let handles: Vec<ContentLengthCache> = (0..8).map(|_| cache.share()).collect();
    // Every caller looks before any of them has an answer, so each one asks.
    let looks: Vec<Lookup> = handles.iter().map(|handle| handle.begin()).collect();
    assert!(looks.iter().all(|look| *look == Lookup::Ask));
    for handle in handles.iter().rev() {
        let head = Head::Response { status: 200, content_length: Some(b"12345".to_vec()) };
        assert_eq!(handle.finish(&head), Ok(12345));
        assert_eq!(cache.begin(), Lookup::Known(12345));
    }
    for handle in handles.iter() {
        assert_eq!(handle.begin(), Lookup::Known(12345));
    }
}

#[test]
fn shared_handles_see_one_cell() {
    let cache = ContentLengthCache::new(None);
    let other = cache.share();
    other.offer(42);
    assert_eq!(cache.begin(), Lookup::Known(42));
    let apart = ContentLengthCache::new(None);
    assert_eq!(apart.begin(), Lookup::Ask);
}

#[test]
fn handle_on_an_existing_cell() {
    let cell = Arc::new(AtomicU64::new(0));
    let cache = ContentLengthCache::from_cell(Arc::clone(&cell));
    assert_eq!(cache.begin(), Lookup::Ask);
    cache.offer(64);
    assert_eq!(cell.load(std::sync::atomic::Ordering::SeqCst), 64);
    assert!(atomic_u64_is_eq(cache.as_cell(), &cell));
    assert!(Arc::ptr_eq(cache.as_cell(), &cell));
}

#[test]
fn failed_resolution_leaves_the_size_unknown() {
    let cache = ContentLengthCache::new(None);
    assert_eq!(cache.finish(&Head::Failed), Err(Error::Transport));
    assert_eq!(
        cache.finish(&Head::Response { status: 404, content_length: Some(b"10".to_vec()) }),
        Err(Error::Request(404))
    );
    assert_eq!(
        cache.finish(&Head::Response { status: 200, content_length: None }),
        Err(Error::UnexpectedResponse(Defect::InvalidContentLength))
    );
    assert_eq!(
        cache.finish(&Head::Response { status: 200, content_length: Some(b"ten".to_vec()) }),
        Err(Error::UnexpectedResponse(Defect::InvalidContentLength))
    );
    assert_eq!(cache.begin(), Lookup::Ask);
}

#[test]
fn resolve_reads_the_head_answer() {
    assert_eq!(resolve(&Head::Response { status: 200, content_length: Some(b"12345".to_vec()) }), Ok(12345));
    assert_eq!(resolve(&Head::Response { status: 206, content_length: Some(b"0".to_vec()) }), Ok(0));
    assert_eq!(resolve(&Head::Response { status: 500, content_length: Some(b"1".to_vec()) }), Err(Error::Request(500)));
    assert_eq!(resolve(&Head::Failed), Err(Error::Transport));
}

#[test]
fn shared_handle_keeps_the_given_size() {
    let cache = ContentLengthCache::new(Some(4096));
    let other = cache.share();
    assert_eq!(other.begin(), Lookup::Known(4096));
    assert!(atomic_u64_is_eq(cache.as_cell(), other.as_cell()));
    let on_cell = ContentLengthCache::from_cell(Arc::clone(cache.as_cell()));
    assert_eq!(on_cell.begin(), Lookup::Known(4096));
}

#[test]
fn sizes_compare_by_value() {
    assert!(same_size(0, 0));
    assert!(same_size(12345, 12345));
    assert!(!same_size(0, 1));
    assert!(!same_size(u64::MAX, 0));
}

#[test]
fn cells_compare_by_what_they_hold() {
    let left = Arc::new(AtomicU64::new(5));
    let right = Arc::new(AtomicU64::new(5));
    let other = Arc::new(AtomicU64::new(6));
    assert!(atomic_u64_is_eq(&left, &right));
    assert!(atomic_u64_is_eq(&left, &left));
    assert!(!atomic_u64_is_eq(&left, &other));
}
