//! The descriptor of one downloadable stream.

use vstd::prelude::*;
use vstd::string::StringExecFns;
use std::ops::Range;
use crate::codecs::{
    includes_audio_track, includes_video_track, is_progressive, mime_type_is, spec_is_adaptive,
    AUDIO, VIDEO,
};
use crate::content_length::{starting_size, ContentLengthCache};
use crate::progress::Callback;
use crate::session::{initial, Action, ActionView, DownloadSession};

verus! {

/// The extension of the default output file.
pub const EXTENSION: &'static str = "mp4";

/// How a stream's format is delivered, where the metadata says so.
#[derive(Clone, Copy, Debug, PartialEq, Eq, Structural)]
pub enum FormatType {
    /// The stream is produced on the fly.
    Otf,
}

/// A stream as the video's metadata lists it.
pub struct RawFormat {
    pub url: String,
    pub mime: String,
    pub codecs: Vec<String>,
    pub format_type: Option<FormatType>,
    pub approx_duration_ms: Option<u64>,
    pub audio_channels: Option<u8>,
    pub audio_sample_rate: Option<u64>,
    pub average_bitrate: Option<u64>,
    pub bitrate: Option<u64>,
    pub content_length: Option<u64>,
    pub fps: u8,
    pub height: Option<u64>,
    pub high_replication: Option<bool>,
    pub index_range: Option<Range<u64>>,
    pub init_range: Option<Range<u64>>,
    pub itag: u64,
    pub width: Option<u64>,
}

/// A downloadable stream with all that is known of it. It is not changed
/// once it is made, but for the size of its resource, which may be learnt later.
pub struct Stream {
    pub mime: String,
    pub codecs: Vec<String>,
    pub is_progressive: bool,
    pub includes_video_track: bool,
    pub includes_audio_track: bool,
    pub format_type: Option<FormatType>,
    pub approx_duration_ms: Option<u64>,
    pub audio_channels: Option<u8>,
    pub audio_sample_rate: Option<u64>,
    pub average_bitrate: Option<u64>,
    pub bitrate: Option<u64>,
    pub content_length: ContentLengthCache,
    pub fps: u8,
    pub height: Option<u64>,
    pub high_replication: Option<bool>,
    pub index_range: Option<Range<u64>>,
    pub init_range: Option<Range<u64>>,
    pub is_otf: bool,
    pub itag: u64,
    pub width: Option<u64>,
    pub url: String,
    pub video_id: String,
}

/// A name that is one path component with no extension on every system:
/// not empty, and made of ASCII letters, digits, `-` and `_` only.
pub open spec fn is_plain_name(name: Seq<char>) -> bool {
    &&& name.len() > 0
    &&& forall|i: int|
        0 <= i < name.len() ==> {
            let c = #[trigger] name[i];
            ('a' <= c && c <= 'z') || ('A' <= c && c <= 'Z') || ('0' <= c && c <= '9') || c == '-'
                || c == '_'
        }
}

/// No character of the text separates path components on any system.
pub open spec fn has_no_separator(text: Seq<char>) -> bool {
    forall|i: int| 0 <= i < text.len() ==> #[trigger] text[i] != '/' && text[i] != '\\'
}

/// `std::path::Path::with_extension`, on the path that the text names and
/// back to text. What a path's file name and extension are depends on the
/// system, so the result is stated only for a plain name, which every
/// system reads as a file name without extension: there the extension is
/// added after a dot. An extension with a separator in it is left out: the
/// call panics on it.
#[verifier::external_body]
fn path_with_extension(path: &str, extension: &str) -> (changed: String)
    requires
        has_no_separator(extension@),
    ensures
        is_plain_name(path@) && is_plain_name(extension@) ==> changed@ == path@ + seq!['.']
            + extension@,
{
    std::path::Path::new(path).with_extension(extension).to_string_lossy().into_owned()
}

/// The default name of the output file of the video with this identifier:
/// the identifier with the extension `mp4` in place of its own, if it has
/// one. For a plain identifier that is `<video_id>.mp4`.
pub fn default_file_name(video_id: &str) -> (name: String)
    ensures
        is_plain_name(video_id@) ==> name@ == video_id@ + seq!['.'] + EXTENSION@,
{
    proof {
        reveal_strlit("mp4");
        assert(is_plain_name(EXTENSION@));
        assert(has_no_separator(EXTENSION@));
    }
    path_with_extension(video_id, EXTENSION)
}

impl Stream {
    /// Makes the descriptor of a stream of the video `video_id` out of what
    /// the metadata lists. The flags follow from the codec list, the media
    /// type and the format type; the size starts as the metadata gives it,
    /// unknown where it gives none.
    pub fn from_raw_format(raw_format: RawFormat, video_id: String) -> (stream: Stream)
        ensures
            stream.is_progressive == !spec_is_adaptive(raw_format.codecs@),
            stream.includes_video_track == (!spec_is_adaptive(raw_format.codecs@) || mime_type_is(
                raw_format.mime@,
                VIDEO@,
            )),
            stream.includes_audio_track == (!spec_is_adaptive(raw_format.codecs@) || mime_type_is(
                raw_format.mime@,
                AUDIO@,
            )),
            stream.is_otf == (raw_format.format_type matches Some(FormatType::Otf)),
            stream.mime == raw_format.mime,
            stream.codecs == raw_format.codecs,
            stream.format_type == raw_format.format_type,
            stream.approx_duration_ms == raw_format.approx_duration_ms,
            stream.audio_channels == raw_format.audio_channels,
            stream.audio_sample_rate == raw_format.audio_sample_rate,
            stream.average_bitrate == raw_format.average_bitrate,
            stream.bitrate == raw_format.bitrate,
            stream.fps == raw_format.fps,
            stream.height == raw_format.height,
            stream.high_replication == raw_format.high_replication,
            stream.index_range == raw_format.index_range,
            stream.init_range == raw_format.init_range,
            stream.itag == raw_format.itag,
            stream.width == raw_format.width,
            stream.url == raw_format.url,
            stream.video_id == video_id,
            stream.content_length.given() == starting_size(raw_format.content_length),
    {
        let progressive = is_progressive(&raw_format.codecs);
        let video = includes_video_track(&raw_format.codecs, raw_format.mime.as_str());
        let audio = includes_audio_track(&raw_format.codecs, raw_format.mime.as_str());
        let otf = match raw_format.format_type {
            Some(FormatType::Otf) => true,
            None => false,
        };
        Stream {
            is_progressive: progressive,
            includes_video_track: video,
            includes_audio_track: audio,
            mime: raw_format.mime,
            codecs: raw_format.codecs,
            format_type: raw_format.format_type,
            approx_duration_ms: raw_format.approx_duration_ms,
            audio_channels: raw_format.audio_channels,
            audio_sample_rate: raw_format.audio_sample_rate,
            average_bitrate: raw_format.average_bitrate,
            bitrate: raw_format.bitrate,
            content_length: ContentLengthCache::new(raw_format.content_length),
            fps: raw_format.fps,
            height: raw_format.height,
            high_replication: raw_format.high_replication,
            index_range: raw_format.index_range,
            init_range: raw_format.init_range,
            is_otf: otf,
            itag: raw_format.itag,
            width: raw_format.width,
            url: raw_format.url,
            video_id,
        }
    }

    /// The default name of the stream's output file.
    pub fn default_file_name(&self) -> (name: String)
        ensures
            is_plain_name(self.video_id@) ==> name@ == self.video_id@ + seq!['.'] + EXTENSION@,
    {
        default_file_name(self.video_id.as_str())
    }

    /// Begins a download of the stream, with an observer if `callback`
    /// holds one. The first action is to create the sink.
    pub fn begin_download(&self, callback: Option<Callback>) -> (begun: (DownloadSession, Action))
        ensures
            begun.0@ == initial(self.url@, callback is Some),
            begun.1@ == ActionView::CreateSink,
    {
        DownloadSession::new(self.url.clone(), callback)
    }
}

} // verus!
