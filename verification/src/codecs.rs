//! What a stream carries, as its codec list and its media type tell.

use vstd::prelude::*;

verus! {

/// The top-level media type of a stream with a video track.
pub const VIDEO: &'static str = "video";

/// The top-level media type of a stream with an audio track.
pub const AUDIO: &'static str = "audio";

/// A stream is adaptive when it lists an odd number of codecs: it carries
/// one track only.
pub open spec fn spec_is_adaptive(codecs: Seq<String>) -> bool {
    codecs.len() % 2 != 0
}

/// Whether the media type that `mime` parses to has the top-level type
/// `name`, compared as the `mime` crate compares names. `false` where the
/// text is no media type.
pub uninterp spec fn mime_type_is(mime: Seq<char>, name: Seq<char>) -> bool;

/// `mime::Mime::type_`, compared with `name` by the crate's own `==`, on the
/// media type that `str::parse` makes of the text. The answer is a function
/// of the two texts alone; nothing more is claimed of it.
#[verifier::external_body]
fn mime_has_type(mime: &str, name: &str) -> (matches: bool)
    ensures
        matches == mime_type_is(mime@, name@),
{
    match mime.parse::<mime::Mime>() {
        Ok(parsed) => parsed.type_() == name,
        Err(_) => false,
    }
}

/// Whether the codec list describes an adaptive stream.
pub fn is_adaptive(codecs: &Vec<String>) -> (adaptive: bool)
    ensures
        adaptive == spec_is_adaptive(codecs@),
{
    codecs.len() % 2 != 0
}

/// Whether the codec list describes a progressive stream: one with both a
/// video and an audio track.
pub fn is_progressive(codecs: &Vec<String>) -> (progressive: bool)
    ensures
        progressive == !spec_is_adaptive(codecs@),
{
    !is_adaptive(codecs)
}

/// Whether a stream carries a track of some kind: every progressive
/// stream does, and an adaptive one does if its media type is of that kind.
pub fn carries_track(progressive: bool, type_matches: bool) -> (carried: bool)
    ensures
        carried == (progressive || type_matches),
{
    progressive || type_matches
}

/// Whether the stream carries a video track: every progressive stream does,
/// and an adaptive one does if its media type is a video type.
pub fn includes_video_track(codecs: &Vec<String>, mime: &str) -> (included: bool)
    ensures
        included == (!spec_is_adaptive(codecs@) || mime_type_is(mime@, VIDEO@)),
{
    carries_track(is_progressive(codecs), mime_has_type(mime, VIDEO))
}

/// Whether the stream carries an audio track: every progressive stream
/// does, and an adaptive one does if its media type is an audio type.
pub fn includes_audio_track(codecs: &Vec<String>, mime: &str) -> (included: bool)
    ensures
        included == (!spec_is_adaptive(codecs@) || mime_type_is(mime@, AUDIO@)),
{
    carries_track(is_progressive(codecs), mime_has_type(mime, AUDIO))
}

} // verus!
