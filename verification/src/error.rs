//! The failures a download can end in.

use vstd::prelude::*;

verus! {

/// The status that makes a whole-file attempt switch to segmented retrieval.
pub const NOT_FOUND: u16 = 404;

/// What was wrong with a response that arrived with a success status.
#[derive(Clone, Copy, Debug, PartialEq, Eq, Structural)]
pub enum Defect {
    /// The answer to the first segment request had no `Segment-Count` header.
    MissingSegmentCount,
    /// The `Segment-Count` header held bytes that are not visible text.
    SegmentCountNotText,
    /// The `Segment-Count` header held text that is not an unsigned decimal number.
    SegmentCountNotInteger,
    /// The `Content-Length` header was absent, not text, or not an unsigned decimal number.
    InvalidContentLength,
}

/// The failure kinds of a download.
#[derive(Clone, Copy, Debug, PartialEq, Eq, Structural)]
pub enum Error {
    /// A request or the reading of a response body failed before or without an HTTP status.
    Transport,
    /// The server answered with a status outside 200..=299; the status is carried along.
    Request(u16),
    /// A response that was needed to go on lacked a header, or held a malformed one.
    UnexpectedResponse(Defect),
    /// The output sink could not be created or written.
    Filesystem,
    /// The progress consumer was torn down while the transfer still held its sender.
    ChannelClosed,
}

impl Defect {
    /// The text that describes the defect.
    pub open spec fn spec_message(self) -> Seq<char> {
        match self {
            Defect::MissingSegmentCount => "sequence download request did not contain a Segment-Count"@,
            Defect::SegmentCountNotText => "Segment-Count is not valid utf-8"@,
            Defect::SegmentCountNotInteger => "Segment-Count could not be parsed into an integer"@,
            Defect::InvalidContentLength => "the response did not contain a valid content-length field"@,
        }
    }

    /// The text that describes the defect.
    pub fn message(&self) -> (text: &'static str)
        ensures
            text@ == self.spec_message(),
    {
        match self {
            Defect::MissingSegmentCount => "sequence download request did not contain a Segment-Count",
            Defect::SegmentCountNotText => "Segment-Count is not valid utf-8",
            Defect::SegmentCountNotInteger => "Segment-Count could not be parsed into an integer",
            Defect::InvalidContentLength => "the response did not contain a valid content-length field",
        }
    }
}

impl Error {
    /// Whether the error is the one answer that makes a whole-file attempt
    /// switch to segmented retrieval: a `Request` error with status 404.
    pub open spec fn spec_is_not_found(self) -> bool {
        self == Error::Request(NOT_FOUND)
    }

    /// Whether the error is a `Request` error with status 404.
    pub fn is_not_found(&self) -> (found: bool)
        ensures
            found == self.spec_is_not_found(),
    {
        match self {
            Error::Request(status) => *status == NOT_FOUND,
            _ => false,
        }
    }
}

} // verus!
