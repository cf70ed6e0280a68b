//! The error kinds every operation of this library reports.

use vstd::prelude::*;

verus! {

/// Why an operation failed: a malformed or unrecognized reference, an audio
/// container no encoder exists for, a local tag-encoding problem (a release
/// date that is not a timestamp, or a failed commit), or a failure reported
/// by the remote metadata service.
#[derive(Debug, Clone)]
pub enum SpotifyError {
    /// The input string is not a valid reference: a native-scheme string with
    /// too few segments, a URL on an unknown host or with too short a path,
    /// or a string that is no URL at all.
    InvalidUri,
    /// The audio container format has no tag encoder.
    UnsupportedFormat,
    /// A tag value could not be encoded, or the commit failed.
    TagEncoding,
    /// The remote metadata service reported a failure; the message is kept.
    Remote(String),
}

impl SpotifyError {
    /// A short human-readable description: a fixed text per kind, with the
    /// remote service's own words appended to its kind.
    pub fn message(&self) -> (r: String)
        ensures
            self matches SpotifyError::InvalidUri ==> r@ == "invalid reference"@,
            self matches SpotifyError::UnsupportedFormat ==> r@ == "unsupported audio format"@,
            self matches SpotifyError::TagEncoding ==> r@ == "tag encoding failed"@,
            self matches SpotifyError::Remote(m) ==> r@ == "remote service error: "@.add(m@),
    {
        match self {
            SpotifyError::InvalidUri => String::from_str("invalid reference"),
            SpotifyError::UnsupportedFormat => String::from_str("unsupported audio format"),
            SpotifyError::TagEncoding => String::from_str("tag encoding failed"),
            SpotifyError::Remote(m) => {
                let mut r = String::from_str("remote service error: ");
                r.append(m.as_str());
                r
            },
        }
    }
}

} // verus!
