//! Error taxonomy of the stream resolution engine.

use vstd::prelude::*;

verus! {

/// Every failure the engine can report.
///
/// `StreamNotLive` and `NetworkError` are recoverable: a caller that opted
/// into waiting retries them with a fresh resolution attempt. All other
/// variants are terminal for the current feed or game selection.
#[derive(Clone, Copy, Debug, PartialEq, Eq, Structural)]
pub enum StreamError {
    /// The schedule source failed or returned data the engine cannot use.
    ScheduleUnavailable,
    /// No team in the loaded roster has the given abbreviation.
    UnknownTeam,
    /// None of the requested, default, or fallback feeds exists for the game.
    NoMatchingFeed,
    /// The feed is scheduled but the provider has not published it yet.
    StreamNotLive,
    /// The fetched master manifest does not carry the HLS manifest marker.
    ManifestMalformed,
    /// The master manifest has no variant at or below the requested quality.
    QualityUnavailable,
    /// A transport-level failure, not a provider-level one.
    NetworkError,
}

impl StreamError {
    /// What each variant means, for user-facing reporting.
    pub open spec fn spec_message(self) -> Seq<char> {
        match self {
            StreamError::ScheduleUnavailable => "Schedule is unavailable"@,
            StreamError::UnknownTeam => "Team abbreviation does not exist"@,
            StreamError::NoMatchingFeed => "Couldn't find any matching feed"@,
            StreamError::StreamNotLive => "Stream not available yet"@,
            StreamError::ManifestMalformed => "Failed to get master m3u8"@,
            StreamError::QualityUnavailable => {
                "No stream found matching quality specified"@
            },
            StreamError::NetworkError => "Network request failed"@,
        }
    }

    /// A short description of the error.
    pub fn message(&self) -> (r: &'static str)
        ensures
            r@ == self.spec_message(),
    {
        match self {
            StreamError::ScheduleUnavailable => "Schedule is unavailable",
            StreamError::UnknownTeam => "Team abbreviation does not exist",
            StreamError::NoMatchingFeed => "Couldn't find any matching feed",
            StreamError::StreamNotLive => "Stream not available yet",
            StreamError::ManifestMalformed => "Failed to get master m3u8",
            StreamError::QualityUnavailable => {
                "No stream found matching quality specified"
            },
            StreamError::NetworkError => "Network request failed",
        }
    }
}

} // verus!
