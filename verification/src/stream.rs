//! The per-feed resolution state machine: provider redirect URL -> master
//! manifest -> quality-specific variant URL, with one write-once memo slot
//! per stage.
//!
//! The engine never performs network transport itself. A caller asks whether
//! a stage still needs a fetch, performs the HTTP GET, and hands the body
//! back; classifying the body and memoizing the outcome is verified logic.

use vstd::prelude::*;

use crate::errors::StreamError;
use crate::model::Date;
use crate::negotiate::{best_choice, get_quality_link, is_last_slash};
use crate::text::{spec_lines, starts_with_seq, starts_with_str};
use crate::types::{Cdn, FeedType, Quality, Sport};

verus! {

/// One memo slot of the resolution state machine. Once a slot leaves
/// `Unattempted` it never changes again for the lifetime of the stream:
/// callers repeating a request get the cached outcome, not a new attempt.
#[derive(Debug)]
pub enum Resolution {
    /// No resolution attempt has been recorded yet.
    Unattempted,
    /// The stage resolved; the value is the URL or body it produced.
    ResolvedOk(String),
    /// The stage failed, with the error the attempt produced.
    ResolvedFail(StreamError),
}

impl Clone for Resolution {
    fn clone(&self) -> (r: Self)
        ensures
            r == *self,
    {
        match self {
            Resolution::Unattempted => Resolution::Unattempted,
            Resolution::ResolvedOk(s) => Resolution::ResolvedOk(s.clone()),
            Resolution::ResolvedFail(e) => Resolution::ResolvedFail(*e),
        }
    }
}

/// The resolution unit for one broadcast feed of one game.
#[derive(Debug)]
pub struct Stream {
    /// The provider's opaque feed identifier.
    pub id: String,
    /// The provider host the redirect endpoint lives on.
    pub host: String,
    pub sport: Sport,
    pub feed_type: FeedType,
    /// Scheduled start of the game, milliseconds since the Unix epoch.
    pub game_date: i64,
    /// The business date the schedule was selected for.
    pub selected_date: Date,
    /// Memo of the redirect-endpoint stage: the master manifest URL.
    pub redirect_resolution: Resolution,
    /// Memo of the master-manifest fetch: the manifest text.
    pub manifest: Resolution,
    /// Memo of quality negotiation: the variant URL.
    pub quality_resolution: Resolution,
}

impl Clone for Stream {
    fn clone(&self) -> (r: Self)
        ensures
            r == *self,
    {
        Stream {
            id: self.id.clone(),
            host: self.host.clone(),
            sport: self.sport,
            feed_type: self.feed_type,
            game_date: self.game_date,
            selected_date: self.selected_date,
            redirect_resolution: self.redirect_resolution.clone(),
            manifest: self.manifest.clone(),
            quality_resolution: self.quality_resolution.clone(),
        }
    }
}

/// The view of an outcome handed back to a caller: the URL or body as a
/// character sequence, or the error.
pub open spec fn res_view(r: Result<String, StreamError>) -> Result<Seq<char>, StreamError> {
    match r {
        Ok(u) => Ok(u@),
        Err(e) => Err(e),
    }
}

/// The view of a fetched body: `None` is a transport failure.
pub open spec fn body_view(b: Option<String>) -> Option<Seq<char>> {
    match b {
        Some(s) => Some(s@),
        None => None,
    }
}

/// `post` is `pre` with at most the redirect slot changed.
pub open spec fn only_redirect_differs(pre: Stream, post: Stream) -> bool {
    post.id == pre.id && post.host == pre.host && post.sport == pre.sport && post.feed_type
        == pre.feed_type && post.game_date == pre.game_date && post.selected_date
        == pre.selected_date && post.manifest == pre.manifest && post.quality_resolution
        == pre.quality_resolution
}

/// How one `resolve_master` call relates its pre-state, the fetched body (if
/// a fetch was performed), its post-state and its outcome: a fresh attempt
/// classifies the body and memoizes the result; on an attempted stream
/// nothing changes and the cached outcome is returned.
pub open spec fn master_step_rel(
    pre: Stream,
    body: Option<Seq<char>>,
    post: Stream,
    r: Result<Seq<char>, StreamError>,
) -> bool {
    if pre.master_attempted() {
        post == pre && r == pre.spec_master_result()
    } else {
        only_redirect_differs(pre, post) && match body {
            Some(b) => if starts_with_seq(b, "https"@) {
                (post.redirect_resolution matches Resolution::ResolvedOk(u) && u@ == b) && r
                    == Ok::<Seq<char>, StreamError>(b)
            } else {
                post.redirect_resolution == Resolution::ResolvedFail(StreamError::StreamNotLive)
                    && r == Err::<Seq<char>, StreamError>(StreamError::StreamNotLive)
            },
            None => post.redirect_resolution == Resolution::ResolvedFail(
                StreamError::NetworkError,
            ) && r == Err::<Seq<char>, StreamError>(StreamError::NetworkError),
        }
    }
}

impl Stream {
    /// A fresh, entirely unresolved stream for one feed.
    pub fn new(
        id: String,
        host: String,
        sport: Sport,
        feed_type: FeedType,
        game_date: i64,
        selected_date: Date,
    ) -> (r: Stream)
        ensures
            r.id == id,
            r.host == host,
            r.sport == sport,
            r.feed_type == feed_type,
            r.game_date == game_date,
            r.selected_date == selected_date,
            r.redirect_resolution == Resolution::Unattempted,
            r.manifest == Resolution::Unattempted,
            r.quality_resolution == Resolution::Unattempted,
    {
        Stream {
            id,
            host,
            sport,
            feed_type,
            game_date,
            selected_date,
            redirect_resolution: Resolution::Unattempted,
            manifest: Resolution::Unattempted,
            quality_resolution: Resolution::Unattempted,
        }
    }

    /// The exact text of the provider redirect request URL.
    pub open spec fn spec_host_link(self, cdn: Cdn) -> Seq<char> {
        self.host@ + "/getM3U8.php?league="@ + self.sport.spec_str() + "&date="@
            + self.selected_date.spec_format_iso() + "&id="@ + self.id@ + "&cdn="@
            + cdn.spec_str()
    }

    /// Build the deterministic provider redirect URL for this feed. The
    /// request shape must be reproduced bit-exactly for provider
    /// compatibility.
    pub fn host_link(&self, cdn: Cdn) -> (r: String)
        requires
            self.selected_date.wf(),
        ensures
            r@ == self.spec_host_link(cdn),
    {
        let mut s = self.host.clone();
        s.append("/getM3U8.php?league=");
        s.append(self.sport.as_str());
        s.append("&date=");
        let date = self.selected_date.format_iso();
        s.append(date.as_str());
        s.append("&id=");
        s.append(self.id.as_str());
        s.append("&cdn=");
        s.append(cdn.as_str());
        proof {
            assert(s@ =~= self.spec_host_link(cdn));
        }
        s
    }

    /// The redirect stage has recorded an outcome.
    pub open spec fn master_attempted(self) -> bool {
        !(self.redirect_resolution is Unattempted)
    }

    /// The cached outcome of the redirect stage.
    pub open spec fn spec_master_result(self) -> Result<Seq<char>, StreamError> {
        match self.redirect_resolution {
            Resolution::Unattempted => Err(StreamError::StreamNotLive),
            Resolution::ResolvedOk(u) => Ok(u@),
            Resolution::ResolvedFail(e) => Err(e),
        }
    }

    /// Whether resolving the master URL still requires a network call.
    pub fn needs_master_fetch(&self) -> (r: bool)
        ensures
            r == !self.master_attempted(),
    {
        match &self.redirect_resolution {
            Resolution::Unattempted => true,
            _ => false,
        }
    }

    /// The memoized outcome of the redirect stage.
    pub fn master_result(&self) -> (r: Result<String, StreamError>)
        requires
            self.master_attempted(),
        ensures
            res_view(r) == self.spec_master_result(),
    {
        match &self.redirect_resolution {
            Resolution::Unattempted => Err(StreamError::StreamNotLive),
            Resolution::ResolvedOk(u) => Ok(u.clone()),
            Resolution::ResolvedFail(e) => Err(*e),
        }
    }

    /// Record the outcome of one redirect fetch, or return the cached
    /// outcome if one is already memoized. `fetched` is the response body
    /// of the HTTP GET against `host_link` (`None` for a transport
    /// failure); it must be supplied exactly when `needs_master_fetch`. The
    /// body is the master URL when it starts with `https`; any other body
    /// means the stream is not live yet.
    pub fn resolve_master(&mut self, fetched: Option<Option<String>>) -> (r: Result<
        String,
        StreamError,
    >)
        requires
            !old(self).master_attempted() ==> fetched is Some,
        ensures
            master_step_rel(
                *old(self),
                body_view(if fetched is Some {
                    fetched.unwrap()
                } else {
                    None
                }),
                *final(self),
                res_view(r),
            ),
    {
        if self.needs_master_fetch() {
            let body = match fetched {
                Some(b) => b,
                None => None,
            };
            match body {
                Some(b) => {
                    if starts_with_str(b.as_str(), "https") {
                        self.redirect_resolution = Resolution::ResolvedOk(b.clone());
                        Ok(b)
                    } else {
                        self.redirect_resolution = Resolution::ResolvedFail(
                            StreamError::StreamNotLive,
                        );
                        Err(StreamError::StreamNotLive)
                    }
                },
                None => {
                    self.redirect_resolution = Resolution::ResolvedFail(StreamError::NetworkError);
                    Err(StreamError::NetworkError)
                },
            }
        } else {
            self.master_result()
        }
    }

    /// The manifest stage has recorded an outcome.
    pub open spec fn manifest_attempted(self) -> bool {
        !(self.manifest is Unattempted)
    }

    /// The redirect stage resolved to a master URL.
    pub open spec fn master_resolved_ok(self) -> bool {
        self.redirect_resolution is ResolvedOk
    }

    /// The manifest stage resolved to manifest text.
    pub open spec fn manifest_resolved_ok(self) -> bool {
        self.manifest is ResolvedOk
    }

    /// The cached outcome of the manifest stage.
    pub open spec fn spec_manifest_result(self) -> Result<Seq<char>, StreamError> {
        match self.manifest {
            Resolution::Unattempted => Err(StreamError::ManifestMalformed),
            Resolution::ResolvedOk(m) => Ok(m@),
            Resolution::ResolvedFail(e) => Err(e),
        }
    }

    /// Whether fetching the master manifest still requires a network call.
    pub fn needs_manifest_fetch(&self) -> (r: bool)
        ensures
            r == !self.manifest_attempted(),
    {
        match &self.manifest {
            Resolution::Unattempted => true,
            _ => false,
        }
    }

    /// The memoized outcome of the manifest stage.
    pub fn manifest_result(&self) -> (r: Result<String, StreamError>)
        requires
            self.manifest_attempted(),
        ensures
            res_view(r) == self.spec_manifest_result(),
    {
        match &self.manifest {
            Resolution::Unattempted => Err(StreamError::ManifestMalformed),
            Resolution::ResolvedOk(m) => Ok(m.clone()),
            Resolution::ResolvedFail(e) => Err(*e),
        }
    }

    /// `post` is `pre` with at most the manifest slot changed.
    pub open spec fn only_manifest_differs(pre: Stream, post: Stream) -> bool {
        post.id == pre.id && post.host == pre.host && post.sport == pre.sport && post.feed_type
            == pre.feed_type && post.game_date == pre.game_date && post.selected_date
            == pre.selected_date && post.redirect_resolution == pre.redirect_resolution
            && post.quality_resolution == pre.quality_resolution
    }

    /// Record the outcome of one master-manifest fetch. The redirect stage
    /// must have resolved first (the manifest is fetched from the master
    /// URL), and the manifest stage must not have been attempted yet. A
    /// body is manifest text exactly when it starts with the HLS marker
    /// `#EXTM3U`; anything else is a malformed manifest.
    pub fn apply_manifest_response(&mut self, fetched: Option<String>) -> (r: Result<
        String,
        StreamError,
    >)
        requires
            old(self).master_resolved_ok(),
            !old(self).manifest_attempted(),
        ensures
            Stream::only_manifest_differs(*old(self), *final(self)),
            match body_view(fetched) {
                Some(b) => if starts_with_seq(b, "#EXTM3U"@) {
                    (final(self).manifest matches Resolution::ResolvedOk(m) && m@ == b)
                        && res_view(r) == Ok::<Seq<char>, StreamError>(b)
                } else {
                    final(self).manifest == Resolution::ResolvedFail(
                        StreamError::ManifestMalformed,
                    ) && r == Err::<String, StreamError>(StreamError::ManifestMalformed)
                },
                None => final(self).manifest == Resolution::ResolvedFail(
                    StreamError::NetworkError,
                ) && r == Err::<String, StreamError>(StreamError::NetworkError),
            },
    {
        match fetched {
            Some(b) => {
                if starts_with_str(b.as_str(), "#EXTM3U") {
                    self.manifest = Resolution::ResolvedOk(b.clone());
                    Ok(b)
                } else {
                    self.manifest = Resolution::ResolvedFail(StreamError::ManifestMalformed);
                    Err(StreamError::ManifestMalformed)
                }
            },
            None => {
                self.manifest = Resolution::ResolvedFail(StreamError::NetworkError);
                Err(StreamError::NetworkError)
            },
        }
    }

    /// The quality stage has recorded an outcome.
    pub open spec fn quality_attempted(self) -> bool {
        !(self.quality_resolution is Unattempted)
    }

    /// `post` is `pre` with at most the quality slot changed.
    pub open spec fn only_quality_differs(pre: Stream, post: Stream) -> bool {
        post.id == pre.id && post.host == pre.host && post.sport == pre.sport && post.feed_type
            == pre.feed_type && post.game_date == pre.game_date && post.selected_date
            == pre.selected_date && post.redirect_resolution == pre.redirect_resolution
            && post.manifest == pre.manifest
    }

    /// Negotiate the variant URL for `requested` against the memoized
    /// master manifest, and memoize the outcome. Needs no network call: the
    /// redirect and manifest stages must have resolved first, unless an
    /// outcome is already cached. The cached outcome is only meaningful for
    /// repeats of the same requested quality; the engine requests at most
    /// one quality per stream lifetime.
    pub fn resolve_quality(&mut self, requested: Quality) -> (r: Result<String, StreamError>)
        requires
            old(self).quality_attempted() || (old(self).master_resolved_ok() && old(
                self,
            ).manifest_resolved_ok()),
        ensures
            Stream::only_quality_differs(*old(self), *final(self)),
            old(self).quality_attempted() ==> *final(self) == *old(self) && match old(
                self,
            ).quality_resolution {
                Resolution::ResolvedOk(u) => res_view(r) == Ok::<Seq<char>, StreamError>(u@),
                Resolution::ResolvedFail(e) => r == Err::<String, StreamError>(e),
                Resolution::Unattempted => false,
            },
            !old(self).quality_attempted() ==> ({
                let master = old(self).redirect_resolution->ResolvedOk_0@;
                let lines = spec_lines(old(self).manifest->ResolvedOk_0@);
                match r {
                    Ok(u) => ((exists|q: Quality, i: int, j: int|
                        #![trigger best_choice(lines, requested, q, i), is_last_slash(master, j)]
                        best_choice(lines, requested, q, i) && i + 1 < lines.len() && q.rank()
                            <= requested.rank() && is_last_slash(master, j) && u@
                            == master.subrange(0, j + 1) + lines[i + 1]) && (final(self).quality_resolution
                        matches Resolution::ResolvedOk(c) && c@ == u@)),
                    Err(e) => (e == StreamError::QualityUnavailable && !(exists|q: Quality, i: int, j: int|
                        best_choice(lines, requested, q, i) && i + 1 < lines.len()
                            && is_last_slash(master, j)) && final(self).quality_resolution
                        == Resolution::ResolvedFail(StreamError::QualityUnavailable)),
                }
            }),
    {
        let cached = match &self.quality_resolution {
            Resolution::Unattempted => None,
            Resolution::ResolvedOk(u) => Some(Ok(u.clone())),
            Resolution::ResolvedFail(e) => Some(Err(*e)),
        };
        match cached {
            Some(r) => r,
            None => {
                let master = match &self.redirect_resolution {
                    Resolution::ResolvedOk(u) => u.clone(),
                    _ => {
                        return Err(StreamError::StreamNotLive);
                    },
                };
                let text = match &self.manifest {
                    Resolution::ResolvedOk(m) => m.clone(),
                    _ => {
                        return Err(StreamError::ManifestMalformed);
                    },
                };
                match get_quality_link(master.as_str(), text.as_str(), requested) {
                    Ok(u) => {
                        self.quality_resolution = Resolution::ResolvedOk(u.clone());
                        Ok(u)
                    },
                    Err(e) => {
                        self.quality_resolution = Resolution::ResolvedFail(
                            StreamError::QualityUnavailable,
                        );
                        Err(e)
                    },
                }
            },
        }
    }
}

/// Memoization idempotence of master resolution: once one `resolve_master`
/// call has recorded an outcome, a second call - whatever a repeated fetch
/// would have returned - changes no state and returns the identical result.
pub proof fn lemma_resolve_master_idempotent(
    s0: Stream,
    b1: Option<Seq<char>>,
    s1: Stream,
    r1: Result<Seq<char>, StreamError>,
    b2: Option<Seq<char>>,
    s2: Stream,
    r2: Result<Seq<char>, StreamError>,
)
    requires
        master_step_rel(s0, b1, s1, r1),
        master_step_rel(s1, b2, s2, r2),
    ensures
        s2 == s1,
        r2 == r1,
        s1.master_attempted(),
{
}

} // verus!
