//! The quality negotiator: given the text of an HLS master manifest and a
//! requested tier, pick the variant whose tier is closest to the request
//! without ever exceeding it.

use vstd::prelude::*;

use crate::errors::StreamError;
use crate::text::{
    contains_seq, contains_str, find_last_char, spec_lines, split_lines, views_of,
};
use crate::types::Quality;

verus! {

/// The frame-rate attribute that singles out the top tier: the top tier and
/// the next-highest share a numeric bitrate prefix, so this attribute is the
/// disambiguator.
pub open spec fn frame_rate_marker() -> Seq<char> {
    "FRAME-RATE=59.94"@
}

/// The attribute fragment that marks a manifest line as carrying a tier.
pub open spec fn quality_marker(q: Quality) -> Seq<char> {
    match q {
        Quality::_720p60 => "x72060"@,
        Quality::_720p => "x720"@,
        Quality::_540p => "x540"@,
        Quality::_504p => "x504"@,
        Quality::_360p => "x360"@,
        Quality::_288p => "x288"@,
        Quality::_224p => "x224"@,
        Quality::_216p => "x216"@,
    }
}

fn quality_marker_str(q: Quality) -> (r: &'static str)
    ensures
        r@ == quality_marker(q),
{
    match q {
        Quality::_720p60 => "x72060",
        Quality::_720p => "x720",
        Quality::_540p => "x540",
        Quality::_504p => "x504",
        Quality::_360p => "x360",
        Quality::_288p => "x288",
        Quality::_224p => "x224",
        Quality::_216p => "x216",
    }
}

/// A line is a candidate marker for tier `q`. The top tier is identified by
/// the frame-rate attribute alone; every other tier is identified by its
/// bitrate tag on a line without that attribute, since the top tier's line
/// shares the next-highest tier's numeric bitrate prefix. This rule is
/// provider-specific and deliberately kept exact rather than generalized.
pub open spec fn line_marks(line: Seq<char>, q: Quality) -> bool {
    if q == Quality::_720p60 {
        contains_seq(line, frame_rate_marker())
    } else {
        contains_seq(line, quality_marker(q)) && !contains_seq(line, frame_rate_marker())
    }
}

/// Line `i` of the manifest is a candidate marker for tier `q`.
pub open spec fn candidate(lines: Seq<Seq<char>>, q: Quality, i: int) -> bool {
    0 <= i < lines.len() && line_marks(lines[i], q)
}

/// `(q, i)` is the match the negotiator selects for `requested`: a candidate
/// at or below the request, of maximal tier among such candidates, at the
/// earliest line carrying that tier.
pub open spec fn best_choice(lines: Seq<Seq<char>>, requested: Quality, q: Quality, i: int) -> bool {
    candidate(lines, q, i) && q.rank() <= requested.rank() && (forall|q2: Quality, i2: int|
        candidate(lines, q2, i2) && q2.rank() <= requested.rank() ==> q2.rank() <= q.rank())
        && (forall|i2: int| candidate(lines, q, i2) ==> i <= i2)
}

fn line_marks_check(line: &str, q: Quality) -> (r: bool)
    ensures
        r == line_marks(line@, q),
{
    let has_frame_rate = contains_str(line, "FRAME-RATE=59.94");
    match q {
        Quality::_720p60 => has_frame_rate,
        _ => contains_str(line, quality_marker_str(q)) && !has_frame_rate,
    }
}

/// One entry selected out of an HLS master manifest: the tier it carries and
/// the following manifest line, which is the variant URI.
#[derive(Debug)]
pub struct QualityLine {
    pub quality: Quality,
    pub uri: String,
}

/// At most one pair can be the negotiator's selection.
pub proof fn lemma_best_choice_unique(
    lines: Seq<Seq<char>>,
    requested: Quality,
    q1: Quality,
    i1: int,
    q2: Quality,
    i2: int,
)
    requires
        best_choice(lines, requested, q1, i1),
        best_choice(lines, requested, q2, i2),
    ensures
        q1 == q2,
        i1 == i2,
{
    assert(q1.rank() <= q2.rank());
    assert(q2.rank() <= q1.rank());
    assert(q1 == q2);
    assert(i1 <= i2);
    assert(i2 <= i1);
}

/// Scan the manifest lines and pick the variant URI for the best tier at or
/// below `requested`. Fails with `QualityUnavailable` when no tier at or
/// below the request is present, even if higher tiers are; a match on the
/// last line, with no following URI line, fails the same way.
pub fn negotiate(lines: &Vec<String>, requested: Quality) -> (r: Result<
    QualityLine,
    StreamError,
>)
    ensures
        match r {
            Ok(ql) => ql.quality.rank() <= requested.rank() && exists|i: int|
                #![trigger best_choice(views_of(lines@), requested, ql.quality, i)]
                best_choice(views_of(lines@), requested, ql.quality, i) && i + 1 < lines@.len()
                    && ql.uri@ == views_of(lines@)[i + 1],
            Err(e) => e == StreamError::QualityUnavailable && !(exists|q: Quality, i: int|
                best_choice(views_of(lines@), requested, q, i) && i + 1 < lines@.len()),
        },
{
    let ghost lv = views_of(lines@);
    let qualities = Quality::all();
    let req_rank = requested.rank_u8();
    let mut best_q: Option<Quality> = None;
    let mut best_i: usize = 0;
    let n = lines.len();
    let mut i: usize = 0;
    while i < n
        invariant
            n == lines@.len(),
            lv == views_of(lines@),
            lv.len() == n,
            qualities@ == Quality::spec_all(),
            req_rank as int == requested.rank(),
            i <= n,
            best_q is None ==> forall|q: Quality, j: int|
                0 <= j < i && candidate(lv, q, j) ==> q.rank() > requested.rank(),
            best_q is Some ==> {
                let bq = best_q.unwrap();
                bq.rank() <= requested.rank() && best_i < i && candidate(lv, bq, best_i as int)
                    && (forall|q: Quality, j: int|
                    0 <= j < i && candidate(lv, q, j) && q.rank() <= requested.rank()
                        ==> q.rank() <= bq.rank()) && (forall|j: int|
                    0 <= j < best_i ==> !line_marks(lv[j], bq))
            },
        decreases n - i,
    {
        let line = &lines[i];
        proof {
            assert(lv[i as int] == line@);
        }
        let mut k: usize = 0;
        while k < qualities.len()
            invariant
                n == lines@.len(),
                lv == views_of(lines@),
                lv.len() == n,
                qualities@ == Quality::spec_all(),
                req_rank as int == requested.rank(),
                i < n,
                k <= qualities@.len(),
                line@ == lv[i as int],
                best_q is None ==> (forall|q: Quality, j: int|
                    0 <= j < i && candidate(lv, q, j) ==> q.rank() > requested.rank())
                    && (forall|m: int|
                    0 <= m < k && qualities@[m].rank() <= requested.rank() ==> !line_marks(
                        lv[i as int],
                        qualities@[m],
                    )),
                best_q is Some ==> {
                    let bq = best_q.unwrap();
                    bq.rank() <= requested.rank() && best_i <= i && candidate(
                        lv,
                        bq,
                        best_i as int,
                    ) && (forall|q: Quality, j: int|
                        0 <= j < i && candidate(lv, q, j) && q.rank() <= requested.rank()
                            ==> q.rank() <= bq.rank()) && (forall|m: int|
                        0 <= m < k && qualities@[m].rank() <= requested.rank() && line_marks(
                            lv[i as int],
                            qualities@[m],
                        ) ==> qualities@[m].rank() <= bq.rank()) && (forall|j: int|
                        0 <= j < best_i ==> !line_marks(lv[j], bq))
                },
            decreases qualities@.len() - k,
        {
            let q = qualities[k];
            if q.rank_u8() <= req_rank && line_marks_check(line.as_str(), q) {
                let replace = match best_q {
                    Option::None => true,
                    Option::Some(bq) => q.rank_u8() > bq.rank_u8(),
                };
                if replace {
                    proof {
                        assert forall|j: int| 0 <= j < i implies !line_marks(lv[j], q) by {
                            if line_marks(lv[j], q) {
                                assert(candidate(lv, q, j));
                            }
                        }
                    }
                    best_q = Some(q);
                    best_i = i;
                }
            }
            k += 1;
        }
        proof {
            assert(forall|q: Quality| q.rank() <= requested.rank() ==> exists|m: int|
                0 <= m < Quality::spec_all().len() && Quality::spec_all()[m] == q) by {
                assert(Quality::spec_all()[7 - Quality::_216p.rank()] == Quality::_216p);
                assert(Quality::spec_all()[7 - Quality::_224p.rank()] == Quality::_224p);
                assert(Quality::spec_all()[7 - Quality::_288p.rank()] == Quality::_288p);
                assert(Quality::spec_all()[7 - Quality::_360p.rank()] == Quality::_360p);
                assert(Quality::spec_all()[7 - Quality::_504p.rank()] == Quality::_504p);
                assert(Quality::spec_all()[7 - Quality::_540p.rank()] == Quality::_540p);
                assert(Quality::spec_all()[7 - Quality::_720p.rank()] == Quality::_720p);
                assert(Quality::spec_all()[7 - Quality::_720p60.rank()] == Quality::_720p60);
            }
        }
        i += 1;
    }
    match best_q {
        Option::None => Err(StreamError::QualityUnavailable),
        Option::Some(bq) => {
            proof {
                assert(best_choice(lv, requested, bq, best_i as int));
            }
            if best_i + 1 < n {
                let uri = lines[best_i + 1].clone();
                Ok(QualityLine { quality: bq, uri })
            } else {
                proof {
                    assert forall|q: Quality, j: int|
                        best_choice(lv, requested, q, j) implies !(j + 1 < lv.len()) by {
                        lemma_best_choice_unique(lv, requested, q, j, bq, best_i as int);
                    }
                }
                Err(StreamError::QualityUnavailable)
            }
        },
    }
}

/// `j` is the position of the last slash in `s`.
pub open spec fn is_last_slash(s: Seq<char>, j: int) -> bool {
    0 <= j < s.len() && s[j] == '/' && forall|k: int| j < k < s.len() ==> s[k] != '/'
}

/// Resolve a quality link from the master URL and the master manifest text:
/// negotiate a variant over the manifest's lines, then rewrite the variant's
/// relative path against the master URL's directory component (everything up
/// to and including the last slash).
pub fn get_quality_link(master_link: &str, master_m3u8: &str, quality: Quality) -> (r: Result<
    String,
    StreamError,
>)
    ensures
        match r {
            Ok(u) => exists|q: Quality, i: int, j: int|
                #![trigger best_choice(spec_lines(master_m3u8@), quality, q, i), is_last_slash(master_link@, j)]
                best_choice(spec_lines(master_m3u8@), quality, q, i) && i + 1 < spec_lines(
                    master_m3u8@,
                ).len() && q.rank() <= quality.rank() && is_last_slash(master_link@, j) && u@
                    == master_link@.subrange(0, j + 1) + spec_lines(master_m3u8@)[i + 1],
            Err(e) => e == StreamError::QualityUnavailable && !(exists|q: Quality, i: int, j: int|
                best_choice(spec_lines(master_m3u8@), quality, q, i) && i + 1 < spec_lines(
                    master_m3u8@,
                ).len() && is_last_slash(master_link@, j)),
        },
{
    let lines = split_lines(master_m3u8);
    // Establishes that the master URL's character count fits in usize.
    let _ = master_link.unicode_len();
    match negotiate(&lines, quality) {
        Ok(ql) => {
            match find_last_char(master_link, '/') {
                Some(j) => {
                    let prefix = master_link.substring_char(0, j + 1);
                    let u = prefix.to_owned().concat(ql.uri.as_str());
                    proof {
                        assert(is_last_slash(master_link@, j as int));
                    }
                    Ok(u)
                },
                None => {
                    proof {
                        assert forall|j: int| !is_last_slash(master_link@, j) by {}
                    }
                    Err(StreamError::QualityUnavailable)
                },
            }
        },
        Err(e) => Err(e),
    }
}

proof fn find_best_quality(lines: Seq<Seq<char>>, req_rank: int) -> (q: Quality)
    requires
        0 <= req_rank <= 7,
        exists|q0: Quality, i0: int| candidate(lines, q0, i0) && q0.rank() <= req_rank,
    ensures
        exists|i: int| candidate(lines, q, i),
        q.rank() <= req_rank,
        forall|q2: Quality, i2: int|
            candidate(lines, q2, i2) && q2.rank() <= req_rank ==> q2.rank() <= q.rank(),
    decreases req_rank,
{
    assert(forall|q2: Quality| q2.rank() == req_rank ==> q2 == Quality::of_rank(req_rank));
    if exists|i: int| candidate(lines, Quality::of_rank(req_rank), i) {
        Quality::of_rank(req_rank)
    } else {
        assert(forall|q2: Quality, i2: int|
            candidate(lines, q2, i2) && q2.rank() <= req_rank ==> q2.rank() <= req_rank - 1);
        find_best_quality(lines, req_rank - 1)
    }
}

proof fn find_first_index(lines: Seq<Seq<char>>, q: Quality, lo: int) -> (i: int)
    requires
        0 <= lo,
        exists|i0: int| lo <= i0 && candidate(lines, q, i0),
    ensures
        lo <= i,
        candidate(lines, q, i),
        forall|i2: int| lo <= i2 && candidate(lines, q, i2) ==> i <= i2,
    decreases lines.len() - lo,
{
    if lo < lines.len() && line_marks(lines[lo], q) {
        lo
    } else {
        find_first_index(lines, q, lo + 1)
    }
}

/// Whenever some candidate tier at or below the request exists, a unique
/// selection exists; so if, in addition, every candidate marker line is
/// followed by another line, `negotiate` succeeds.
pub proof fn lemma_negotiate_succeeds(lines: Seq<Seq<char>>, requested: Quality)
    requires
        exists|q: Quality, i: int| candidate(lines, q, i) && q.rank() <= requested.rank(),
        forall|q: Quality, i: int| candidate(lines, q, i) ==> i + 1 < lines.len(),
    ensures
        exists|q: Quality, i: int|
            #![trigger best_choice(lines, requested, q, i)]
            best_choice(lines, requested, q, i) && i + 1 < lines.len(),
{
    let q = find_best_quality(lines, requested.rank());
    let i = find_first_index(lines, q, 0);
    assert(best_choice(lines, requested, q, i));
}

/// When every candidate tier in the manifest sits strictly above the
/// request, no selection exists, so `negotiate` reports that no quality at
/// or below the request is available.
pub proof fn lemma_negotiate_unavailable(lines: Seq<Seq<char>>, requested: Quality)
    requires
        forall|q: Quality, i: int| candidate(lines, q, i) ==> q.rank() > requested.rank(),
    ensures
        !(exists|q: Quality, i: int| best_choice(lines, requested, q, i)),
{
}

} // verus!
