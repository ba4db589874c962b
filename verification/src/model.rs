//! Entity model: calendar dates, teams, the day's schedule, and the
//! editorial/media metadata of a single game.
//!
//! Timestamps are held as milliseconds since the Unix epoch; calendar dates
//! as explicit year, month and day fields. Converting to and from any other
//! clock or time-zone representation is the caller's concern.

use vstd::prelude::*;

use crate::text::{pad2, pad4, spec_pad2, spec_pad4, str_eq};

verus! {

/// A calendar date on the provider's business calendar.
#[derive(Clone, Copy, Debug, PartialEq, Eq, Structural)]
pub struct Date {
    pub year: u16,
    pub month: u8,
    pub day: u8,
}

/// Proleptic Gregorian leap year rule.
pub open spec fn is_leap_year(y: int) -> bool {
    y % 4 == 0 && (y % 100 != 0 || y % 400 == 0)
}

/// How many days the given month of the given year has.
pub open spec fn days_in_month(y: int, m: int) -> int {
    if m == 2 {
        if is_leap_year(y) {
            29
        } else {
            28
        }
    } else if m == 4 || m == 6 || m == 9 || m == 11 {
        30
    } else {
        31
    }
}

/// A decimal digit character.
pub open spec fn is_digit_char(c: char) -> bool {
    '0' <= c && c <= '9'
}

/// The numeric value of a decimal digit character.
pub open spec fn digit_val(c: char) -> int {
    c as int - '0' as int
}

/// The input with every dash removed.
pub open spec fn spec_strip_dashes(s: Seq<char>) -> Seq<char> {
    s.filter(|c: char| c != '-')
}

proof fn lemma_strip_dashes_empty()
    ensures
        spec_strip_dashes(Seq::<char>::empty()) == Seq::<char>::empty(),
{
    reveal(Seq::filter);
}

proof fn lemma_strip_dashes_push(s: Seq<char>, c: char)
    ensures
        spec_strip_dashes(s.push(c)) == if c != '-' {
            spec_strip_dashes(s).push(c)
        } else {
            spec_strip_dashes(s)
        },
{
    reveal(Seq::filter);
    let p = s.push(c);
    assert(p.last() == c);
    assert(p.drop_last() =~= s);
}

impl Date {
    /// A well-formed calendar date.
    pub open spec fn wf(self) -> bool {
        self.year <= 9999 && 1 <= self.month <= 12 && 1 <= self.day <= days_in_month(
            self.year as int,
            self.month as int,
        )
    }

    /// The `YYYY-MM-DD` rendering of this date.
    pub open spec fn spec_format_iso(self) -> Seq<char> {
        spec_pad4(self.year as int) + "-"@ + spec_pad2(self.month as int) + "-"@ + spec_pad2(
            self.day as int,
        )
    }

    /// Render this date as `YYYY-MM-DD`, the shape the provider's request
    /// URL requires.
    pub fn format_iso(&self) -> (r: String)
        requires
            self.wf(),
        ensures
            r@ == self.spec_format_iso(),
    {
        let mut s = pad4(self.year as u32);
        s.append("-");
        let m = pad2(self.month as u32);
        s.append(m.as_str());
        s.append("-");
        let d = pad2(self.day as u32);
        s.append(d.as_str());
        s
    }

    /// What `parse` yields: the input with every dash removed must be eight
    /// decimal digits forming a valid `YYYYMMDD` calendar date.
    pub open spec fn spec_parse(s: Seq<char>) -> Option<Date> {
        let t = spec_strip_dashes(s);
        if t.len() == 8 && (forall|i: int| 0 <= i < 8 ==> is_digit_char(#[trigger] t[i])) {
            let y = digit_val(t[0]) * 1000 + digit_val(t[1]) * 100 + digit_val(t[2]) * 10
                + digit_val(t[3]);
            let m = digit_val(t[4]) * 10 + digit_val(t[5]);
            let d = digit_val(t[6]) * 10 + digit_val(t[7]);
            if 1 <= m <= 12 && 1 <= d <= days_in_month(y, m) {
                Some(Date { year: y as u16, month: m as u8, day: d as u8 })
            } else {
                None
            }
        } else {
            None
        }
    }

    /// Parse a `YYYYMMDD` date; dashes anywhere in the input are ignored, so
    /// `YYYY-MM-DD` is accepted too. Invalid calendar dates are rejected.
    pub fn parse(s: &str) -> (r: Option<Date>)
        ensures
            r == Date::spec_parse(s@),
            r is Some ==> r.unwrap().wf(),
    {
        let n = s.unicode_len();
        let mut cs: Vec<char> = Vec::new();
        proof {
            lemma_strip_dashes_empty();
            assert(s@.subrange(0, 0) =~= Seq::<char>::empty());
        }
        let mut i: usize = 0;
        while i < n
            invariant
                n == s@.len(),
                s@.len() <= usize::MAX,
                i <= n,
                cs@ == spec_strip_dashes(s@.subrange(0, i as int)),
            decreases n - i,
        {
            let c = s.get_char(i);
            let ghost prefix = s@.subrange(0, i as int);
            proof {
                assert(s@.subrange(0, i + 1) =~= prefix.push(c));
                lemma_strip_dashes_push(prefix, c);
            }
            if c != '-' {
                cs.push(c);
            }
            i += 1;
        }
        proof {
            assert(s@.subrange(0, n as int) =~= s@);
        }
        if cs.len() != 8 {
            return None;
        }
        let mut vals: Vec<u32> = Vec::new();
        let mut j: usize = 0;
        while j < 8
            invariant
                cs@.len() == 8,
                cs@ == spec_strip_dashes(s@),
                j <= 8,
                vals@.len() == j,
                forall|k: int| 0 <= k < j ==> is_digit_char(#[trigger] cs@[k]),
                forall|k: int| 0 <= k < j ==> (#[trigger] vals@[k]) as int == digit_val(cs@[k]),
                forall|k: int| 0 <= k < j ==> (#[trigger] vals@[k]) <= 9,
            decreases 8 - j,
        {
            let c = cs[j];
            if c < '0' || c > '9' {
                proof {
                    assert(!is_digit_char(spec_strip_dashes(s@)[j as int]));
                }
                return None;
            }
            vals.push((c as u32) - ('0' as u32));
            j += 1;
        }
        let y = vals[0] * 1000 + vals[1] * 100 + vals[2] * 10 + vals[3];
        let m = vals[4] * 10 + vals[5];
        let d = vals[6] * 10 + vals[7];
        let leap = y % 4 == 0 && (y % 100 != 0 || y % 400 == 0);
        let dim: u32 = if m == 2 {
            if leap {
                29
            } else {
                28
            }
        } else if m == 4 || m == 6 || m == 9 || m == 11 {
            30
        } else {
            31
        };
        if 1 <= m && m <= 12 && 1 <= d && d <= dim {
            Some(Date { year: y as u16, month: m as u8, day: d as u8 })
        } else {
            None
        }
    }
}

/// A team as the schedule source reports it.
#[derive(Debug)]
pub struct Team {
    pub id: u32,
    pub name: String,
    pub link: String,
    pub abbreviation: Option<String>,
    pub team_name: String,
    pub location_name: Option<String>,
    pub first_year_of_play: Option<String>,
    pub short_name: Option<String>,
    pub active: bool,
}

impl Team {
    /// The team has an abbreviation and it is exactly `s`.
    pub open spec fn spec_has_abbreviation(self, s: Seq<char>) -> bool {
        self.abbreviation matches Some(a) && a@ == s
    }

    /// Whether this team's abbreviation is exactly `abbrev`; a team without
    /// an abbreviation matches nothing.
    pub fn has_abbreviation(&self, abbrev: &str) -> (r: bool)
        ensures
            r == self.spec_has_abbreviation(abbrev@),
    {
        match &self.abbreviation {
            Some(a) => str_eq(a.as_str(), abbrev),
            None => false,
        }
    }
}

impl Clone for Team {
    fn clone(&self) -> (r: Self)
        ensures
            r == *self,
    {
        Team {
            id: self.id,
            name: self.name.clone(),
            link: self.link.clone(),
            abbreviation: self.abbreviation.clone(),
            team_name: self.team_name.clone(),
            location_name: self.location_name.clone(),
            first_year_of_play: self.first_year_of_play.clone(),
            short_name: self.short_name.clone(),
            active: self.active,
        }
    }
}

/// Identity of one side of a scheduled game.
#[derive(Debug)]
pub struct ScheduleGameTeamDetail {
    pub id: u32,
    pub name: String,
    pub link: String,
}

/// One side of a scheduled game, with its score if any.
#[derive(Debug)]
pub struct ScheduleGameTeam {
    pub score: Option<u8>,
    pub detail: ScheduleGameTeamDetail,
}

/// Both sides of a scheduled game.
#[derive(Debug)]
pub struct ScheduleGameTeams {
    pub away: ScheduleGameTeam,
    pub home: ScheduleGameTeam,
}

/// One scheduled game. `date` is the scheduled start as milliseconds since
/// the Unix epoch, UTC.
#[derive(Debug)]
pub struct ScheduleGame {
    pub game_pk: u64,
    pub link: String,
    pub date: i64,
    pub game_type: String,
    pub season: String,
    pub teams: ScheduleGameTeams,
}

/// The schedule of one business date.
#[derive(Debug)]
pub struct Schedule {
    pub date: Date,
    pub games: Vec<ScheduleGame>,
}

/// A schedule query answer: one `Schedule` per requested date.
#[derive(Debug)]
pub struct ScheduleResponse {
    pub dates: Vec<Schedule>,
}

/// Editorial and media metadata of one game.
#[derive(Debug)]
pub struct GameContentResponse {
    pub editorial: GameContentEditorial,
    pub media: GameContentMedia,
}

/// The media section: the EPG list, when present.
#[derive(Debug)]
pub struct GameContentMedia {
    pub epg: Option<Vec<GameContentEpg>>,
}

/// One EPG entry: a titled list of broadcast items.
#[derive(Debug)]
pub struct GameContentEpg {
    pub title: String,
    pub items: Option<Vec<GameContentEpgItem>>,
}

/// One broadcast item of an EPG entry.
#[derive(Debug)]
pub struct GameContentEpgItem {
    pub media_feed_type: Option<String>,
    pub call_letters: Option<String>,
    pub media_state: Option<String>,
    pub id: Option<u32>,
    pub media_playback_id: Option<String>,
}

/// The editorial section: the game preview, when present.
#[derive(Debug)]
pub struct GameContentEditorial {
    pub preview: Option<GameContentEditorialItem>,
}

/// A titled list of editorial articles.
#[derive(Debug)]
pub struct GameContentEditorialItem {
    pub title: String,
    pub items: Option<Vec<GameContentEditorialItemArticle>>,
}

/// One editorial article with its headline text and attached media.
#[derive(Debug)]
pub struct GameContentEditorialItemArticle {
    pub article_type: String,
    pub headline: String,
    pub subhead: String,
    pub seo_title: String,
    pub seo_description: String,
    pub media: Option<GameContentArticleMedia>,
}

/// Media attached to an editorial article.
#[derive(Debug)]
pub struct GameContentArticleMedia {
    pub media_type: String,
    pub image: GameContentArticleMediaImage,
}

/// The image of an article's media block.
#[derive(Debug)]
pub struct GameContentArticleMediaImage {
    pub cuts: GameContentArticleMediaImageCut,
}

/// Every published cut of a game image, keyed by its pixel size.
#[derive(Debug)]
pub struct GameContentArticleMediaImageCut {
    pub cut_2208_1242: GameContentArticleMediaImageCutDetail,
    pub cut_2048_1152: GameContentArticleMediaImageCutDetail,
    pub cut_1704_960: GameContentArticleMediaImageCutDetail,
    pub cut_1536_864: GameContentArticleMediaImageCutDetail,
    pub cut_1284_722: GameContentArticleMediaImageCutDetail,
    pub cut_1136_640: GameContentArticleMediaImageCutDetail,
    pub cut_1024_576: GameContentArticleMediaImageCutDetail,
    pub cut_960_540: GameContentArticleMediaImageCutDetail,
    pub cut_768_432: GameContentArticleMediaImageCutDetail,
    pub cut_640_360: GameContentArticleMediaImageCutDetail,
    pub cut_568_320: GameContentArticleMediaImageCutDetail,
    pub cut_372_210: GameContentArticleMediaImageCutDetail,
    pub cut_320_180: GameContentArticleMediaImageCutDetail,
    pub cut_248_140: GameContentArticleMediaImageCutDetail,
    pub cut_124_70: GameContentArticleMediaImageCutDetail,
}

/// One image cut: its aspect ratio, pixel size and source URL.
#[derive(Debug)]
pub struct GameContentArticleMediaImageCutDetail {
    pub aspect_ratio: String,
    pub width: u32,
    pub height: u32,
    pub src: String,
}

impl Clone for GameContentArticleMediaImageCutDetail {
    fn clone(&self) -> (r: Self)
        ensures
            r == *self,
    {
        GameContentArticleMediaImageCutDetail {
            aspect_ratio: self.aspect_ratio.clone(),
            width: self.width,
            height: self.height,
            src: self.src.clone(),
        }
    }
}

impl Clone for GameContentArticleMediaImageCut {
    fn clone(&self) -> (r: Self)
        ensures
            r == *self,
    {
        GameContentArticleMediaImageCut {
            cut_2208_1242: self.cut_2208_1242.clone(),
            cut_2048_1152: self.cut_2048_1152.clone(),
            cut_1704_960: self.cut_1704_960.clone(),
            cut_1536_864: self.cut_1536_864.clone(),
            cut_1284_722: self.cut_1284_722.clone(),
            cut_1136_640: self.cut_1136_640.clone(),
            cut_1024_576: self.cut_1024_576.clone(),
            cut_960_540: self.cut_960_540.clone(),
            cut_768_432: self.cut_768_432.clone(),
            cut_640_360: self.cut_640_360.clone(),
            cut_568_320: self.cut_568_320.clone(),
            cut_372_210: self.cut_372_210.clone(),
            cut_320_180: self.cut_320_180.clone(),
            cut_248_140: self.cut_248_140.clone(),
            cut_124_70: self.cut_124_70.clone(),
        }
    }
}

} // verus!
