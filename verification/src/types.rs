//! Closed enumerations of the engine: sport, CDN, video quality and feed
//! type, together with their exact string renderings and parsers.

use vstd::prelude::*;

use crate::text::str_eq;

verus! {

/// The sport whose games are being resolved.
#[derive(Clone, Copy, Debug, PartialEq, Eq, Structural)]
pub enum Sport {
    Mlb,
    Nhl,
}

impl Sport {
    /// The league tag used in provider request URLs.
    pub open spec fn spec_str(self) -> Seq<char> {
        match self {
            Sport::Mlb => "MLB"@,
            Sport::Nhl => "nhl"@,
        }
    }

    /// The league tag used in provider request URLs.
    pub fn as_str(&self) -> (r: &'static str)
        ensures
            r@ == self.spec_str(),
    {
        match self {
            Sport::Mlb => "MLB",
            Sport::Nhl => "nhl",
        }
    }

    /// The media-EPG title that marks this sport's TV feeds.
    pub open spec fn spec_tv_marker(self) -> Seq<char> {
        match self {
            Sport::Mlb => "MLBTV"@,
            Sport::Nhl => "NHLTV"@,
        }
    }

    /// The media-EPG title that marks this sport's TV feeds.
    pub fn tv_marker(&self) -> (r: &'static str)
        ensures
            r@ == self.spec_tv_marker(),
    {
        match self {
            Sport::Mlb => "MLBTV",
            Sport::Nhl => "NHLTV",
        }
    }

    /// What `from_str` yields for a given input.
    pub open spec fn spec_from_str(s: Seq<char>) -> Option<Sport> {
        if s == "mlb"@ {
            Some(Sport::Mlb)
        } else if s == "nhl"@ {
            Some(Sport::Nhl)
        } else {
            None
        }
    }

    /// Parse the lower-case sport name; anything else is rejected.
    pub fn from_str(s: &str) -> (r: Option<Sport>)
        ensures
            r == Sport::spec_from_str(s@),
    {
        if str_eq(s, "mlb") {
            Some(Sport::Mlb)
        } else if str_eq(s, "nhl") {
            Some(Sport::Nhl)
        } else {
            None
        }
    }
}

/// The provider content-delivery edge to route through.
#[derive(Clone, Copy, Debug, PartialEq, Eq, Structural)]
pub enum Cdn {
    Akc,
    L3c,
}

impl Cdn {
    /// The tag used in provider request URLs.
    pub open spec fn spec_str(self) -> Seq<char> {
        match self {
            Cdn::Akc => "akc"@,
            Cdn::L3c => "l3c"@,
        }
    }

    /// The tag used in provider request URLs.
    pub fn as_str(&self) -> (r: &'static str)
        ensures
            r@ == self.spec_str(),
    {
        match self {
            Cdn::Akc => "akc",
            Cdn::L3c => "l3c",
        }
    }

    /// What `from_str` yields for a given input.
    pub open spec fn spec_from_str(s: Seq<char>) -> Option<Cdn> {
        if s == "akc"@ {
            Some(Cdn::Akc)
        } else if s == "l3c"@ {
            Some(Cdn::L3c)
        } else {
            None
        }
    }

    /// Parse a CDN tag; anything else is rejected.
    pub fn from_str(s: &str) -> (r: Option<Cdn>)
        ensures
            r == Cdn::spec_from_str(s@),
    {
        if str_eq(s, "akc") {
            Some(Cdn::Akc)
        } else if str_eq(s, "l3c") {
            Some(Cdn::L3c)
        } else {
            None
        }
    }
}

/// Video quality tiers, lowest to highest bitrate. The declaration order is
/// the ranking the negotiation algorithm relies on.
#[derive(Clone, Copy, Debug, PartialEq, Eq, Structural)]
pub enum Quality {
    _216p,
    _224p,
    _288p,
    _360p,
    _504p,
    _540p,
    _720p,
    _720p60,
}

impl Quality {
    /// Position in the ascending bitrate order.
    pub open spec fn rank(self) -> int {
        match self {
            Quality::_216p => 0,
            Quality::_224p => 1,
            Quality::_288p => 2,
            Quality::_360p => 3,
            Quality::_504p => 4,
            Quality::_540p => 5,
            Quality::_720p => 6,
            Quality::_720p60 => 7,
        }
    }

    /// Position in the ascending bitrate order.
    pub fn rank_u8(&self) -> (r: u8)
        ensures
            r as int == self.rank(),
    {
        match self {
            Quality::_216p => 0,
            Quality::_224p => 1,
            Quality::_288p => 2,
            Quality::_360p => 3,
            Quality::_504p => 4,
            Quality::_540p => 5,
            Quality::_720p => 6,
            Quality::_720p60 => 7,
        }
    }

    /// The tier with a given rank.
    pub open spec fn of_rank(r: int) -> Quality {
        if r == 0 {
            Quality::_216p
        } else if r == 1 {
            Quality::_224p
        } else if r == 2 {
            Quality::_288p
        } else if r == 3 {
            Quality::_360p
        } else if r == 4 {
            Quality::_504p
        } else if r == 5 {
            Quality::_540p
        } else if r == 6 {
            Quality::_720p
        } else {
            Quality::_720p60
        }
    }

    /// Every tier, highest bitrate first.
    pub open spec fn spec_all() -> Seq<Quality> {
        seq![
            Quality::_720p60,
            Quality::_720p,
            Quality::_540p,
            Quality::_504p,
            Quality::_360p,
            Quality::_288p,
            Quality::_224p,
            Quality::_216p,
        ]
    }

    /// Every tier, highest bitrate first.
    pub fn all() -> (r: Vec<Quality>)
        ensures
            r@ == Quality::spec_all(),
    {
        let r = vec![
            Quality::_720p60,
            Quality::_720p,
            Quality::_540p,
            Quality::_504p,
            Quality::_360p,
            Quality::_288p,
            Quality::_224p,
            Quality::_216p,
        ];
        proof {
            assert(r@ =~= Quality::spec_all());
        }
        r
    }

    /// The numeric tag that identifies this tier inside a manifest line.
    pub open spec fn spec_str(self) -> Seq<char> {
        match self {
            Quality::_720p60 => "72060"@,
            Quality::_720p => "720"@,
            Quality::_540p => "540"@,
            Quality::_504p => "504"@,
            Quality::_360p => "360"@,
            Quality::_288p => "288"@,
            Quality::_224p => "224"@,
            Quality::_216p => "216"@,
        }
    }

    /// The numeric tag that identifies this tier inside a manifest line.
    pub fn as_str(&self) -> (r: &'static str)
        ensures
            r@ == self.spec_str(),
    {
        match self {
            Quality::_720p60 => "72060",
            Quality::_720p => "720",
            Quality::_540p => "540",
            Quality::_504p => "504",
            Quality::_360p => "360",
            Quality::_288p => "288",
            Quality::_224p => "224",
            Quality::_216p => "216",
        }
    }

    /// What `from_str` yields for a given input.
    pub open spec fn spec_from_str(s: Seq<char>) -> Option<Quality> {
        if s == "720p60"@ {
            Some(Quality::_720p60)
        } else if s == "720p"@ {
            Some(Quality::_720p)
        } else if s == "540p"@ {
            Some(Quality::_540p)
        } else if s == "504p"@ {
            Some(Quality::_504p)
        } else if s == "360p"@ {
            Some(Quality::_360p)
        } else if s == "288p"@ {
            Some(Quality::_288p)
        } else if s == "224p"@ {
            Some(Quality::_224p)
        } else if s == "216p"@ {
            Some(Quality::_216p)
        } else {
            None
        }
    }

    /// Parse a user-facing tier name such as `720p60`; anything else is
    /// rejected.
    pub fn from_str(s: &str) -> (r: Option<Quality>)
        ensures
            r == Quality::spec_from_str(s@),
    {
        if str_eq(s, "720p60") {
            Some(Quality::_720p60)
        } else if str_eq(s, "720p") {
            Some(Quality::_720p)
        } else if str_eq(s, "540p") {
            Some(Quality::_540p)
        } else if str_eq(s, "504p") {
            Some(Quality::_504p)
        } else if str_eq(s, "360p") {
            Some(Quality::_360p)
        } else if str_eq(s, "288p") {
            Some(Quality::_288p)
        } else if str_eq(s, "224p") {
            Some(Quality::_224p)
        } else if str_eq(s, "216p") {
            Some(Quality::_216p)
        } else {
            None
        }
    }

    /// What `to_streamlink_quality` yields.
    pub open spec fn spec_streamlink_quality(self) -> Seq<char> {
        match self {
            Quality::_720p60 => "720p_alt"@,
            Quality::_720p => "720p"@,
            Quality::_540p => "540p"@,
            Quality::_504p => "504p"@,
            Quality::_360p => "360p"@,
            Quality::_288p => "288p"@,
            Quality::_224p => "224p"@,
            Quality::_216p => "216p"@,
        }
    }

    /// The stream name this tier is published under by the playback tool.
    pub fn to_streamlink_quality(self) -> (r: &'static str)
        ensures
            r@ == self.spec_streamlink_quality(),
    {
        match self {
            Quality::_720p60 => "720p_alt",
            Quality::_720p => "720p",
            Quality::_540p => "540p",
            Quality::_504p => "504p",
            Quality::_360p => "360p",
            Quality::_288p => "288p",
            Quality::_224p => "224p",
            Quality::_216p => "216p",
        }
    }
}

/// One broadcast angle or language of a game.
#[derive(Clone, Copy, Debug, PartialEq, Eq, Hash, Structural)]
pub enum FeedType {
    National,
    Home,
    Away,
    French,
    Composite,
}

impl FeedType {
    /// The provider's upper-case name of this feed type.
    pub open spec fn spec_str(self) -> Seq<char> {
        match self {
            FeedType::Home => "HOME"@,
            FeedType::Away => "AWAY"@,
            FeedType::National => "NATIONAL"@,
            FeedType::French => "FRENCH"@,
            FeedType::Composite => "COMPOSITE"@,
        }
    }

    /// The provider's upper-case name of this feed type.
    pub fn as_str(&self) -> (r: &'static str)
        ensures
            r@ == self.spec_str(),
    {
        match self {
            FeedType::Home => "HOME",
            FeedType::Away => "AWAY",
            FeedType::National => "NATIONAL",
            FeedType::French => "FRENCH",
            FeedType::Composite => "COMPOSITE",
        }
    }

    /// What `from_str` yields for a given input.
    pub open spec fn spec_from_str(s: Seq<char>) -> Option<FeedType> {
        if s == "HOME"@ {
            Some(FeedType::Home)
        } else if s == "AWAY"@ {
            Some(FeedType::Away)
        } else if s == "FRENCH"@ {
            Some(FeedType::French)
        } else if s == "COMPOSITE"@ {
            Some(FeedType::Composite)
        } else if s == "NATIONAL"@ {
            Some(FeedType::National)
        } else {
            None
        }
    }

    /// Parse a provider feed-type name; unrecognized names are rejected, and
    /// catalog building skips them silently.
    pub fn from_str(s: &str) -> (r: Option<FeedType>)
        ensures
            r == FeedType::spec_from_str(s@),
    {
        if str_eq(s, "HOME") {
            Some(FeedType::Home)
        } else if str_eq(s, "AWAY") {
            Some(FeedType::Away)
        } else if str_eq(s, "FRENCH") {
            Some(FeedType::French)
        } else if str_eq(s, "COMPOSITE") {
            Some(FeedType::Composite)
        } else if str_eq(s, "NATIONAL") {
            Some(FeedType::National)
        } else {
            None
        }
    }
}

/// A request to generate playlist or XMLTV output for all games.
#[derive(Debug, PartialEq)]
pub enum GenerateCommand {
    /// Write an `.m3u` playlist file.
    Playlist { file: String },
    /// Write an `.xml` XMLTV file with a matching `.m3u` playlist.
    Xmltv { file: String, start_channel: u32, channel_prefix: String },
}

impl Clone for GenerateCommand {
    fn clone(&self) -> (r: Self)
        ensures
            r == *self,
    {
        match self {
            GenerateCommand::Playlist { file } => GenerateCommand::Playlist {
                file: file.clone(),
            },
            GenerateCommand::Xmltv { file, start_channel, channel_prefix } => {
                GenerateCommand::Xmltv {
                    file: file.clone(),
                    start_channel: *start_channel,
                    channel_prefix: channel_prefix.clone(),
                }
            },
        }
    }
}

} // verus!
