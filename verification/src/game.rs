//! The game aggregate: the feed catalog derived from game content, the
//! per-game stream map, and the feed-default selection policy.

use vstd::prelude::*;

use crate::errors::StreamError;
use crate::model::{Date, GameContentArticleMediaImageCut, GameContentEpg, GameContentEpgItem,
    GameContentResponse, Team};
use crate::stream::{Resolution, Stream};
use crate::text::{spec_dec, str_eq, u32_to_string};
use crate::types::{FeedType, Sport};

verus! {

/// The feed catalog of one game: at most one stream per feed type.
#[derive(Debug)]
pub struct FeedMap {
    pub national: Option<Stream>,
    pub home: Option<Stream>,
    pub away: Option<Stream>,
    pub french: Option<Stream>,
    pub composite: Option<Stream>,
}

impl FeedMap {
    /// The slot a feed type is stored in.
    pub open spec fn slot(self, ft: FeedType) -> Option<Stream> {
        match ft {
            FeedType::National => self.national,
            FeedType::Home => self.home,
            FeedType::Away => self.away,
            FeedType::French => self.french,
            FeedType::Composite => self.composite,
        }
    }
}

impl View for FeedMap {
    type V = Map<FeedType, Stream>;

    open spec fn view(&self) -> Map<FeedType, Stream> {
        Map::new(|ft: FeedType| self.slot(ft) is Some, |ft: FeedType| self.slot(ft).unwrap())
    }
}

impl Clone for FeedMap {
    fn clone(&self) -> (r: Self)
        ensures
            r == *self,
    {
        FeedMap {
            national: self.national.clone(),
            home: self.home.clone(),
            away: self.away.clone(),
            french: self.french.clone(),
            composite: self.composite.clone(),
        }
    }
}

impl FeedMap {
    /// An empty catalog.
    pub fn new() -> (r: FeedMap)
        ensures
            r@ == Map::<FeedType, Stream>::empty(),
    {
        let r = FeedMap { national: None, home: None, away: None, french: None, composite: None };
        proof {
            assert(r@ =~= Map::<FeedType, Stream>::empty());
        }
        r
    }

    /// Whether a stream for this feed type is present.
    pub fn contains(&self, ft: FeedType) -> (r: bool)
        ensures
            r == self@.contains_key(ft),
    {
        let r = match ft {
            FeedType::National => self.national.is_some(),
            FeedType::Home => self.home.is_some(),
            FeedType::Away => self.away.is_some(),
            FeedType::French => self.french.is_some(),
            FeedType::Composite => self.composite.is_some(),
        };
        r
    }

    /// The stream stored for this feed type, if any.
    pub fn get(&self, ft: FeedType) -> (r: Option<&Stream>)
        ensures
            match r {
                Some(s) => self@.contains_key(ft) && *s == self@[ft],
                None => !self@.contains_key(ft),
            },
    {
        match ft {
            FeedType::National => self.national.as_ref(),
            FeedType::Home => self.home.as_ref(),
            FeedType::Away => self.away.as_ref(),
            FeedType::French => self.french.as_ref(),
            FeedType::Composite => self.composite.as_ref(),
        }
    }

    /// Store a stream under its feed type, replacing any previous one.
    pub fn insert(&mut self, ft: FeedType, s: Stream)
        ensures
            final(self)@ == old(self)@.insert(ft, s),
    {
        match ft {
            FeedType::National => self.national = Some(s),
            FeedType::Home => self.home = Some(s),
            FeedType::Away => self.away = Some(s),
            FeedType::French => self.french = Some(s),
            FeedType::Composite => self.composite = Some(s),
        }
        proof {
            assert(self@ =~= old(self)@.insert(ft, s));
        }
    }

    /// Whether the catalog holds no stream at all.
    pub fn is_empty(&self) -> (r: bool)
        ensures
            r == (self@ == Map::<FeedType, Stream>::empty()),
    {
        let r = self.national.is_none() && self.home.is_none() && self.away.is_none()
            && self.french.is_none() && self.composite.is_none();
        proof {
            if r {
                assert(self@ =~= Map::<FeedType, Stream>::empty());
            } else {
                assert(exists|ft: FeedType| self@.contains_key(ft)) by {
                    if self.national is Some {
                        assert(self@.contains_key(FeedType::National));
                    } else if self.home is Some {
                        assert(self@.contains_key(FeedType::Home));
                    } else if self.away is Some {
                        assert(self@.contains_key(FeedType::Away));
                    } else if self.french is Some {
                        assert(self@.contains_key(FeedType::French));
                    } else {
                        assert(self@.contains_key(FeedType::Composite));
                    }
                }
            }
        }
        r
    }

    /// The catalog's entries in canonical feed order.
    pub open spec fn spec_entries(self) -> Seq<(FeedType, Stream)> {
        let n: Seq<(FeedType, Stream)> = if self.national is Some {
            seq![(FeedType::National, self.national.unwrap())]
        } else {
            seq![]
        };
        let h: Seq<(FeedType, Stream)> = if self.home is Some {
            seq![(FeedType::Home, self.home.unwrap())]
        } else {
            seq![]
        };
        let a: Seq<(FeedType, Stream)> = if self.away is Some {
            seq![(FeedType::Away, self.away.unwrap())]
        } else {
            seq![]
        };
        let f: Seq<(FeedType, Stream)> = if self.french is Some {
            seq![(FeedType::French, self.french.unwrap())]
        } else {
            seq![]
        };
        let c: Seq<(FeedType, Stream)> = if self.composite is Some {
            seq![(FeedType::Composite, self.composite.unwrap())]
        } else {
            seq![]
        };
        n + h + a + f + c
    }

    /// Copies of the entries, in canonical feed order (national, home,
    /// away, french, composite).
    pub fn entries(&self) -> (r: Vec<(FeedType, Stream)>)
        ensures
            r@ == self.spec_entries(),
    {
        let mut r: Vec<(FeedType, Stream)> = Vec::new();
        if let Some(s) = &self.national {
            r.push((FeedType::National, s.clone()));
        }
        if let Some(s) = &self.home {
            r.push((FeedType::Home, s.clone()));
        }
        if let Some(s) = &self.away {
            r.push((FeedType::Away, s.clone()));
        }
        if let Some(s) = &self.french {
            r.push((FeedType::French, s.clone()));
        }
        if let Some(s) = &self.composite {
            r.push((FeedType::Composite, s.clone()));
        }
        proof {
            assert(r@ =~= self.spec_entries());
        }
        r
    }
}

/// The EPG list of a game-content answer; absent means empty.
pub open spec fn spec_epgs(content: GameContentResponse) -> Seq<GameContentEpg> {
    match content.media.epg {
        Some(v) => v@,
        None => Seq::empty(),
    }
}

/// The item list of one EPG entry; absent means empty.
pub open spec fn epg_items(epg: GameContentEpg) -> Seq<GameContentEpgItem> {
    match epg.items {
        Some(v) => v@,
        None => Seq::empty(),
    }
}

/// Whether one EPG entry is the sport's TV-feed entry; all others are
/// ignored.
pub open spec fn epg_relevant(sport: Sport, epg: GameContentEpg) -> bool {
    epg.title@ == sport.spec_tv_marker()
}

/// The feed type an item contributes: its feed-type field, parsed into the
/// closed enumeration. Items with no field or an unrecognized name are
/// skipped silently.
pub open spec fn item_feed(item: GameContentEpgItem) -> Option<FeedType> {
    match item.media_feed_type {
        Some(s) => FeedType::spec_from_str(s@),
        None => None,
    }
}

/// Item `j` of EPG entry `e` contributes a stream for feed type `ft`.
pub open spec fn yields(
    sport: Sport,
    epgs: Seq<GameContentEpg>,
    e: int,
    j: int,
    ft: FeedType,
) -> bool {
    0 <= e < epgs.len() && epg_relevant(sport, epgs[e]) && 0 <= j < epg_items(epgs[e]).len()
        && item_feed(epg_items(epgs[e])[j]) == Some(ft)
}

/// Position `(e2, j2)` comes strictly before `(e, j)` in catalog traversal
/// order.
pub open spec fn lex_before(e2: int, j2: int, e: int, j: int) -> bool {
    e2 < e || (e2 == e && j2 < j)
}

/// The provider feed id a contributing item carries: for MLB the numeric
/// item id rendered in decimal, for NHL the media playback id.
pub open spec fn spec_item_id(sport: Sport, item: GameContentEpgItem) -> Seq<char> {
    match sport {
        Sport::Mlb => spec_dec(item.id.unwrap() as int),
        Sport::Nhl => item.media_playback_id.unwrap()@,
    }
}

/// Every contributing item carries the id field this sport's streams are
/// built from.
pub open spec fn items_have_ids(sport: Sport, epgs: Seq<GameContentEpg>) -> bool {
    forall|e: int, j: int, ft: FeedType| #[trigger]
        yields(sport, epgs, e, j, ft) ==> match sport {
            Sport::Mlb => epg_items(epgs[e])[j].id is Some,
            Sport::Nhl => epg_items(epgs[e])[j].media_playback_id is Some,
        }
}

/// `s` is exactly the fresh stream built from one contributing item.
pub open spec fn stream_matches(
    s: Stream,
    sport: Sport,
    host: String,
    game_date: i64,
    selected_date: Date,
    item: GameContentEpgItem,
    ft: FeedType,
) -> bool {
    s.id@ == spec_item_id(sport, item) && s.host == host && s.sport == sport && s.feed_type == ft
        && s.game_date == game_date && s.selected_date == selected_date && s.redirect_resolution
        is Unattempted && s.manifest is Unattempted && s.quality_resolution is Unattempted
}

/// The catalog `m` is exactly what scanning the first `e` EPG entries, plus
/// the first `j` items of entry `e`, produces: a feed type is present iff
/// some scanned item contributes it, and its stream is built from the last
/// such item in traversal order.
pub open spec fn catalog_upto(
    m: Map<FeedType, Stream>,
    sport: Sport,
    host: String,
    game_date: i64,
    selected_date: Date,
    epgs: Seq<GameContentEpg>,
    e: int,
    j: int,
) -> bool {
    (forall|ft: FeedType| #[trigger]
        m.contains_key(ft) <==> exists|e2: int, j2: int|
            lex_before(e2, j2, e, j) && #[trigger] yields(sport, epgs, e2, j2, ft)) && (forall|
        ft: FeedType,
    | #[trigger]
        m.contains_key(ft) ==> exists|e2: int, j2: int|
            lex_before(e2, j2, e, j) && #[trigger] yields(sport, epgs, e2, j2, ft)
                && stream_matches(
                m[ft],
                sport,
                host,
                game_date,
                selected_date,
                epg_items(epgs[e2])[j2],
                ft,
            ) && (forall|e3: int, j3: int|
                lex_before(e3, j3, e, j) && #[trigger] yields(sport, epgs, e3, j3, ft)
                    ==> !lex_before(e2, j2, e3, j3)))
}

/// The catalog `m` is exactly what the whole game content yields.
pub open spec fn spec_catalog(
    m: Map<FeedType, Stream>,
    sport: Sport,
    host: String,
    game_date: i64,
    selected_date: Date,
    epgs: Seq<GameContentEpg>,
) -> bool {
    catalog_upto(m, sport, host, game_date, selected_date, epgs, epgs.len() as int, 0)
}

/// Derive the feed catalog of one game from its content: scan the EPG
/// entries titled with the sport's TV-feed marker and build one fresh
/// stream per recognized feed type, later items overriding earlier ones.
pub fn build_feed_catalog(
    sport: Sport,
    host: &String,
    game_date: i64,
    selected_date: Date,
    content: &GameContentResponse,
) -> (m: FeedMap)
    requires
        items_have_ids(sport, spec_epgs(*content)),
    ensures
        spec_catalog(m@, sport, *host, game_date, selected_date, spec_epgs(*content)),
{
    let ghost epgs_v = spec_epgs(*content);
    let mut m = FeedMap::new();
    let epgs: &Vec<GameContentEpg> = match &content.media.epg {
        Some(v) => v,
        None => {
            return m;
        },
    };
    let n = epgs.len();
    let mut e: usize = 0;
    while e < n
        invariant
            items_have_ids(sport, epgs_v),
            epgs_v == epgs@,
            n == epgs@.len(),
            e <= n,
            catalog_upto(m@, sport, *host, game_date, selected_date, epgs_v, e as int, 0),
        decreases n - e,
    {
        let epg = &epgs[e];
        if str_eq(epg.title.as_str(), sport.tv_marker()) {
            if let Some(items) = &epg.items {
                let n_items = items.len();
                let mut j: usize = 0;
                while j < n_items
                    invariant
                        items_have_ids(sport, epgs_v),
                        epgs_v == epgs@,
                        e < epgs@.len(),
                        epg_relevant(sport, epgs_v[e as int]),
                        epg_items(epgs_v[e as int]) == items@,
                        n_items == items@.len(),
                        j <= n_items,
                        catalog_upto(
                            m@,
                            sport,
                            *host,
                            game_date,
                            selected_date,
                            epgs_v,
                            e as int,
                            j as int,
                        ),
                    decreases n_items - j,
                {
                    let item = &items[j];
                    proof {
                        assert(epg_items(epgs_v[e as int]) == items@);
                    }
                    let mut contributed: Option<FeedType> = None;
                    if let Some(feed_name) = &item.media_feed_type {
                        contributed = FeedType::from_str(feed_name.as_str());
                    }
                    match contributed {
                        Some(ft) => {
                            proof {
                                assert(yields(sport, epgs_v, e as int, j as int, ft));
                            }
                            let id_str = match sport {
                                Sport::Mlb => {
                                    match &item.id {
                                        Some(v) => u32_to_string(*v),
                                        None => {
                                            proof {
                                                assert(false);
                                            }
                                            String::new()
                                        },
                                    }
                                },
                                Sport::Nhl => {
                                    match &item.media_playback_id {
                                        Some(s) => s.clone(),
                                        None => {
                                            proof {
                                                assert(false);
                                            }
                                            String::new()
                                        },
                                    }
                                },
                            };
                            let stream = Stream::new(
                                id_str,
                                host.clone(),
                                sport,
                                ft,
                                game_date,
                                selected_date,
                            );
                            let ghost m0 = m@;
                            let ghost sv = stream;
                            proof {
                                assert(stream_matches(
                                    sv,
                                    sport,
                                    *host,
                                    game_date,
                                    selected_date,
                                    epg_items(epgs_v[e as int])[j as int],
                                    ft,
                                ));
                            }
                            m.insert(ft, stream);
                            proof {
                                lemma_catalog_insert_step(
                                    m0,
                                    sv,
                                    sport,
                                    *host,
                                    game_date,
                                    selected_date,
                                    epgs_v,
                                    e as int,
                                    j as int,
                                    ft,
                                );
                            }
                        },
                        None => {
                            proof {
                                assert(forall|ft: FeedType|
                                    !yields(sport, epgs_v, e as int, j as int, ft));
                                lemma_catalog_skip_step(
                                    m@,
                                    sport,
                                    *host,
                                    game_date,
                                    selected_date,
                                    epgs_v,
                                    e as int,
                                    j as int,
                                );
                            }
                        },
                    }
                    j += 1;
                }
                proof {
                    lemma_catalog_next_epg(
                        m@,
                        sport,
                        *host,
                        game_date,
                        selected_date,
                        epgs_v,
                        e as int,
                        n_items as int,
                    );
                }
            } else {
                proof {
                    assert(epg_items(epgs_v[e as int]).len() == 0);
                    lemma_catalog_next_epg(
                        m@,
                        sport,
                        *host,
                        game_date,
                        selected_date,
                        epgs_v,
                        e as int,
                        0,
                    );
                }
            }
        } else {
            proof {
                assert(!epg_relevant(sport, epgs_v[e as int]));
                lemma_catalog_next_epg(m@, sport, *host, game_date, selected_date, epgs_v, e as int, 0);
            }
        }
        e += 1;
    }
    m
}

/// After scanning everything of entry `e` up to item bound `j` past its
/// last contributing item, the catalog also describes the scan that starts
/// at the next entry.
proof fn lemma_catalog_next_epg(
    m: Map<FeedType, Stream>,
    sport: Sport,
    host: String,
    game_date: i64,
    selected_date: Date,
    epgs: Seq<GameContentEpg>,
    e: int,
    j: int,
)
    requires
        0 <= e < epgs.len(),
        catalog_upto(m, sport, host, game_date, selected_date, epgs, e, j),
        forall|j2: int, ft: FeedType| j <= j2 ==> !(#[trigger] yields(sport, epgs, e, j2, ft)),
    ensures
        catalog_upto(m, sport, host, game_date, selected_date, epgs, e + 1, 0),
{
    assert(forall|e2: int, j2: int, ft: FeedType|
        lex_before(e2, j2, e + 1, 0) && #[trigger] yields(sport, epgs, e2, j2, ft) ==> lex_before(
            e2,
            j2,
            e,
            j,
        ));
}

proof fn lemma_catalog_skip_step(
    m: Map<FeedType, Stream>,
    sport: Sport,
    host: String,
    game_date: i64,
    selected_date: Date,
    epgs: Seq<GameContentEpg>,
    e: int,
    j: int,
)
    requires
        catalog_upto(m, sport, host, game_date, selected_date, epgs, e, j),
        forall|ft: FeedType| !yields(sport, epgs, e, j, ft),
    ensures
        catalog_upto(m, sport, host, game_date, selected_date, epgs, e, j + 1),
{
    assert(forall|e2: int, j2: int, ft: FeedType|
        lex_before(e2, j2, e, j + 1) && #[trigger] yields(sport, epgs, e2, j2, ft) ==> lex_before(
            e2,
            j2,
            e,
            j,
        ));
}

proof fn lemma_catalog_insert_step(
    m0: Map<FeedType, Stream>,
    s: Stream,
    sport: Sport,
    host: String,
    game_date: i64,
    selected_date: Date,
    epgs: Seq<GameContentEpg>,
    e: int,
    j: int,
    ft: FeedType,
)
    requires
        yields(sport, epgs, e, j, ft),
        catalog_upto(m0, sport, host, game_date, selected_date, epgs, e, j),
        stream_matches(s, sport, host, game_date, selected_date, epg_items(epgs[e])[j], ft),
    ensures
        catalog_upto(m0.insert(ft, s), sport, host, game_date, selected_date, epgs, e, j + 1),
{
    let m = m0.insert(ft, s);
    assert(m[ft] == s);
    assert forall|ft2: FeedType| #[trigger]
        m.contains_key(ft2) <==> exists|e2: int, j2: int|
            lex_before(e2, j2, e, j + 1) && #[trigger] yields(sport, epgs, e2, j2, ft2) by {
        if ft2 == ft {
            assert(lex_before(e, j, e, j + 1) && yields(sport, epgs, e, j, ft));
            assert(m.contains_key(ft));
        } else {
            assert(m.contains_key(ft2) == m0.contains_key(ft2));
            if m0.contains_key(ft2) {
                let (e2, j2) = choose|e2: int, j2: int|
                    lex_before(e2, j2, e, j) && #[trigger] yields(sport, epgs, e2, j2, ft2);
                assert(lex_before(e2, j2, e, j + 1) && yields(sport, epgs, e2, j2, ft2));
            } else {
                assert forall|e2: int, j2: int|
                    lex_before(e2, j2, e, j + 1) implies !(#[trigger] yields(
                    sport,
                    epgs,
                    e2,
                    j2,
                    ft2,
                )) by {
                    if yields(sport, epgs, e2, j2, ft2) {
                        if e2 == e && j2 == j {
                            assert(item_feed(epg_items(epgs[e])[j]) == Some(ft));
                        } else {
                            assert(lex_before(e2, j2, e, j));
                        }
                    }
                }
            }
        }
    }
    assert forall|ft2: FeedType| #[trigger] m.contains_key(ft2) implies exists|e2: int, j2: int|
        lex_before(e2, j2, e, j + 1) && #[trigger] yields(sport, epgs, e2, j2, ft2)
            && stream_matches(
            m[ft2],
            sport,
            host,
            game_date,
            selected_date,
            epg_items(epgs[e2])[j2],
            ft2,
        ) && (forall|e3: int, j3: int|
            lex_before(e3, j3, e, j + 1) && #[trigger] yields(sport, epgs, e3, j3, ft2)
                ==> !lex_before(e2, j2, e3, j3)) by {
        if ft2 == ft {
            assert(lex_before(e, j, e, j + 1) && yields(sport, epgs, e, j, ft) && stream_matches(
                m[ft],
                sport,
                host,
                game_date,
                selected_date,
                epg_items(epgs[e])[j],
                ft,
            ));
            assert(forall|e3: int, j3: int|
                lex_before(e3, j3, e, j + 1) && #[trigger] yields(sport, epgs, e3, j3, ft)
                    ==> !lex_before(e, j, e3, j3));
        } else {
            assert(m.contains_key(ft2) == m0.contains_key(ft2));
            assert(m[ft2] == m0[ft2]);
            let (e2, j2) = choose|e2: int, j2: int|
                lex_before(e2, j2, e, j) && #[trigger] yields(sport, epgs, e2, j2, ft2)
                    && stream_matches(
                    m0[ft2],
                    sport,
                    host,
                    game_date,
                    selected_date,
                    epg_items(epgs[e2])[j2],
                    ft2,
                ) && (forall|e3: int, j3: int|
                    lex_before(e3, j3, e, j) && #[trigger] yields(sport, epgs, e3, j3, ft2)
                        ==> !lex_before(e2, j2, e3, j3));
            assert forall|e3: int, j3: int|
                lex_before(e3, j3, e, j + 1) && #[trigger] yields(sport, epgs, e3, j3, ft2)
                    implies !lex_before(e2, j2, e3, j3) by {
                if e3 == e && j3 == j {
                    assert(item_feed(epg_items(epgs[e])[j]) == Some(ft));
                } else {
                    assert(lex_before(e3, j3, e, j));
                }
            }
            assert(lex_before(e2, j2, e, j + 1) && yields(sport, epgs, e2, j2, ft2)
                && stream_matches(
                m[ft2],
                sport,
                host,
                game_date,
                selected_date,
                epg_items(epgs[e2])[j2],
                ft2,
            ));
        }
    }
}

/// The feed the caller is steered to before availability is considered: the
/// explicit request if any, else the home feed when the caller's team is the
/// home team, else the away feed.
pub open spec fn spec_target_feed(explicit: Option<FeedType>, home_matches: bool) -> FeedType {
    match explicit {
        Some(ft) => ft,
        None => if home_matches {
            FeedType::Home
        } else {
            FeedType::Away
        },
    }
}

/// The feed the policy settles on: the target when available, else the
/// first available of national, home, away, in that fixed order. Blackout
/// rules mean home/away feeds are not always published; a national feed is
/// the most generally-applicable substitute.
pub open spec fn spec_selected_feed(
    explicit: Option<FeedType>,
    home_matches: bool,
    m: Map<FeedType, Stream>,
) -> FeedType {
    let target = spec_target_feed(explicit, home_matches);
    if m.contains_key(target) {
        target
    } else if m.contains_key(FeedType::National) {
        FeedType::National
    } else if m.contains_key(FeedType::Home) {
        FeedType::Home
    } else {
        FeedType::Away
    }
}

/// Apply the feed-default policy to an available feed map. Total and
/// deterministic: for every map - the empty one included - the call either
/// returns a feed present in the map or fails with `NoMatchingFeed`.
pub fn select_feed(
    explicit: Option<FeedType>,
    team_abbrev: &str,
    home_team: &Team,
    available: &FeedMap,
) -> (r: Result<FeedType, StreamError>)
    ensures
        ({
            let sel = spec_selected_feed(
                explicit,
                home_team.spec_has_abbreviation(team_abbrev@),
                available@,
            );
            if available@.contains_key(sel) {
                r == Ok::<FeedType, StreamError>(sel)
            } else {
                r == Err::<FeedType, StreamError>(StreamError::NoMatchingFeed)
            }
        }),
{
    let target = match explicit {
        Some(ft) => ft,
        None => if home_team.has_abbreviation(team_abbrev) {
            FeedType::Home
        } else {
            FeedType::Away
        },
    };
    let sel = if available.contains(target) {
        target
    } else if available.contains(FeedType::National) {
        FeedType::National
    } else if available.contains(FeedType::Home) {
        FeedType::Home
    } else {
        FeedType::Away
    };
    if available.contains(sel) {
        Ok(sel)
    } else {
        Err(StreamError::NoMatchingFeed)
    }
}

/// The fallback cascade cannot miss an available feed it covers: whenever
/// the map holds a national, home or away feed, the selected feed is
/// present in the map.
pub proof fn lemma_select_feed_covers(
    explicit: Option<FeedType>,
    home_matches: bool,
    m: Map<FeedType, Stream>,
)
    requires
        m.contains_key(FeedType::National) || m.contains_key(FeedType::Home) || m.contains_key(
            FeedType::Away,
        ),
    ensures
        m.contains_key(spec_selected_feed(explicit, home_matches, m)),
{
}

/// A scheduled event with its resolved teams, lazily populated game content
/// and the feed catalog derived from it.
#[derive(Debug)]
pub struct Game {
    pub sport: Sport,
    pub host: String,
    pub game_pk: u64,
    /// Scheduled start, milliseconds since the Unix epoch.
    pub game_date: i64,
    /// The business date the schedule was loaded for.
    pub selected_date: Date,
    /// The feed catalog, built at most once.
    pub streams: Option<FeedMap>,
    pub home_team: Team,
    pub away_team: Team,
    /// The game content, fetched at most once.
    pub game_content: Option<GameContentResponse>,
}

impl Game {
    /// A freshly scheduled game: identity fields set, caches empty.
    pub fn new(
        sport: Sport,
        host: String,
        game_pk: u64,
        game_date: i64,
        selected_date: Date,
        home_team: Team,
        away_team: Team,
    ) -> (r: Game)
        ensures
            r.sport == sport,
            r.host == host,
            r.game_pk == game_pk,
            r.game_date == game_date,
            r.selected_date == selected_date,
            r.streams is None,
            r.home_team == home_team,
            r.away_team == away_team,
            r.game_content is None,
    {
        Game {
            sport,
            host,
            game_pk,
            game_date,
            selected_date,
            streams: None,
            home_team,
            away_team,
            game_content: None,
        }
    }

    /// Whether game content still has to be fetched before the feed catalog
    /// can be derived.
    pub fn needs_game_content(&self) -> (r: bool)
        ensures
            r == (self.game_content is None && self.streams is None),
    {
        self.game_content.is_none() && self.streams.is_none()
    }

    /// Store fetched game content. The content is fetched at most once: a
    /// populated cache is never overwritten.
    pub fn set_game_content(&mut self, content: GameContentResponse)
        requires
            old(self).game_content is None,
        ensures
            final(self).game_content == Some(content),
            final(self).sport == old(self).sport,
            final(self).host == old(self).host,
            final(self).game_pk == old(self).game_pk,
            final(self).game_date == old(self).game_date,
            final(self).selected_date == old(self).selected_date,
            final(self).streams == old(self).streams,
            final(self).home_team == old(self).home_team,
            final(self).away_team == old(self).away_team,
    {
        self.game_content = Some(content);
    }

    /// All fields of `post` except the stream cache agree with `pre`.
    pub open spec fn only_streams_differ(pre: Game, post: Game) -> bool {
        post.sport == pre.sport && post.host == pre.host && post.game_pk == pre.game_pk
            && post.game_date == pre.game_date && post.selected_date == pre.selected_date
            && post.home_team == pre.home_team && post.away_team == pre.away_team
            && post.game_content == pre.game_content
    }

    /// The feed catalog of this game. On the first call the catalog is
    /// derived from the cached game content and memoized; later calls
    /// return the memoized catalog. The caller must have stored game
    /// content first unless a catalog is already cached.
    pub fn streams(&mut self) -> (r: Result<FeedMap, StreamError>)
        requires
            old(self).streams is Some || old(self).game_content is Some,
            old(self).streams is None ==> items_have_ids(
                old(self).sport,
                spec_epgs(old(self).game_content.unwrap()),
            ),
        ensures
            Game::only_streams_differ(*old(self), *final(self)),
            old(self).streams matches Some(cached) ==> *final(self) == *old(self) && r == Ok::<
                FeedMap,
                StreamError,
            >(cached),
            old(self).streams is None ==> (r matches Ok(m) && final(self).streams == Some(m)
                && spec_catalog(
                m@,
                old(self).sport,
                old(self).host,
                old(self).game_date,
                old(self).selected_date,
                spec_epgs(old(self).game_content.unwrap()),
            )),
    {
        match &self.streams {
            Some(cached) => Ok(cached.clone()),
            None => {
                let content = match &self.game_content {
                    Some(c) => c,
                    None => {
                        return Err(StreamError::ScheduleUnavailable);
                    },
                };
                let catalog = build_feed_catalog(
                    self.sport,
                    &self.host,
                    self.game_date,
                    self.selected_date,
                    content,
                );
                let result = catalog.clone();
                self.streams = Some(catalog);
                Ok(result)
            },
        }
    }

    /// What `description` yields: the subheading of the first preview
    /// article of the cached game content, when one is there.
    pub open spec fn spec_description(self) -> Option<String> {
        match self.game_content {
            Some(c) => match c.editorial.preview {
                Some(p) => match p.items {
                    Some(items) => if items@.len() > 0 {
                        Some(items@[0].subhead)
                    } else {
                        None
                    },
                    None => None,
                },
                None => None,
            },
            None => None,
        }
    }

    /// The game's preview subheading, best-effort: absent content, preview
    /// or articles all simply yield nothing.
    pub fn description(&self) -> (r: Option<String>)
        ensures
            r == self.spec_description(),
    {
        match &self.game_content {
            Some(c) => match &c.editorial.preview {
                Some(p) => match &p.items {
                    Some(items) => if items.len() > 0 {
                        Some(items[0].subhead.clone())
                    } else {
                        None
                    },
                    None => None,
                },
                None => None,
            },
            None => None,
        }
    }

    /// What `game_cuts` yields: the image cut set of the first preview
    /// article's media, when one is there.
    pub open spec fn spec_game_cuts(self) -> Option<GameContentArticleMediaImageCut> {
        match self.game_content {
            Some(c) => match c.editorial.preview {
                Some(p) => match p.items {
                    Some(items) => if items@.len() > 0 {
                        match items@[0].media {
                            Some(media) => Some(media.image.cuts),
                            None => None,
                        }
                    } else {
                        None
                    },
                    None => None,
                },
                None => None,
            },
            None => None,
        }
    }

    /// The game's preview image cuts, best-effort: anything missing along
    /// the way simply yields nothing.
    pub fn game_cuts(&self) -> (r: Option<GameContentArticleMediaImageCut>)
        ensures
            r == self.spec_game_cuts(),
    {
        match &self.game_content {
            Some(c) => match &c.editorial.preview {
                Some(p) => match &p.items {
                    Some(items) => if items.len() > 0 {
                        match &items[0].media {
                            Some(media) => Some(media.image.cuts.clone()),
                            None => None,
                        }
                    } else {
                        None
                    },
                    None => None,
                },
                None => None,
            },
            None => None,
        }
    }

    /// Pick this game's stream for an explicitly requested feed type, or
    /// for the caller's default feed, falling back as the policy
    /// prescribes. Fails with `NoMatchingFeed` exactly when the settled
    /// feed is not in the catalog.
    pub fn stream_with_feed_or_default(
        &mut self,
        feed_type: Option<FeedType>,
        team_abbrev: &str,
    ) -> (r: Result<Stream, StreamError>)
        requires
            old(self).streams is Some || old(self).game_content is Some,
            old(self).streams is None ==> items_have_ids(
                old(self).sport,
                spec_epgs(old(self).game_content.unwrap()),
            ),
        ensures
            Game::only_streams_differ(*old(self), *final(self)),
            final(self).streams is Some,
            ({
                let m = final(self).streams.unwrap()@;
                let sel = spec_selected_feed(
                    feed_type,
                    old(self).home_team.spec_has_abbreviation(team_abbrev@),
                    m,
                );
                match r {
                    Ok(s) => m.contains_key(sel) && s == m[sel],
                    Err(e) => e == StreamError::NoMatchingFeed && !m.contains_key(sel),
                }
            }),
            old(self).streams matches Some(cached) ==> *final(self) == *old(self),
            old(self).streams is None ==> spec_catalog(
                final(self).streams.unwrap()@,
                old(self).sport,
                old(self).host,
                old(self).game_date,
                old(self).selected_date,
                spec_epgs(old(self).game_content.unwrap()),
            ),
    {
        let catalog = match self.streams() {
            Ok(c) => c,
            Err(e) => {
                return Err(e);
            },
        };
        match select_feed(feed_type, team_abbrev, &self.home_team, &catalog) {
            Ok(sel) => {
                match catalog.get(sel) {
                    Some(s) => Ok(s.clone()),
                    None => Err(StreamError::NoMatchingFeed),
                }
            },
            Err(e) => Err(e),
        }
    }
}

} // verus!
