use lazystream::errors::StreamError;
use lazystream::game::{select_feed, FeedMap, Game};
use lazystream::model::{
    Date, GameContentArticleMedia, GameContentArticleMediaImage, GameContentArticleMediaImageCut,
    GameContentArticleMediaImageCutDetail, GameContentEditorial, GameContentEditorialItem,
    GameContentEditorialItemArticle, GameContentEpg, GameContentEpgItem, GameContentMedia,
    GameContentResponse, Team,
};
use lazystream::stream::Stream;
use lazystream::types::{FeedType, Sport};

fn team(id: u32, name: &str, abbrev: Option<&str>) -> Team {
    Team {
        id,
        name: name.to_string(),
        link: String::new(),
        abbreviation: abbrev.map(|a| a.to_string()),
        team_name: name.to_string(),
        location_name: None,
        first_year_of_play: None,
        short_name: None,
        active: true,
    }
}

fn stream(id: &str, feed_type: FeedType) -> Stream {
    Stream::new(
        id.to_string(),
        "http://provider.example".to_string(),
        Sport::Nhl,
        feed_type,
        0,
        Date { year: 2020, month: 3, day: 1 },
    )
}

fn epg_item(feed_type: Option<&str>, id: Option<u32>, playback_id: Option<&str>) -> GameContentEpgItem {
    GameContentEpgItem {
        media_feed_type: feed_type.map(|f| f.to_string()),
        call_letters: None,
        media_state: None,
        id,
        media_playback_id: playback_id.map(|p| p.to_string()),
    }
}

fn content_with_epgs(epgs: Vec<GameContentEpg>) -> GameContentResponse {
    GameContentResponse {
        editorial: GameContentEditorial { preview: None },
        media: GameContentMedia { epg: Some(epgs) },
    }
}

fn game_with_content(sport: Sport, content: GameContentResponse) -> Game {
    let home = team(1, "Golden Knights", Some("VGK"));
    let away = team(2, "Sharks", Some("SJS"));
    let mut game = Game::new(
        sport,
        "http://provider.example".to_string(),
        2019030001,
        1583020800000,
        Date { year: 2020, month: 3, day: 1 },
        home,
        away,
    );
    game.set_game_content(content);
    game
}

fn cut_detail(w: u32, h: u32, src: &str) -> GameContentArticleMediaImageCutDetail {
    GameContentArticleMediaImageCutDetail {
        aspect_ratio: "16:9".to_string(),
        width: w,
        height: h,
        src: src.to_string(),
    }
}

fn cuts(src: &str) -> GameContentArticleMediaImageCut {
    GameContentArticleMediaImageCut {
        cut_2208_1242: cut_detail(2208, 1242, src),
        cut_2048_1152: cut_detail(2048, 1152, src),
        cut_1704_960: cut_detail(1704, 960, src),
        cut_1536_864: cut_detail(1536, 864, src),
        cut_1284_722: cut_detail(1284, 722, src),
        cut_1136_640: cut_detail(1136, 640, src),
        cut_1024_576: cut_detail(1024, 576, src),
        cut_960_540: cut_detail(960, 540, src),
        cut_768_432: cut_detail(768, 432, src),
        cut_640_360: cut_detail(640, 360, src),
        cut_568_320: cut_detail(568, 320, src),
        cut_372_210: cut_detail(372, 210, src),
        cut_320_180: cut_detail(320, 180, src),
        cut_248_140: cut_detail(248, 140, src),
        cut_124_70: cut_detail(124, 70, src),
    }
}

fn content_with_preview(subhead: &str, image_src: Option<&str>) -> GameContentResponse {
    let article = GameContentEditorialItemArticle {
        article_type: "article".to_string(),
        headline: "Headline".to_string(),
        subhead: subhead.to_string(),
        seo_title: String::new(),
        seo_description: String::new(),
        media: image_src.map(|src| GameContentArticleMedia {
            media_type: "photo".to_string(),
            image: GameContentArticleMediaImage { cuts: cuts(src) },
        }),
    };
    GameContentResponse {
        editorial: GameContentEditorial {
            preview: Some(GameContentEditorialItem {
                title: "Preview".to_string(),
                items: Some(vec![article]),
            }),
        },
        media: GameContentMedia { epg: None },
    }
}

#[test]
fn description_reads_first_preview_subheading() {
    let game = game_with_content(Sport::Nhl, content_with_preview("A big rivalry game", None));
    assert_eq!(game.description(), Some("A big rivalry game".to_string()));
}

#[test]
fn description_is_best_effort() {
    let no_content = Game::new(
        Sport::Nhl,
        "http://provider.example".to_string(),
        1,
        0,
        Date { year: 2020, month: 3, day: 1 },
        team(1, "A", None),
        team(2, "B", None),
    );
    assert_eq!(no_content.description(), None);
    let no_preview = game_with_content(
        Sport::Nhl,
        GameContentResponse {
            editorial: GameContentEditorial { preview: None },
            media: GameContentMedia { epg: None },
        },
    );
    assert_eq!(no_preview.description(), None);
}

#[test]
fn game_cuts_reads_first_preview_media() {
    let game = game_with_content(
        Sport::Nhl,
        content_with_preview("sub", Some("http://img.example/cut.jpg")),
    );
    let cuts = game.game_cuts().unwrap();
    assert_eq!(cuts.cut_320_180.src, "http://img.example/cut.jpg");
    assert_eq!(cuts.cut_2048_1152.width, 2048);
}

#[test]
fn game_cuts_absent_media_yields_nothing() {
    let game = game_with_content(Sport::Nhl, content_with_preview("sub", None));
    assert!(game.game_cuts().is_none());
}

#[test]
fn feed_map_insert_get_entries() {
    let mut m = FeedMap::new();
    assert!(m.is_empty());
    m.insert(FeedType::Away, stream("a", FeedType::Away));
    m.insert(FeedType::National, stream("n", FeedType::National));
    assert!(!m.is_empty());
    assert!(m.contains(FeedType::Away));
    assert!(!m.contains(FeedType::Home));
    assert_eq!(m.get(FeedType::National).unwrap().id, "n");
    // Canonical order: national, home, away, french, composite.
    let entries = m.entries();
    assert_eq!(entries.len(), 2);
    assert_eq!(entries[0].0, FeedType::National);
    assert_eq!(entries[1].0, FeedType::Away);
}

#[test]
fn catalog_builds_streams_for_recognized_feeds() {
    let content = content_with_epgs(vec![
        GameContentEpg {
            title: "Some Audio".to_string(),
            items: Some(vec![epg_item(Some("HOME"), None, Some("ignored"))]),
        },
        GameContentEpg {
            title: "NHLTV".to_string(),
            items: Some(vec![
                epg_item(Some("HOME"), None, Some("home-id")),
                epg_item(Some("AWAY"), None, Some("away-id")),
                epg_item(Some("GERMAN"), None, Some("skipped")),
                epg_item(None, None, Some("no-feed-type")),
            ]),
        },
    ]);
    let mut game = game_with_content(Sport::Nhl, content);
    let streams = game.streams().unwrap();
    assert!(streams.contains(FeedType::Home));
    assert!(streams.contains(FeedType::Away));
    assert!(!streams.contains(FeedType::National));
    let home = streams.get(FeedType::Home).unwrap();
    assert_eq!(home.id, "home-id");
    assert_eq!(home.feed_type, FeedType::Home);
    assert_eq!(home.sport, Sport::Nhl);
    let away = streams.get(FeedType::Away).unwrap();
    assert_eq!(away.id, "away-id");
    // The catalog is memoized: a second call yields the same map.
    let again = game.streams().unwrap();
    assert_eq!(again.get(FeedType::Home).unwrap().id, "home-id");
}

#[test]
fn catalog_mlb_uses_decimal_item_id() {
    let content = content_with_epgs(vec![GameContentEpg {
        title: "MLBTV".to_string(),
        items: Some(vec![epg_item(Some("NATIONAL"), Some(561178), None)]),
    }]);
    let mut game = game_with_content(Sport::Mlb, content);
    let streams = game.streams().unwrap();
    assert_eq!(streams.get(FeedType::National).unwrap().id, "561178");
}

#[test]
fn catalog_last_item_wins_per_feed_type() {
    let content = content_with_epgs(vec![GameContentEpg {
        title: "NHLTV".to_string(),
        items: Some(vec![
            epg_item(Some("HOME"), None, Some("first")),
            epg_item(Some("HOME"), None, Some("second")),
        ]),
    }]);
    let mut game = game_with_content(Sport::Nhl, content);
    let streams = game.streams().unwrap();
    assert_eq!(streams.get(FeedType::Home).unwrap().id, "second");
}

#[test]
fn catalog_empty_epg() {
    let content = GameContentResponse {
        editorial: GameContentEditorial { preview: None },
        media: GameContentMedia { epg: None },
    };
    let mut game = game_with_content(Sport::Nhl, content);
    let streams = game.streams().unwrap();
    assert!(streams.is_empty());
}

#[test]
fn select_feed_explicit_present() {
    let mut m = FeedMap::new();
    m.insert(FeedType::French, stream("f", FeedType::French));
    let home = team(1, "Canadiens", Some("MTL"));
    let r = select_feed(Some(FeedType::French), "MTL", &home, &m);
    assert_eq!(r, Ok(FeedType::French));
}

#[test]
fn select_feed_defaults_to_home_side() {
    let mut m = FeedMap::new();
    m.insert(FeedType::Home, stream("h", FeedType::Home));
    m.insert(FeedType::Away, stream("a", FeedType::Away));
    let home = team(1, "Canadiens", Some("MTL"));
    assert_eq!(select_feed(None, "MTL", &home, &m), Ok(FeedType::Home));
    assert_eq!(select_feed(None, "TOR", &home, &m), Ok(FeedType::Away));
}

#[test]
fn select_feed_falls_back_to_national() {
    // Away-team caller, no away feed published: national wins the cascade.
    let mut m = FeedMap::new();
    m.insert(FeedType::Home, stream("s1", FeedType::Home));
    m.insert(FeedType::National, stream("s2", FeedType::National));
    let home = team(1, "Canadiens", Some("MTL"));
    let r = select_feed(None, "SJS", &home, &m);
    assert_eq!(r, Ok(FeedType::National));
}

#[test]
fn select_feed_empty_map_fails() {
    let m = FeedMap::new();
    let home = team(1, "Canadiens", Some("MTL"));
    let r = select_feed(None, "MTL", &home, &m);
    assert_eq!(r, Err(StreamError::NoMatchingFeed));
}

#[test]
fn stream_with_feed_or_default_cascades() {
    // Feed map {Home: s1, National: s2}, the caller's team is the away
    // team, no explicit feed: the target defaults to Away, which is not
    // present, and the cascade settles on National.
    let content = content_with_epgs(vec![GameContentEpg {
        title: "NHLTV".to_string(),
        items: Some(vec![
            epg_item(Some("HOME"), None, Some("s1")),
            epg_item(Some("NATIONAL"), None, Some("s2")),
        ]),
    }]);
    let mut game = game_with_content(Sport::Nhl, content);
    let s = game.stream_with_feed_or_default(None, "SJS").unwrap();
    assert_eq!(s.id, "s2");
    assert_eq!(s.feed_type, FeedType::National);
}

#[test]
fn stream_with_feed_or_default_no_feed_at_all() {
    let content = content_with_epgs(vec![GameContentEpg {
        title: "NHLTV".to_string(),
        items: Some(vec![epg_item(Some("FRENCH"), None, Some("fr"))]),
    }]);
    let mut game = game_with_content(Sport::Nhl, content);
    let r = game.stream_with_feed_or_default(None, "VGK");
    assert_eq!(r.unwrap_err(), StreamError::NoMatchingFeed);
}
