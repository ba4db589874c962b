use lazystream::errors::StreamError;
use lazystream::model::Date;
use lazystream::text::{pad2, pad4, u32_to_string};
use lazystream::types::{Cdn, FeedType, Quality, Sport};

#[test]
fn sport_strings() {
    assert_eq!(Sport::Nhl.as_str(), "nhl");
    assert_eq!(Sport::Mlb.as_str(), "MLB");
    assert_eq!(Sport::Nhl.tv_marker(), "NHLTV");
    assert_eq!(Sport::Mlb.tv_marker(), "MLBTV");
    assert_eq!(Sport::from_str("nhl"), Some(Sport::Nhl));
    assert_eq!(Sport::from_str("mlb"), Some(Sport::Mlb));
    assert_eq!(Sport::from_str("NHL"), None);
}

#[test]
fn cdn_strings() {
    assert_eq!(Cdn::Akc.as_str(), "akc");
    assert_eq!(Cdn::L3c.as_str(), "l3c");
    assert_eq!(Cdn::from_str("akc"), Some(Cdn::Akc));
    assert_eq!(Cdn::from_str("l3c"), Some(Cdn::L3c));
    assert_eq!(Cdn::from_str("akamai"), None);
}

#[test]
fn quality_parsing_and_tags() {
    assert_eq!(Quality::from_str("720p60"), Some(Quality::_720p60));
    assert_eq!(Quality::from_str("720p"), Some(Quality::_720p));
    assert_eq!(Quality::from_str("216p"), Some(Quality::_216p));
    assert_eq!(Quality::from_str("1080p"), None);
    assert_eq!(Quality::_720p60.as_str(), "72060");
    assert_eq!(Quality::_540p.as_str(), "540");
}

#[test]
fn quality_ranking_is_ascending() {
    let mut all = Quality::all();
    assert_eq!(all.len(), 8);
    // `all` lists tiers highest first.
    assert_eq!(all[0], Quality::_720p60);
    assert_eq!(all[7], Quality::_216p);
    all.reverse();
    for w in all.windows(2) {
        assert!(w[0].rank_u8() < w[1].rank_u8());
    }
}

#[test]
fn streamlink_quality_names() {
    assert_eq!(Quality::_720p60.to_streamlink_quality(), "720p_alt");
    assert_eq!(Quality::_720p.to_streamlink_quality(), "720p");
    assert_eq!(Quality::_216p.to_streamlink_quality(), "216p");
}

#[test]
fn feed_type_parsing() {
    assert_eq!(FeedType::from_str("HOME"), Some(FeedType::Home));
    assert_eq!(FeedType::from_str("AWAY"), Some(FeedType::Away));
    assert_eq!(FeedType::from_str("NATIONAL"), Some(FeedType::National));
    assert_eq!(FeedType::from_str("FRENCH"), Some(FeedType::French));
    assert_eq!(FeedType::from_str("COMPOSITE"), Some(FeedType::Composite));
    assert_eq!(FeedType::from_str("home"), None);
    assert_eq!(FeedType::Composite.as_str(), "COMPOSITE");
}

#[test]
fn date_parse_accepts_both_spellings() {
    let d = Date { year: 2020, month: 3, day: 1 };
    assert_eq!(Date::parse("20200301"), Some(d));
    assert_eq!(Date::parse("2020-03-01"), Some(d));
}

#[test]
fn date_parse_rejects_invalid() {
    assert_eq!(Date::parse("2020030"), None);
    assert_eq!(Date::parse("202003011"), None);
    assert_eq!(Date::parse("2020030a"), None);
    assert_eq!(Date::parse("20201301"), None);
    assert_eq!(Date::parse("20200300"), None);
    assert_eq!(Date::parse("20200432"), None);
}

#[test]
fn date_parse_knows_the_calendar() {
    assert_eq!(
        Date::parse("20200229"),
        Some(Date { year: 2020, month: 2, day: 29 })
    );
    assert_eq!(Date::parse("20190229"), None);
    assert_eq!(Date::parse("19000229"), None);
    assert_eq!(
        Date::parse("20000229"),
        Some(Date { year: 2000, month: 2, day: 29 })
    );
    assert_eq!(Date::parse("20200430"), Some(Date { year: 2020, month: 4, day: 30 }));
    assert_eq!(Date::parse("20200431"), None);
}

#[test]
fn date_formats_iso_zero_padded() {
    assert_eq!(Date { year: 2020, month: 3, day: 1 }.format_iso(), "2020-03-01");
    assert_eq!(Date { year: 999, month: 12, day: 31 }.format_iso(), "0999-12-31");
}

#[test]
fn decimal_rendering() {
    assert_eq!(u32_to_string(0), "0");
    assert_eq!(u32_to_string(42), "42");
    assert_eq!(u32_to_string(561178), "561178");
    assert_eq!(pad2(7), "07");
    assert_eq!(pad4(7), "0007");
}

#[test]
fn error_messages_are_stable() {
    assert_eq!(StreamError::ScheduleUnavailable.message(), "Schedule is unavailable");
    assert_eq!(StreamError::NoMatchingFeed.message(), "Couldn't find any matching feed");
    assert_eq!(StreamError::NetworkError.message(), "Network request failed");
}
