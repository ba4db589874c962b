use lazystream::errors::StreamError;
use lazystream::model::Date;
use lazystream::stream::{Resolution, Stream};
use lazystream::types::{Cdn, FeedType, Quality, Sport};

fn fresh_stream() -> Stream {
    Stream::new(
        "FEED123".to_string(),
        "http://provider.example".to_string(),
        Sport::Nhl,
        FeedType::Home,
        1583020800000,
        Date { year: 2020, month: 3, day: 1 },
    )
}

#[test]
fn host_link_is_bit_exact() {
    let s = fresh_stream();
    assert_eq!(
        s.host_link(Cdn::Akc),
        "http://provider.example/getM3U8.php?league=nhl&date=2020-03-01&id=FEED123&cdn=akc"
    );
    assert_eq!(
        s.host_link(Cdn::L3c),
        "http://provider.example/getM3U8.php?league=nhl&date=2020-03-01&id=FEED123&cdn=l3c"
    );
}

#[test]
fn host_link_mlb_league_tag() {
    let mut s = fresh_stream();
    s.sport = Sport::Mlb;
    assert_eq!(
        s.host_link(Cdn::Akc),
        "http://provider.example/getM3U8.php?league=MLB&date=2020-03-01&id=FEED123&cdn=akc"
    );
}

#[test]
fn master_resolution_success_is_memoized() {
    let mut s = fresh_stream();
    assert!(s.needs_master_fetch());
    let r1 = s.resolve_master(Some(Some("https://cdn.example/master.m3u8".to_string())));
    assert_eq!(r1, Ok("https://cdn.example/master.m3u8".to_string()));
    // The network call happened once; the slot is terminal now.
    assert!(!s.needs_master_fetch());
    let r2 = s.resolve_master(None);
    assert_eq!(r2, Ok("https://cdn.example/master.m3u8".to_string()));
    let r3 = s.master_result();
    assert_eq!(r3, Ok("https://cdn.example/master.m3u8".to_string()));
}

#[test]
fn master_resolution_not_live_body() {
    // The provider answers with an error page instead of a URL.
    let mut s = fresh_stream();
    let r1 = s.resolve_master(Some(Some("Game hasn't started".to_string())));
    assert_eq!(r1, Err(StreamError::StreamNotLive));
    // A fail-fast caller surfaces this immediately: the cached outcome is
    // the same error, with no further fetch asked for.
    assert!(!s.needs_master_fetch());
    let r2 = s.resolve_master(None);
    assert_eq!(r2, Err(StreamError::StreamNotLive));
}

#[test]
fn master_resolution_transport_error() {
    let mut s = fresh_stream();
    let r = s.resolve_master(Some(None));
    assert_eq!(r, Err(StreamError::NetworkError));
    assert!(!s.needs_master_fetch());
    assert_eq!(s.master_result(), Err(StreamError::NetworkError));
}

#[test]
fn manifest_classification() {
    let mut s = fresh_stream();
    s.resolve_master(Some(Some("https://cdn.example/master.m3u8".to_string())))
        .unwrap();
    assert!(s.needs_manifest_fetch());
    let r = s.apply_manifest_response(Some("#EXTM3U\nbody".to_string()));
    assert_eq!(r, Ok("#EXTM3U\nbody".to_string()));
    assert!(!s.needs_manifest_fetch());
    assert_eq!(s.manifest_result(), Ok("#EXTM3U\nbody".to_string()));
}

#[test]
fn manifest_malformed_body() {
    let mut s = fresh_stream();
    s.resolve_master(Some(Some("https://cdn.example/master.m3u8".to_string())))
        .unwrap();
    let r = s.apply_manifest_response(Some("<html>not a manifest</html>".to_string()));
    assert_eq!(r, Err(StreamError::ManifestMalformed));
    assert_eq!(s.manifest_result(), Err(StreamError::ManifestMalformed));
}

#[test]
fn manifest_transport_error() {
    let mut s = fresh_stream();
    s.resolve_master(Some(Some("https://cdn.example/master.m3u8".to_string())))
        .unwrap();
    let r = s.apply_manifest_response(None);
    assert_eq!(r, Err(StreamError::NetworkError));
}

#[test]
fn quality_resolution_joins_against_master_directory() {
    let mut s = fresh_stream();
    s.redirect_resolution =
        Resolution::ResolvedOk("https://cdn.example/dir/master.m3u8".to_string());
    s.manifest = Resolution::ResolvedOk(
        "#EXTM3U\n#EXT-X-STREAM-INF:RESOLUTION=960x540\nuri540.m3u8\n".to_string(),
    );
    let r = s.resolve_quality(Quality::_540p);
    assert_eq!(r, Ok("https://cdn.example/dir/uri540.m3u8".to_string()));
    // The outcome is memoized.
    let r2 = s.resolve_quality(Quality::_540p);
    assert_eq!(r2, Ok("https://cdn.example/dir/uri540.m3u8".to_string()));
}

#[test]
fn quality_resolution_unavailable_is_memoized() {
    let mut s = fresh_stream();
    s.redirect_resolution =
        Resolution::ResolvedOk("https://cdn.example/dir/master.m3u8".to_string());
    s.manifest = Resolution::ResolvedOk(
        "#EXTM3U\n#EXT-X-STREAM-INF:RESOLUTION=1280x720\nuri720.m3u8\n".to_string(),
    );
    let r = s.resolve_quality(Quality::_216p);
    assert_eq!(r, Err(StreamError::QualityUnavailable));
    let r2 = s.resolve_quality(Quality::_216p);
    assert_eq!(r2, Err(StreamError::QualityUnavailable));
}

#[test]
fn polling_on_a_fresh_attempt_can_succeed() {
    // The memo slot is terminal, so a polling caller retries on a fresh
    // attempt, not by re-querying the failed stream.
    let mut s = fresh_stream();
    let r1 = s.resolve_master(Some(Some("Game hasn't started".to_string())));
    assert_eq!(r1, Err(StreamError::StreamNotLive));

    let attempt = s.clone();
    assert!(!attempt.needs_master_fetch());
    // Fresh cycle: a new stream for the same feed.
    let mut retry = Stream::new(
        s.id.clone(),
        s.host.clone(),
        s.sport,
        s.feed_type,
        s.game_date,
        s.selected_date,
    );
    assert!(retry.needs_master_fetch());
    let r2 = retry.resolve_master(Some(Some("https://cdn.example/master.m3u8".to_string())));
    assert_eq!(r2, Ok("https://cdn.example/master.m3u8".to_string()));
}

#[test]
fn error_messages() {
    assert_eq!(StreamError::StreamNotLive.message(), "Stream not available yet");
    assert_eq!(
        StreamError::QualityUnavailable.message(),
        "No stream found matching quality specified"
    );
    assert_eq!(StreamError::ManifestMalformed.message(), "Failed to get master m3u8");
    assert_eq!(StreamError::UnknownTeam.message(), "Team abbreviation does not exist");
}
