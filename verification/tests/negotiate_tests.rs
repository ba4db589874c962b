use lazystream::errors::StreamError;
use lazystream::negotiate::{get_quality_link, negotiate};
use lazystream::text::split_lines;
use lazystream::types::Quality;

fn lines_of(texts: &[&str]) -> Vec<String> {
    texts.iter().map(|t| t.to_string()).collect()
}

#[test]
fn negotiate_exact_match() {
    let lines = lines_of(&[
        "#EXT-X-STREAM-INF:RESOLUTION=1280x720,FRAME-RATE=29.97",
        "uri720.m3u8",
        "#EXT-X-STREAM-INF:RESOLUTION=960x540",
        "uri540.m3u8",
    ]);
    let r = negotiate(&lines, Quality::_540p).unwrap();
    assert_eq!(r.quality, Quality::_540p);
    assert_eq!(r.uri, "uri540.m3u8");
}

#[test]
fn negotiate_prefers_highest_at_or_below_request() {
    let lines = lines_of(&[
        "#EXT-X-STREAM-INF:RESOLUTION=960x540",
        "uri540.m3u8",
        "#EXT-X-STREAM-INF:RESOLUTION=640x360",
        "uri360.m3u8",
    ]);
    let r = negotiate(&lines, Quality::_720p).unwrap();
    assert_eq!(r.quality, Quality::_540p);
    assert_eq!(r.uri, "uri540.m3u8");
}

#[test]
fn negotiate_never_upgrades_above_request() {
    // Only a higher tier is present: the contract is "give me at most X",
    // not "give me something".
    let lines = lines_of(&[
        "#EXT-X-STREAM-INF:RESOLUTION=1280x720",
        "uri720.m3u8",
    ]);
    let r = negotiate(&lines, Quality::_540p);
    assert_eq!(r.unwrap_err(), StreamError::QualityUnavailable);
}

#[test]
fn negotiate_lowest_tier_serves_any_higher_request() {
    let lines = lines_of(&[
        "#EXT-X-STREAM-INF:RESOLUTION=384x216",
        "uri216.m3u8",
    ]);
    let r = negotiate(&lines, Quality::_720p60).unwrap();
    assert_eq!(r.quality, Quality::_216p);
    assert_eq!(r.uri, "uri216.m3u8");
}

#[test]
fn negotiate_empty_manifest_fails() {
    let lines: Vec<String> = Vec::new();
    let r = negotiate(&lines, Quality::_720p60);
    assert_eq!(r.unwrap_err(), StreamError::QualityUnavailable);
}

#[test]
fn negotiate_frame_rate_picks_top_tier_only() {
    // Both 720-class lines carry the same numeric bitrate prefix; the
    // frame-rate attribute alone marks the top tier, and the line carrying
    // it must not satisfy any lower tier.
    let lines = lines_of(&[
        "#EXT-X-STREAM-INF:RESOLUTION=1280x720,FRAME-RATE=59.94",
        "uri72060.m3u8",
        "#EXT-X-STREAM-INF:RESOLUTION=1280x720",
        "uri720.m3u8",
    ]);
    let top = negotiate(&lines, Quality::_720p60).unwrap();
    assert_eq!(top.quality, Quality::_720p60);
    assert_eq!(top.uri, "uri72060.m3u8");

    let below = negotiate(&lines, Quality::_720p).unwrap();
    assert_eq!(below.quality, Quality::_720p);
    assert_eq!(below.uri, "uri720.m3u8");
}

#[test]
fn negotiate_marker_on_last_line_fails() {
    // A marker with no following URI line cannot be used.
    let lines = lines_of(&["#EXT-X-STREAM-INF:RESOLUTION=960x540"]);
    let r = negotiate(&lines, Quality::_540p);
    assert_eq!(r.unwrap_err(), StreamError::QualityUnavailable);
}

#[test]
fn quality_link_builds_absolute_url() {
    let manifest = "#EXTM3U\n\
                    #EXT-X-STREAM-INF:RESOLUTION=1280x720\n\
                    uri720.m3u8\n\
                    #EXT-X-STREAM-INF:RESOLUTION=960x540\n\
                    uri540.m3u8\n";
    let master = "http://example.net/dir/master.m3u8";
    let r = get_quality_link(master, manifest, Quality::_540p).unwrap();
    assert_eq!(r, "http://example.net/dir/uri540.m3u8");
}

#[test]
fn quality_link_no_tier_at_or_below_request() {
    let manifest = "#EXTM3U\n\
                    #EXT-X-STREAM-INF:RESOLUTION=1280x720\n\
                    uri720.m3u8\n\
                    #EXT-X-STREAM-INF:RESOLUTION=960x540\n\
                    uri540.m3u8\n";
    let master = "http://example.net/dir/master.m3u8";
    let r = get_quality_link(master, manifest, Quality::_216p);
    assert_eq!(r.unwrap_err(), StreamError::QualityUnavailable);
}

#[test]
fn quality_link_master_without_slash_fails() {
    let manifest = "x540\nuri540.m3u8";
    let r = get_quality_link("no-slash-here", manifest, Quality::_540p);
    assert_eq!(r.unwrap_err(), StreamError::QualityUnavailable);
}

#[test]
fn split_lines_plain() {
    let r = split_lines("a\nb\nc");
    assert_eq!(r, vec!["a".to_string(), "b".to_string(), "c".to_string()]);
}

#[test]
fn split_lines_handles_crlf_and_final_newline() {
    let r = split_lines("a\r\nb\n");
    assert_eq!(r, vec!["a".to_string(), "b".to_string()]);
}

#[test]
fn split_lines_empty_and_blank_lines() {
    assert_eq!(split_lines(""), Vec::<String>::new());
    let r = split_lines("a\n\nb");
    assert_eq!(r, vec!["a".to_string(), "".to_string(), "b".to_string()]);
}
