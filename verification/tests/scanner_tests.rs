use hoshinova::config::ChannelConfig;
use hoshinova::pattern::Pattern;
use hoshinova::scanner::{poll_cycle, FeedItem, PollInput, Scanner};

fn channel(patterns: &[&str], match_description: bool) -> ChannelConfig {
    let mut cfg = ChannelConfig::default();
    cfg.id = "UC123".to_string();
    cfg.name = "Test Channel".to_string();
    cfg.filters = patterns.iter().map(|p| Pattern { raw: p.to_string() }).collect();
    cfg.match_description = match_description;
    cfg.outpath = "./downloads".to_string();
    cfg.picture_url = Some("http://example.com/pic.jpg".to_string());
    cfg
}

fn item(id: &str, title: &str, published: u64) -> FeedItem {
    FeedItem {
        video_id: id.to_string(),
        title: title.to_string(),
        description: String::new(),
        published,
        thumbnail: format!("http://example.com/{}.jpg", id),
    }
}

const HOUR: u64 = 60 * 60;
const NOW: u64 = 1_000_000_000;

#[test]
fn test_age_and_match_filters() {
    // Pattern `(?i)live`, ignore-older-than 24h; an item 1h old titled
    // "LIVE now" and one 48h old titled "Live replay": only the first
    // becomes a candidate.
    let mut scanner = Scanner::new(channel(&["(?i)live"], false));
    let items = vec![
        item("fresh1", "LIVE now", NOW - HOUR),
        item("stale1", "Live replay", NOW - 48 * HOUR),
    ];
    let out = scanner.tick(NOW, 24 * HOUR, &items, None);
    assert_eq!(out.len(), 1);
    assert_eq!(out[0].video_id, "fresh1");
    assert_eq!(out[0].title, "LIVE now");
    assert_eq!(out[0].channel_id, "UC123");
    assert_eq!(out[0].channel_name, "Test Channel");
    assert_eq!(out[0].channel_picture.as_deref(), Some("http://example.com/pic.jpg"));
    assert_eq!(out[0].video_picture, "http://example.com/fresh1.jpg");
    assert_eq!(out[0].output_directory, "./downloads");
}

#[test]
fn test_age_boundary_is_exclusive() {
    let mut scanner = Scanner::new(channel(&["."], false));
    let items = vec![
        item("onedge", "a", NOW - 24 * HOUR),  // exactly at now - cutoff: discarded
        item("inside", "b", NOW - 24 * HOUR + 1),
    ];
    let out = scanner.tick(NOW, 24 * HOUR, &items, None);
    assert_eq!(out.len(), 1);
    assert_eq!(out[0].video_id, "inside");
}

#[test]
fn test_seen_identity_never_reemitted() {
    let mut scanner = Scanner::new(channel(&["."], false));
    let items = vec![item("v1", "something", NOW - HOUR)];
    let out = scanner.tick(NOW, 24 * HOUR, &items, None);
    assert_eq!(out.len(), 1);
    // The same feed on a later tick of the same run emits nothing.
    let out = scanner.tick(NOW + 60, 24 * HOUR, &items, None);
    assert!(out.is_empty());
}

#[test]
fn test_duplicate_identity_within_one_feed() {
    let mut scanner = Scanner::new(channel(&["."], false));
    let items = vec![item("v1", "first", NOW - HOUR), item("v1", "second", NOW - HOUR)];
    let out = scanner.tick(NOW, 24 * HOUR, &items, None);
    assert_eq!(out.len(), 1);
    assert_eq!(out[0].title, "first");
}

#[test]
fn test_description_matching_or() {
    let mut with_desc = item("vd", "no hit here", NOW - HOUR);
    with_desc.description = "going live tonight".to_string();

    // Description matching off: the title decides alone.
    let mut scanner = Scanner::new(channel(&["live"], false));
    let out = scanner.tick(NOW, 24 * HOUR, &vec![with_desc.clone()], None);
    assert!(out.is_empty());

    // Description matching on: a description hit suffices.
    let mut scanner = Scanner::new(channel(&["live"], true));
    let out = scanner.tick(NOW, 24 * HOUR, &vec![with_desc], None);
    assert_eq!(out.len(), 1);
}

#[test]
fn test_invalid_pattern_matches_nothing() {
    let p = Pattern { raw: "(".to_string() };
    assert!(!p.is_valid());
    assert!(!p.is_match("anything ( anything"));
    let p = Pattern { raw: "(?i)live".to_string() };
    assert!(p.is_valid());
    assert!(p.is_match("LIVE"));
    assert!(!p.is_match("replay"));
}

#[test]
fn test_picture_cached_after_first_emission() {
    let mut cfg = channel(&["."], false);
    cfg.picture_url = None;
    let mut scanner = Scanner::new(cfg);
    let items = vec![item("v1", "a", NOW - HOUR)];
    let out = scanner.tick(NOW, 24 * HOUR, &items, Some("http://example.com/looked-up.jpg".to_string()));
    assert_eq!(out.len(), 1);
    assert_eq!(out[0].channel_picture.as_deref(), Some("http://example.com/looked-up.jpg"));
    // Cached for reuse by later ticks.
    assert_eq!(scanner.config.picture_url.as_deref(), Some("http://example.com/looked-up.jpg"));
}

#[test]
fn test_fetch_failure_isolated_between_sources() {
    // Source A's fetch fails; source B's candidates in the same cycle are
    // neither delayed nor dropped.
    let a = Scanner::new(channel(&["."], false));
    let b = Scanner::new(channel(&["."], false));
    let mut scanners = vec![a, b];
    let inputs = vec![
        PollInput { fetched: None, fetched_picture: None },
        PollInput {
            fetched: Some(vec![item("bvid", "b stream", NOW - HOUR)]),
            fetched_picture: None,
        },
    ];
    let out = poll_cycle(&mut scanners, inputs, NOW, 24 * HOUR);
    assert_eq!(out.len(), 1);
    assert_eq!(out[0].video_id, "bvid");
}

#[test]
fn test_cycle_emits_in_source_order() {
    let a = Scanner::new(channel(&["."], false));
    let b = Scanner::new(channel(&["."], false));
    let mut scanners = vec![a, b];
    let inputs = vec![
        PollInput {
            fetched: Some(vec![item("a1", "x", NOW - HOUR), item("a2", "y", NOW - HOUR)]),
            fetched_picture: None,
        },
        PollInput {
            fetched: Some(vec![item("b1", "z", NOW - HOUR)]),
            fetched_picture: None,
        },
    ];
    let out = poll_cycle(&mut scanners, inputs, NOW, 24 * HOUR);
    let ids: Vec<&str> = out.iter().map(|t| t.video_id.as_str()).collect();
    assert_eq!(ids, vec!["a1", "a2", "b1"]);
}
