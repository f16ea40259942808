use wallpaper_dl::errors::DownloaderError;
use wallpaper_dl::link::Link;

#[test]
fn parse_reads_the_parts() {
    let l = Link::parse("HTTPS://Wallhaven.cc/w/abc123?x=1#top").unwrap();
    assert_eq!(l.as_str(), "https://wallhaven.cc/w/abc123?x=1#top");
    assert_eq!(l.host_str(), Some("wallhaven.cc"));
    assert_eq!(l.path(), "/w/abc123");
    assert_eq!(l.query(), Some("x=1"));
    let l = Link::parse("https://example.com").unwrap();
    assert_eq!(l.as_str(), "https://example.com/");
    assert_eq!(l.path(), "/");
    assert_eq!(l.query(), None);
    let l = Link::parse("unix:/run/foo.socket").unwrap();
    assert_eq!(l.host_str(), None);
}

#[test]
fn parse_refuses_what_is_no_url() {
    assert!(matches!(
        Link::parse("wallhaven.cc/w/abc123"),
        Err(DownloaderError::ParseError(m)) if m == "relative URL without a base"
    ));
    assert!(matches!(Link::parse("https://"), Err(DownloaderError::ParseError(m)) if m == "empty host"));
    assert!(Link::parse("").is_err());
}

#[test]
fn with_path_replaces_the_path_only() {
    let l = Link::parse("https://example.com/api?page=2#f").unwrap();
    let m = l.with_path("/data/some report.csv").unwrap();
    assert_eq!(m.as_str(), "https://example.com/data/some%20report.csv?page=2#f");
    assert_eq!(m.path(), "/data/some%20report.csv");
    assert_eq!(m.query(), Some("page=2"));
    assert_eq!(m.host_str(), Some("example.com"));
    assert_eq!(l.as_str(), "https://example.com/api?page=2#f");
}

#[test]
fn copies_keep_every_part() {
    let l = Link::parse("https://example.com/a?b=c").unwrap();
    let c = l.duplicate();
    assert_eq!(c.as_str(), "https://example.com/a?b=c");
    assert_eq!(c.host_str(), Some("example.com"));
    assert_eq!(c.path(), "/a");
    assert_eq!(c.query(), Some("b=c"));
}

#[test]
fn with_path_hands_back_what_a_reading_of_the_new_text_finds() {
    let l = Link::parse("foo:/bar").unwrap();
    let m = l.with_path("//evil/x").unwrap();
    let fresh = Link::parse(m.as_str()).unwrap();
    assert_eq!(m.as_str(), fresh.as_str());
    assert_eq!(m.host_str(), fresh.host_str());
    assert_eq!(m.path(), fresh.path());
    assert_eq!(m.query(), fresh.query());
    let l = Link::parse("foo:bar").unwrap();
    let m = l.with_path("a?b").unwrap();
    let fresh = Link::parse(m.as_str()).unwrap();
    assert_eq!(m.as_str(), fresh.as_str());
    assert_eq!(m.path(), fresh.path());
    assert_eq!(m.query(), fresh.query());
    assert_eq!(m.host_str(), fresh.host_str());
}
