use wallpaper_dl::config::WallpaperEntry;
use wallpaper_dl::placement::Filedown;
use wallpaper_dl::store::WallpaperDb;

fn entry(source: &str, file: &str) -> WallpaperEntry {
    WallpaperEntry::new(source.to_string(), file.to_string())
}

#[test]
fn same_bytes_from_two_sources_make_one_entry() {
    let mut db = WallpaperDb::new();
    assert_eq!(db.len(), 0);
    let h1 = db.record(b"same bytes", "https://a.example/1", "a.example/1-x.png");
    assert_eq!(db.len(), 1);
    let h2 = db.record(b"same bytes", "https://b.example/2", "b.example/2-y.png");
    assert_eq!(h1, h2);
    assert_eq!(h1, Filedown::hash(b"same bytes"));
    assert_eq!(db.len(), 1);
    let e = db.get(&h1).unwrap();
    assert_eq!(e.source, "https://b.example/2");
    assert_eq!(e.file, "b.example/2-y.png");
    assert!(!db.has_source("https://a.example/1"));
    assert!(db.has_source("https://b.example/2"));
}

#[test]
fn different_bytes_make_different_entries() {
    let mut db = WallpaperDb::new();
    let h1 = db.record(b"one", "https://a.example/1", "f1");
    let h2 = db.record(b"two", "https://a.example/1", "f2");
    assert_ne!(h1, h2);
    assert_eq!(db.len(), 2);
    assert_eq!(db.get(&h1).unwrap().file, "f1");
    assert_eq!(db.get(&h2).unwrap().file, "f2");
    assert!(db.get("no such hash").is_none());
}

#[test]
fn lookups_by_source_and_file() {
    let mut db = WallpaperDb::new();
    db.insert("h1".to_string(), entry("https://a.example/1", "a/1.png"));
    db.insert("h2".to_string(), entry("https://a.example/2", "a/2.png"));
    assert_eq!(db.find_source("https://a.example/2").as_deref(), Some("h2"));
    assert_eq!(db.find_source("https://a.example/3"), None);
    assert_eq!(db.find_file("a/1.png").as_deref(), Some("h1"));
    assert_eq!(db.find_file("a/3.png"), None);
    assert!(db.has_source("https://a.example/1"));
    assert!(!db.has_source("https://a.example/"));
    db.insert("h1".to_string(), entry("https://c.example/9", "c/9.png"));
    assert_eq!(db.len(), 2);
    assert_eq!(db.find_source("https://a.example/1"), None);
    assert_eq!(db.find_file("c/9.png").as_deref(), Some("h1"));
}

#[test]
fn lines_round_trip_and_later_lines_win() {
    let lines = vec![
        ("h1".to_string(), entry("s1", "f1")),
        ("h2".to_string(), entry("s2", "f2")),
        ("h1".to_string(), entry("s3", "f3")),
    ];
    let db = WallpaperDb::from_lines(&lines);
    assert_eq!(db.len(), 2);
    assert_eq!(db.get("h1").unwrap().source, "s3");
    assert_eq!(db.get("h2").unwrap().file, "f2");
    let out = db.to_lines();
    assert_eq!(out.len(), 2);
    let again = WallpaperDb::from_lines(&out);
    assert_eq!(again.len(), 2);
    assert_eq!(again.get("h1").unwrap().file, "f3");
    assert_eq!(entry("s", "f").duplicate().source, "s");
}
