use std::path::Path;
use wallpaper_dl::config::{Config, Genre, GenreTable, Sort};
use wallpaper_dl::downloaders::WallpaperMeta;
use wallpaper_dl::link::Link;
use wallpaper_dl::naming::Fetched;
use wallpaper_dl::placement::Filedown;

fn strings(items: &[&str]) -> Vec<String> {
    items.iter().map(|s| s.to_string()).collect()
}

fn genre(name: &str, keywords: &[&str]) -> Genre {
    Genre { name: name.to_string(), keywords: strings(keywords) }
}

fn by_genre(table: Vec<Genre>) -> Config {
    let mut conf = Config::new("/home/me/Pictures".to_string());
    conf.download.sort = Sort::Genres;
    conf.genres = Some(GenreTable::from_rows(table));
    conf
}

fn meta(id: &str, title: Option<&str>, images: usize) -> WallpaperMeta {
    let mut links = Vec::new();
    for i in 0..images {
        links.push(Link::parse(&format!("https://example.com/{}.png", i)).unwrap());
    }
    WallpaperMeta { id: id.to_string(), title: title.map(|t| t.to_string()), images: links, tags: None }
}

#[test]
fn match_genre_counts_keywords_among_tags() {
    let tags = strings(&["4k", "forest", "night"]);
    assert_eq!(Filedown::match_genre(&strings(&["forest", "mountain"]), &tags), 1);
    assert_eq!(Filedown::match_genre(&strings(&["forest", "night", "4k"]), &tags), 3);
    assert_eq!(Filedown::match_genre(&strings(&["Forest"]), &tags), 0);
    assert_eq!(Filedown::match_genre(&strings(&[]), &tags), 0);
    assert_eq!(Filedown::match_genre(&strings(&["forest"]), &strings(&[])), 0);
    assert_eq!(Filedown::match_genre(&strings(&["forest", "forest"]), &tags), 2);
}

#[test]
fn match_genre_does_not_need_sorted_tags() {
    let tags = strings(&["night", "forest", "4k", "forest"]);
    assert_eq!(Filedown::match_genre(&strings(&["forest", "4k"]), &tags), 2);
}

#[test]
fn genre_with_one_match_beats_no_match() {
    let conf = by_genre(vec![genre("nature", &["forest", "mountain"])]);
    let tags = strings(&["forest", "4k"]);
    assert_eq!(Filedown::most_matching_genre(&conf, &tags), Some("nature".to_string()));
    assert_eq!(Filedown::resolve_path(&conf, "wallhaven.cc", &tags), "nature");
}

#[test]
fn first_of_equal_genres_wins() {
    let conf = by_genre(vec![
        genre("city", &["street"]),
        genre("nature", &["forest", "mountain"]),
        genre("woods", &["forest", "tree"]),
        genre("peaks", &["mountain", "forest", "snow"]),
    ]);
    assert_eq!(Filedown::most_matching_genre(&conf, &strings(&["forest"])), Some("nature".to_string()));
    assert_eq!(
        Filedown::most_matching_genre(&conf, &strings(&["forest", "mountain"])),
        Some("nature".to_string())
    );
    assert_eq!(
        Filedown::most_matching_genre(&conf, &strings(&["forest", "mountain", "snow"])),
        Some("peaks".to_string())
    );
    assert_eq!(Filedown::most_matching_genre(&conf, &strings(&["tree"])), Some("woods".to_string()));
}

#[test]
fn genre_choice_is_repeatable() {
    let conf = by_genre(vec![genre("a", &["x", "y"]), genre("b", &["y", "x"])]);
    let tags = strings(&["y", "x"]);
    let first = Filedown::most_matching_genre(&conf, &tags);
    for _ in 0..5 {
        assert_eq!(Filedown::most_matching_genre(&conf, &tags), first);
    }
    assert_eq!(first, Some("a".to_string()));
    assert_eq!(Filedown::most_matching_genre(&conf, &strings(&["x", "y", "x"])), first);
}

#[test]
fn host_is_the_fallback() {
    let tags = strings(&["forest"]);
    let conf = by_genre(vec![genre("city", &["street"])]);
    assert_eq!(Filedown::most_matching_genre(&conf, &tags), None);
    assert_eq!(Filedown::resolve_path(&conf, "wallhaven.cc", &tags), "wallhaven.cc");
    let conf = by_genre(vec![]);
    assert_eq!(Filedown::resolve_path(&conf, "wallhaven.cc", &tags), "wallhaven.cc");
    let mut conf = by_genre(vec![genre("nature", &["forest"])]);
    conf.genres = None;
    assert_eq!(Filedown::resolve_path(&conf, "wallhaven.cc", &tags), "wallhaven.cc");
    let mut conf = by_genre(vec![genre("nature", &["forest"])]);
    conf.download.sort = Sort::Hostname;
    assert_eq!(Filedown::most_matching_genre(&conf, &tags), None);
    assert_eq!(Filedown::resolve_path(&conf, "art.alphacoders.com", &tags), "art.alphacoders.com");
}

#[test]
fn genre_table_keeps_one_line_for_a_name() {
    let mut table = GenreTable::new();
    assert_eq!(table.len(), 0);
    table.insert(genre("nature", &["forest"]));
    table.insert(genre("city", &["street"]));
    table.insert(genre("nature", &["mountain", "lake"]));
    assert_eq!(table.len(), 2);
    assert_eq!(table.rows()[0].name, "nature");
    assert_eq!(table.rows()[0].keywords, vec!["mountain", "lake"]);
    assert_eq!(table.rows()[1].name, "city");
    let table = GenreTable::from_rows(vec![
        genre("a", &["1"]),
        genre("b", &["2"]),
        genre("a", &["3"]),
        genre("c", &[]),
    ]);
    let names: Vec<&str> = table.rows().iter().map(|g| g.name.as_str()).collect();
    assert_eq!(names, vec!["a", "b", "c"]);
    assert_eq!(table.rows()[0].keywords, vec!["3"]);
    let conf = by_genre(vec![genre("a", &["x"]), genre("b", &["x", "y"]), genre("a", &["x", "y", "z"])]);
    assert_eq!(
        Filedown::most_matching_genre(&conf, &strings(&["x", "y", "z"])),
        Some("a".to_string())
    );
}

#[test]
fn extension_table() {
    assert_eq!(Filedown::file_ext(Some("image/bmp")), Some("bmp"));
    assert_eq!(Filedown::file_ext(Some("image/apng")), Some("apng"));
    assert_eq!(Filedown::file_ext(Some("image/png")), Some("png"));
    assert_eq!(Filedown::file_ext(Some("image/jpeg")), Some("jpg"));
    assert_eq!(Filedown::file_ext(Some("image/gif")), Some("gif"));
    assert_eq!(Filedown::file_ext(Some("image/avif")), Some("avif"));
    assert_eq!(Filedown::file_ext(Some("image/webp")), Some("webp"));
    assert_eq!(Filedown::file_ext(Some("text/html")), Some("bin"));
    assert_eq!(Filedown::file_ext(Some("image/png; charset=binary")), Some("bin"));
    assert_eq!(Filedown::file_ext(Some("")), Some("bin"));
    assert_eq!(Filedown::file_ext(None), None);
}

#[test]
fn stem_of_url_paths() {
    assert_eq!(
        Filedown::filename_url_path("/full/ab/wallhaven-abc123.jpg"),
        Some("wallhaven-abc123".to_string())
    );
    assert_eq!(Filedown::filename_url_path("/a/b.tar.gz"), Some("b.tar".to_string()));
    assert_eq!(Filedown::filename_url_path("/a/b/"), Some("b".to_string()));
    assert_eq!(Filedown::filename_url_path("/a/.hidden"), Some(".hidden".to_string()));
    assert_eq!(Filedown::filename_url_path("/a/name."), Some("name".to_string()));
    assert_eq!(Filedown::filename_url_path("/"), None);
    assert_eq!(Filedown::filename_url_path(""), None);
    assert_eq!(Filedown::filename_url_path("/a/.."), None);
    assert_eq!(Filedown::filename_url_path("."), None);
}

#[test]
fn stem_agrees_with_std_paths() {
    let samples = [
        "", "/", "//", ".", "./", "./.", "..", "../", "/..", "/.", "a", "a.", ".a", "a.b", "a.b.c",
        "/a/b.c", "/a/b.c/", "/a/b.c//", "/a/b.c/.", "/a/b.c/./", "/a/b.c/..", "a/./b", "a//b",
        "./a", "a/.b", "a/..b", "a/b..", "a/...", "/x/y/.z.", "..a", "/a/.../b.jpg", "ü/ö.ä",
        "/images/1234/picture.final.jpeg", "/w/abc123", "/big.php", "a/b/./.",
    ];
    for s in samples {
        let expected = Path::new(s).file_stem().and_then(|x| x.to_str()).map(|x| x.to_string());
        assert_eq!(Filedown::filename_url_path(s), expected, "for {:?}", s);
    }
}

#[test]
fn header_file_name() {
    assert_eq!(
        Filedown::filename_content_disposition(Some("attachment; filename=\"yummy dummy.png\"")),
        Some("yummy dummy.png".to_string())
    );
    assert_eq!(
        Filedown::filename_content_disposition(Some("attachment; FILENAME=plain.jpg")),
        Some("plain.jpg".to_string())
    );
    assert_eq!(Filedown::filename_content_disposition(Some("inline")), None);
    assert_eq!(Filedown::filename_content_disposition(Some("")), None);
    assert_eq!(Filedown::filename_content_disposition(None), None);
    assert_eq!(
        Filedown::filename_content_disposition(Some("attachment; name=a; filename=b; size=3")),
        Some("b".to_string())
    );
}

#[test]
fn first_parameter_with_the_key_is_taken() {
    let params = vec![
        ("name".to_string(), "n".to_string()),
        ("filename".to_string(), "first".to_string()),
        ("filename".to_string(), "second".to_string()),
    ];
    assert_eq!(Filedown::param(&params, "filename"), Some("first".to_string()));
    assert_eq!(Filedown::param(&params, "name"), Some("n".to_string()));
    assert_eq!(Filedown::param(&params, "Filename"), None);
    assert_eq!(Filedown::param(&Vec::new(), "filename"), None);
}

#[test]
fn name_fallback_order() {
    let title = "Sunset".to_string();
    let header = "attachment; filename=\"from-header\"";
    assert_eq!(Filedown::file_name(Some(&title), Some(header), "/p/stem.png"), Some("Sunset".to_string()));
    assert_eq!(Filedown::file_name(None, Some(header), "/p/stem.png"), Some("from-header".to_string()));
    assert_eq!(Filedown::file_name(None, Some("inline"), "/p/stem.png"), Some("stem".to_string()));
    assert_eq!(Filedown::file_name(None, None, "/p/stem.png"), Some("stem".to_string()));
    assert_eq!(Filedown::file_name(None, None, "/"), None);
    assert_eq!(Filedown::file_name(None, Some("inline"), ""), None);
    assert_eq!(
        Filedown::pick_name(Some(&title), Some("h".to_string()), "/p/stem.png"),
        Some("Sunset".to_string())
    );
    assert_eq!(Filedown::pick_name(None, Some("h".to_string()), "/p/stem.png"), Some("h".to_string()));
    assert_eq!(Filedown::pick_name(None, None, "/p/stem.png"), Some("stem".to_string()));
    assert_eq!(Filedown::pick_name(None, None, "/p/.."), None);
}

#[test]
fn content_hash_is_blake3_in_hex() {
    assert_eq!(
        Filedown::hash(b""),
        "af1349b9f5f9a1a6a0404dea36dcc9499bcb25c9adc112b7cc9a93cae41f3262"
    );
    assert_eq!(Filedown::hash(b"abc"), Filedown::hash(b"abc"));
    assert_ne!(Filedown::hash(b"abc"), Filedown::hash(b"abd"));
    assert_eq!(Filedown::hash(b"abc").len(), 64);
}

#[test]
fn hash_names_a_file_without_any_other_name() {
    let fetched = Fetched {
        data: b"bytes".to_vec(),
        content_type: None,
        content_disposition: None,
        path: "/".to_string(),
    };
    let (data, name, ext) = Filedown::download_file(&meta("7", None, 1), fetched);
    assert_eq!(data, b"bytes");
    assert_eq!(name, Filedown::hash(b"bytes"));
    assert_eq!(ext, "bin");
}

#[test]
fn download_file_prefers_title_then_header_then_path() {
    let fetched = |disp: Option<&str>| Fetched {
        data: vec![1, 2, 3],
        content_type: Some("image/webp".to_string()),
        content_disposition: disp.map(|d| d.to_string()),
        path: "/files/picture.webp".to_string(),
    };
    let with_title = meta("1", Some("Title"), 1);
    let without = meta("1", None, 1);
    let header = Some("attachment; filename=given.webp");
    let (_, name, ext) = Filedown::download_file(&with_title, fetched(header));
    assert_eq!((name.as_str(), ext.as_str()), ("Title", "webp"));
    let (_, name, _) = Filedown::download_file(&without, fetched(header));
    assert_eq!(name, "given.webp");
    let (_, name, _) = Filedown::download_file(&without, fetched(None));
    assert_eq!(name, "picture");
}

#[test]
fn file_names() {
    let m = meta("abc123", None, 1);
    assert_eq!(Filedown::format_file(&m, "wallhaven-abc123", "jpg", None), "abc123-wallhaven-abc123.jpg");
    assert_eq!(Filedown::format_file(&m, "name", "png", Some(1)), "abc123-name-1.png");
    assert_eq!(Filedown::format_file(&m, "name", "png", Some(12)), "abc123-name-12.png");
    assert_eq!(Filedown::format_file(&m, "", "", None), "abc123-.");
    assert_eq!(Filedown::relative_file("wallhaven.cc", "abc123-x.jpg"), "wallhaven.cc/abc123-x.jpg");
    assert_eq!(Filedown::join("/home/me/Pictures", "a/b.jpg"), "/home/me/Pictures/a/b.jpg");
    assert_eq!(Filedown::join("/home/me/Pictures/", "a/b.jpg"), "/home/me/Pictures/a/b.jpg");
    assert_eq!(Filedown::join("", "a/b.jpg"), "a/b.jpg");
    assert_eq!(Filedown::join("/", "a"), "/a");
}

#[test]
fn files_of_a_post_are_numbered_from_one() {
    assert_eq!(Filedown::counter(1, 0), None);
    assert_eq!(Filedown::counter(2, 0), Some(1));
    assert_eq!(Filedown::counter(2, 1), Some(2));
    let all: Vec<Option<u64>> = (0..5).map(|i| Filedown::counter(5, i)).collect();
    assert_eq!(all, vec![Some(1), Some(2), Some(3), Some(4), Some(5)]);
}
