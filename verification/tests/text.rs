use wallpaper_dl::text::{
    chars_of, ends_with, push_decimal, rewrite_all, same_text, string_of,
    string_of_range, swap_prefix, without_prefix,
};

#[test]
fn chars_round_trip() {
    let v = chars_of("wall–paper");
    assert_eq!(v.len(), 10);
    assert_eq!(string_of(&v), "wall–paper");
    assert_eq!(string_of_range(&v, 5, 10), "paper");
    assert_eq!(string_of_range(&v, 3, 3), "");
}

#[test]
fn same_text_tells_texts_apart() {
    assert!(same_text("image/png", "image/png"));
    assert!(!same_text("image/png", "image/pn"));
    assert!(!same_text("image/png", "image/pnG"));
    assert!(same_text("", ""));
}

#[test]
fn rewrite_all_replaces_every_occurrence() {
    assert_eq!(
        rewrite_all("https://cdn.example/large/a/large/b.jpg", "/large/", "/4k/"),
        "https://cdn.example/4k/a/4k/b.jpg"
    );
    assert_eq!(rewrite_all("aaaa", "aa", "b"), "bb");
    assert_eq!(rewrite_all("aaa", "aa", "b"), "ba");
    assert_eq!(rewrite_all("abc", "x", "y"), "abc");
    assert_eq!(rewrite_all("abc", "", "y"), "abc");
    assert_eq!(rewrite_all("", "a", "y"), "");
    assert_eq!(rewrite_all("abc", "abc", ""), "");
}

#[test]
fn rewrite_all_agrees_with_std_on_non_empty_patterns() {
    let cases = [
        ("/large/x/large/", "/large/", "/4k/"),
        ("i=12&i=13", "i=", ""),
        ("ababab", "aba", "-"),
        ("äöü/large/ß", "/large/", "/4k/"),
    ];
    for (s, from, to) in cases {
        assert_eq!(rewrite_all(s, from, to), s.replace(from, to));
    }
}

#[test]
fn prefixes_are_swapped_only_at_the_start() {
    assert_eq!(swap_prefix("/artwork/abc", "/artwork/", "/projects/"), "/projects/abc");
    assert_eq!(swap_prefix("/x/artwork/abc", "/artwork/", "/projects/"), "/x/artwork/abc");
    assert_eq!(without_prefix("/arts/view/123", "/arts/view/"), "123");
    assert_eq!(without_prefix("/arts/view/1/arts/view/2", "/arts/view/"), "1/arts/view/2");
    assert_eq!(without_prefix("/other/123", "/arts/view/"), "/other/123");
    assert_eq!(without_prefix("i=55", "i="), "55");
}

#[test]
fn ends_with_tells_suffixes() {
    assert!(ends_with("www.artstation.com", ".artstation.com"));
    assert!(!ends_with("artstation.com", ".artstation.com"));
    assert!(ends_with("abc", ""));
}

#[test]
fn decimal_is_written_without_leading_zeros() {
    let mut s = String::from("n=");
    push_decimal(&mut s, 0);
    assert_eq!(s, "n=0");
    let mut s = String::new();
    push_decimal(&mut s, 10);
    assert_eq!(s, "10");
    let mut s = String::new();
    push_decimal(&mut s, 18446744073709551615);
    assert_eq!(s, "18446744073709551615");
    let mut s = String::new();
    push_decimal(&mut s, 4096);
    assert_eq!(s, "4096");
}
