use wallpaper_dl::downloaders::alphacoders::{Alphacoders, ArtAbyss, ImageAbyss, WallpaperAbyss};
use wallpaper_dl::downloaders::artstation::{ArtStation, Asset};
use wallpaper_dl::downloaders::danbooru::{Danbooru, DanbooruApi};
use wallpaper_dl::downloaders::wallhaven::Wallhaven;
use wallpaper_dl::downloaders::{
    from_url, resolve, Backend, Downloader, Field, Site, Urls, WallpaperMeta, Wrapper,
};
use wallpaper_dl::errors::DownloaderError;
use wallpaper_dl::extractors::{
    first_value, found_or_error, src_tag_attr, src_tag_inner, CssSelector, Page, SelectAttr,
};
use wallpaper_dl::link::Link;

fn page(html: &str) -> Page {
    Page::parse(html.to_string())
}

fn link(text: &str) -> Link {
    Link::parse(text).unwrap()
}

fn texts(links: &[Link]) -> Vec<String> {
    links.iter().map(|l| l.as_str().to_string()).collect()
}

const WALL_PAGE: &str = r#"<html><head><title>Page</title></head><body>
<img id="main-content" title="Misty Forest" src="https://images.example/thumb.jpg">
<a id="wallpaper_123456_download_button" href="https://initiate.alphacoders.com/download/123456.png">Download</a>
<a id="wallpaper_999_download_button" href="https://initiate.alphacoders.com/download/999.png">Other</a>
</body></html>"#;

const ART_PAGE: &str = r#"<html><body>
<img class="img-responsive" title="Inked" src="x.jpg">
<img class="img-responsive" title="Second" src="y.jpg">
<a id="art_77_download_button" href="https://art.example/full/77.jpg">Download</a>
<a id="picture_88_download_button" href="https://pics.example/full/88.jpg">Download</a>
</body></html>"#;

#[test]
fn every_supported_host_has_its_site() {
    assert!(matches!(resolve("wallhaven.cc"), Ok(Site::Wallhaven)));
    assert!(matches!(resolve("wall.alphacoders.com"), Ok(Site::WallpaperAbyss)));
    assert!(matches!(resolve("art.alphacoders.com"), Ok(Site::ArtAbyss)));
    assert!(matches!(resolve("pics.alphacoders.com"), Ok(Site::ImageAbyss)));
    assert!(matches!(resolve("artstation.com"), Ok(Site::ArtStation)));
    assert!(matches!(resolve("www.artstation.com"), Ok(Site::ArtStation)));
    assert!(matches!(resolve("www.wallhaven.cc"), Ok(Site::Wallhaven)));
}

#[test]
fn site_hosts_route_to_themselves() {
    let sites = [Site::Wallhaven, Site::WallpaperAbyss, Site::ArtAbyss, Site::ImageAbyss, Site::ArtStation];
    for site in sites {
        assert_eq!(resolve(site.host()).ok(), Some(site));
    }
}

#[test]
fn other_hosts_are_unsupported() {
    for host in ["example.com", "", "alphacoders.com", "notwallhaven.cc", "wallhaven.cc.evil.org", "cc", "xartstation.com", "wallhaven.c"] {
        assert!(matches!(resolve(host), Err(DownloaderError::Unsupported)), "{}", host);
    }
}

#[test]
fn unsupported_url_is_told_apart_from_failures() {
    let r = from_url(link("https://example.com/post/1"));
    assert!(matches!(&r, Err(DownloaderError::Unsupported)));
    assert!(r.unwrap_err().is_unsupported());
    assert!(matches!(from_url(link("data:text/plain,Stuff")), Err(DownloaderError::Unsupported)));
}

#[test]
fn wallhaven_request_goes_to_the_api() {
    let r = from_url(link("https://wallhaven.cc/w/abc123")).unwrap();
    assert_eq!(r.site, Site::Wallhaven);
    assert_eq!(r.post.as_str(), "https://wallhaven.cc/w/abc123");
    assert_eq!(r.endpoint.as_str(), "https://wallhaven.cc/api/v1/w/abc123");
    assert_eq!(r.endpoint.path(), "/api/v1/w/abc123");
    assert_eq!(r.endpoint.host_str(), Some("wallhaven.cc"));
    assert_eq!(r.id, None);
}

#[test]
fn artstation_request_goes_to_the_project_record() {
    let r = from_url(link("https://www.artstation.com/artwork/Xn3Yz?ref=x")).unwrap();
    assert_eq!(r.site, Site::ArtStation);
    assert_eq!(r.endpoint.as_str(), "https://www.artstation.com/projects/Xn3Yz.json?ref=x");
    assert_eq!(r.id, None);
    let r = from_url(link("https://artstation.com/other/Xn3Yz")).unwrap();
    assert_eq!(r.endpoint.path(), "/other/Xn3Yz.json");
}

#[test]
fn alphacoders_requests_fetch_the_page_and_tell_the_id() {
    let r = from_url(link("https://wall.alphacoders.com/big.php?i=123456")).unwrap();
    assert_eq!(r.site, Site::WallpaperAbyss);
    assert_eq!(r.endpoint.as_str(), "https://wall.alphacoders.com/big.php?i=123456");
    assert_eq!(r.id.as_deref(), Some("123456"));
    let r = from_url(link("https://art.alphacoders.com/arts/view/77")).unwrap();
    assert_eq!(r.site, Site::ArtAbyss);
    assert_eq!(r.id.as_deref(), Some("77"));
    let r = from_url(link("https://pics.alphacoders.com/pictures/view/88")).unwrap();
    assert_eq!(r.site, Site::ImageAbyss);
    assert_eq!(r.id.as_deref(), Some("88"));
    assert_eq!(r.endpoint.as_str(), r.post.as_str());
}

#[test]
fn wallpaper_abyss_needs_a_query() {
    let r = from_url(link("https://wall.alphacoders.com/big.php"));
    assert!(matches!(r, Err(DownloaderError::ParseError(m)) if m == "URL Query did not match pattern"));
    let r = WallpaperAbyss::new(WALL_PAGE.to_string(), &link("https://wall.alphacoders.com/big.php"));
    assert!(matches!(r, Err(DownloaderError::ParseError(m)) if m == "URL Query did not match pattern"));
}

#[test]
fn wallhaven_adapter() {
    let w = Wallhaven::new(
        "abc123".to_string(),
        link("https://w.wallhaven.cc/full/ab/wallhaven-abc123.jpg"),
        vec!["forest".to_string(), "4k".to_string()],
    );
    assert_eq!(w.image_id(), "abc123");
    assert!(matches!(w.image_title(), Field::Absent));
    assert!(matches!(w.image_tags(), Field::Present(t) if t == vec!["forest", "4k"]));
    let urls = w.image_url().unwrap();
    assert!(urls.is_single());
    assert_eq!(texts(&urls.to_vec()), vec!["https://w.wallhaven.cc/full/ab/wallhaven-abc123.jpg"]);
    let meta = WallpaperMeta::try_from(&w).unwrap();
    assert_eq!(meta.id, "abc123");
    assert_eq!(meta.title, None);
    assert_eq!(meta.tags, Some(vec!["forest".to_string(), "4k".to_string()]));
    assert_eq!(texts(&meta.images), vec!["https://w.wallhaven.cc/full/ab/wallhaven-abc123.jpg"]);
}

fn asset(url: &str, kind: &str) -> Asset {
    Asset { image_url: url.to_string(), asset_type: kind.to_string() }
}

#[test]
fn artstation_lists_pictures_in_full_size() {
    let a = ArtStation::new(
        "Xn3Yz".to_string(),
        vec![
            asset("https://cdn.artstation.com/p/assets/images/large/1.jpg", "image"),
            asset("https://cdn.artstation.com/p/assets/covers/large/c.jpg", "cover"),
            asset("https://cdn.artstation.com/p/assets/images/large/2.jpg", "image"),
            asset("https://www.youtube.com/embed/x", "video"),
            asset("not a url", "image"),
            asset("https://cdn.artstation.com/p/assets/images/large/3.jpg", "image"),
        ],
    );
    assert_eq!(a.image_id(), "Xn3Yz");
    let urls = a.image_url().unwrap();
    assert!(!urls.is_single());
    assert_eq!(
        texts(&urls.into_vec()),
        vec![
            "https://cdn.artstation.com/p/assets/images/4k/1.jpg",
            "https://cdn.artstation.com/p/assets/images/4k/2.jpg",
            "https://cdn.artstation.com/p/assets/images/4k/3.jpg",
        ]
    );
    let meta = WallpaperMeta::try_from(&a).unwrap();
    assert_eq!(meta.images.len(), 3);
    assert_eq!(meta.title, None);
    assert_eq!(meta.tags, None);
}

#[test]
fn post_without_images_has_no_metadata() {
    let a = ArtStation::new("e".to_string(), vec![asset("https://x.example/large/v", "video")]);
    assert!(matches!(a.image_url(), Ok(Urls::Multi(v)) if v.is_empty()));
    assert!(matches!(WallpaperMeta::try_from(&a), Err(DownloaderError::Other)));
    let a = ArtStation::new("e".to_string(), vec![]);
    assert!(matches!(WallpaperMeta::try_from(&a), Err(DownloaderError::Other)));
}

#[test]
fn urls_single_and_multi() {
    let one = Urls::from(link("https://a.example/1"));
    assert!(one.is_single());
    assert_eq!(texts(&one.to_vec()), vec!["https://a.example/1"]);
    assert_eq!(texts(&one.into_vec()), vec!["https://a.example/1"]);
    assert!(Urls::Multi(vec![]).is_single());
    assert!(Urls::Multi(vec![link("https://a.example/1")]).is_single());
    let two = Urls::Multi(vec![link("https://a.example/1"), link("https://a.example/2")]);
    assert!(!two.is_single());
    assert_eq!(texts(&two.to_vec()), vec!["https://a.example/1", "https://a.example/2"]);
}

#[test]
fn wallpaper_abyss_reads_its_page() {
    let url = link("https://wall.alphacoders.com/big.php?i=123456");
    let site = WallpaperAbyss::new(WALL_PAGE.to_string(), &url).unwrap();
    assert_eq!(site.image_id(), "123456");
    assert_eq!(
        texts(&site.image_url().unwrap().into_vec()),
        vec!["https://initiate.alphacoders.com/download/123456.png"]
    );
    assert!(matches!(site.image_title(), Field::Present(t) if t == "Misty Forest"));
    assert!(matches!(site.image_tags(), Field::Absent));
    let meta = WallpaperMeta::try_from(&site).unwrap();
    assert_eq!(meta.id, "123456");
    assert_eq!(meta.title.as_deref(), Some("Misty Forest"));
    assert_eq!(meta.tags, None);
}

#[test]
fn art_and_image_abyss_read_their_pages() {
    let art = ArtAbyss::new(ART_PAGE.to_string(), &link("https://art.alphacoders.com/arts/view/77")).unwrap();
    assert_eq!(art.image_id(), "77");
    assert_eq!(texts(&art.image_url().unwrap().into_vec()), vec!["https://art.example/full/77.jpg"]);
    assert!(matches!(art.image_title(), Field::Present(t) if t == "Inked"));
    let pic =
        ImageAbyss::new(ART_PAGE.to_string(), &link("https://pics.alphacoders.com/pictures/view/88")).unwrap();
    assert_eq!(pic.image_id(), "88");
    assert_eq!(texts(&pic.image_url().unwrap().into_vec()), vec!["https://pics.example/full/88.jpg"]);
    let backend = Backend::ImageAbyss(pic);
    assert_eq!(backend.site(), Site::ImageAbyss);
    assert_eq!(backend.image_id(), "88");
    assert_eq!(WallpaperMeta::try_from(&backend).unwrap().title.as_deref(), Some("Inked"));
}

#[test]
fn missing_download_button_fails_the_post_and_missing_title_does_not() {
    let url = link("https://wall.alphacoders.com/big.php?i=5");
    let site = WallpaperAbyss::new(WALL_PAGE.to_string(), &url).unwrap();
    assert!(matches!(
        site.image_url(),
        Err(DownloaderError::ParseError(m)) if m == "HTML element or attribute not found."
    ));
    assert!(matches!(WallpaperMeta::try_from(&site), Err(DownloaderError::ParseError(_))));
    let page = r#"<a id="wallpaper_5_download_button" href="https://x.example/5.png">d</a>"#;
    let site = WallpaperAbyss::new(page.to_string(), &url).unwrap();
    assert!(matches!(site.image_title(), Field::Failed(DownloaderError::ParseError(_))));
    let meta = WallpaperMeta::try_from(&site).unwrap();
    assert_eq!(meta.title, None);
    assert_eq!(texts(&meta.images), vec!["https://x.example/5.png"]);
}

#[test]
fn download_link_that_is_no_url_is_a_parse_error() {
    let page = r#"<a id="wallpaper_5_download_button" href="/relative/5.png">d</a>"#;
    let site = WallpaperAbyss::new(page.to_string(), &link("https://wall.alphacoders.com/big.php?i=5")).unwrap();
    assert!(matches!(
        site.image_url(),
        Err(DownloaderError::ParseError(m)) if m == "relative URL without a base"
    ));
}

#[test]
fn malformed_selector_fails_construction() {
    let r = Alphacoders::new(String::new(), "12".to_string(), "wallpaper", "img#main-content");
    assert!(r.is_ok());
    let r = Alphacoders::new(String::new(), "1 2".to_string(), "wallpaper", "img#main-content");
    assert!(matches!(r, Err(DownloaderError::ParseError(_))));
    let r = Alphacoders::new(String::new(), "1>>".to_string(), "wallpaper", "img#main-content");
    assert!(matches!(r, Err(DownloaderError::ParseError(_))));
    let r = Alphacoders::new(String::new(), "1".to_string(), "wallpaper", "img[");
    assert!(matches!(r, Err(DownloaderError::ParseError(_))));
    assert!(matches!(SelectAttr::parse("a#x[", "href"), Err(DownloaderError::ParseError(_))));
}

#[test]
fn extraction_takes_the_first_match() {
    let wall = page(WALL_PAGE);
    assert_eq!(wall.html(), WALL_PAGE);
    let rule = SelectAttr::parse("a", "href").unwrap();
    assert_eq!(rule.select.css(), "a");
    assert_eq!(rule.extract(&wall).unwrap(), "https://initiate.alphacoders.com/download/123456.png");
    assert_eq!(
        src_tag_attr(&wall, &rule).as_deref(),
        Some("https://initiate.alphacoders.com/download/123456.png")
    );
    let rule = SelectAttr::parse("img#main-content", "alt").unwrap();
    assert!(matches!(rule.extract(&wall), Err(DownloaderError::ParseError(_))));
    assert_eq!(src_tag_attr(&wall, &rule), None);
    let rule = SelectAttr::parse("video", "src").unwrap();
    assert_eq!(src_tag_attr(&wall, &rule), None);
    assert_eq!(src_tag_inner(&wall, &CssSelector::parse("title").unwrap()).as_deref(), Some("Page"));
    assert_eq!(src_tag_inner(&wall, &CssSelector::parse("video").unwrap()), None);
    assert!(matches!(CssSelector::parse("a["), Err(DownloaderError::ParseError(_))));
    assert_eq!(found_or_error(Some("v".to_string())).unwrap(), "v");
    assert!(matches!(found_or_error(None), Err(DownloaderError::ParseError(_))));
}

#[test]
fn a_first_match_without_the_attribute_gives_nothing() {
    let html = page(r#"<p><a name="first">one</a><a href="https://x.example/2">two</a></p>"#);
    let rule = SelectAttr::parse("a", "href").unwrap();
    assert_eq!(src_tag_attr(&html, &rule), None);
    assert!(rule.extract(&html).is_err());
    let rule = SelectAttr::parse("a[href]", "href").unwrap();
    assert_eq!(src_tag_attr(&html, &rule).as_deref(), Some("https://x.example/2"));
    assert_eq!(src_tag_inner(&html, &CssSelector::parse("a").unwrap()).as_deref(), Some("one"));
    assert_eq!(first_value(&vec![None, Some("b".to_string())]), None);
    assert_eq!(first_value(&vec![Some("a".to_string()), Some("b".to_string())]).as_deref(), Some("a"));
    assert_eq!(first_value(&Vec::new()), None);
}

#[test]
fn wrapper_reads_links_and_titles() {
    let rule = SelectAttr::parse("a#wallpaper_999_download_button", "href").unwrap();
    let wall = page(WALL_PAGE);
    assert_eq!(
        Wrapper::image_url(&wall, &rule).unwrap().as_str(),
        "https://initiate.alphacoders.com/download/999.png"
    );
    let rule = SelectAttr::parse("img#main-content", "title").unwrap();
    assert_eq!(Wrapper::image_title(&wall, &rule).unwrap(), "Misty Forest");
    assert!(Wrapper::image_url(&wall, &rule).is_err());
}

#[test]
fn danbooru_record() {
    assert_eq!(Danbooru::api_path("/posts/123"), "/posts/123.json");
    let d = Danbooru::new(DanbooruApi { id: 4096, file_url: link("https://cdn.example/f.png") });
    assert_eq!(d.image_id(), "4096");
    assert_eq!(texts(&d.image_url().unwrap().into_vec()), vec!["https://cdn.example/f.png"]);
    let d = Danbooru::new(DanbooruApi { id: 0, file_url: link("https://cdn.example/f.png") });
    assert_eq!(d.id, "0");
    let d = Danbooru::new(DanbooruApi { id: u32::MAX, file_url: link("https://cdn.example/f.png") });
    assert_eq!(d.id, "4294967295");
}
