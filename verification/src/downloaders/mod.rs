//! Site adapters: which site serves a URL, what has to be fetched for a post, and what
//! each site's answer says of the post.

use vstd::prelude::*;
use vstd::string::StringExecFns;
use crate::text::texts;
use crate::errors::{DownloaderError, DownloaderResult, ErrorView};
use crate::extractors::{extracted, first_attr, not_found, text_result, Page, SelectAttr};
use crate::link::{parsed, url_error, Link, LinkView, link_views, repathed, MAX_URL_CHARS};
use crate::text::opt_text;
use crate::text::{ends_with, prefix_swapped, same_text, strip_prefix, swap_prefix, without_prefix};

pub mod alphacoders;
pub mod artstation;
pub mod danbooru;
pub mod wallhaven;

verus! {

/// The sites that have an adapter.
#[derive(Clone, Copy, Debug, PartialEq, Eq, Structural)]
pub enum Site {
    /// wallhaven.cc, through its JSON interface.
    Wallhaven,
    /// wall.alphacoders.com, by reading the post's page.
    WallpaperAbyss,
    /// art.alphacoders.com, by reading the post's page.
    ArtAbyss,
    /// pics.alphacoders.com, by reading the post's page.
    ImageAbyss,
    /// artstation.com, through its JSON interface.
    ArtStation,
}

impl Site {
    /// The host name that the site is known by.
    pub open spec fn pattern(self) -> Seq<char> {
        match self {
            Site::Wallhaven => "wallhaven.cc"@,
            Site::WallpaperAbyss => "wall.alphacoders.com"@,
            Site::ArtAbyss => "art.alphacoders.com"@,
            Site::ImageAbyss => "pics.alphacoders.com"@,
            Site::ArtStation => "artstation.com"@,
        }
    }

    /// The host name that the site is known by.
    pub fn host(self) -> (r: &'static str)
        ensures
            r@ == self.pattern(),
    {
        match self {
            Site::Wallhaven => "wallhaven.cc",
            Site::WallpaperAbyss => "wall.alphacoders.com",
            Site::ArtAbyss => "art.alphacoders.com",
            Site::ImageAbyss => "pics.alphacoders.com",
            Site::ArtStation => "artstation.com",
        }
    }
}

/// True when a site known by `pattern` serves `host`: the host is the pattern itself, or a
/// name below it.
pub open spec fn serves(pattern: Seq<char>, host: Seq<char>) -> bool {
    host == pattern || (seq!['.'] + pattern).is_suffix_of(host)
}

/// The site that serves `host`, if any does.
pub open spec fn site_of(host: Seq<char>) -> Option<Site> {
    if serves(Site::Wallhaven.pattern(), host) {
        Some(Site::Wallhaven)
    } else if serves(Site::WallpaperAbyss.pattern(), host) {
        Some(Site::WallpaperAbyss)
    } else if serves(Site::ArtAbyss.pattern(), host) {
        Some(Site::ArtAbyss)
    } else if serves(Site::ImageAbyss.pattern(), host) {
        Some(Site::ImageAbyss)
    } else if serves(Site::ArtStation.pattern(), host) {
        Some(Site::ArtStation)
    } else {
        None
    }
}

/// A host that a pattern serves ends as the pattern does, character for character.
proof fn lemma_served_tail(pattern: Seq<char>, host: Seq<char>, back: int)
    requires
        serves(pattern, host),
        0 <= back < pattern.len(),
    ensures
        host.len() >= pattern.len(),
        host[host.len() - 1 - back] == pattern[pattern.len() - 1 - back],
{
    if host != pattern {
        let dotted = seq!['.'] + pattern;
        let from = host.len() - dotted.len();
        assert(dotted == host.subrange(from, host.len() as int));
        assert(dotted[dotted.len() - 1 - back] == host.subrange(from, host.len() as int)[dotted.len()
            - 1 - back]);
    }
}

/// The sites' host names do not overlap: no host is served by two sites, so a host is
/// routed to a site exactly when that site's name serves it, whatever the order in which
/// the names are tried.
pub proof fn lemma_one_site_per_host(host: Seq<char>, site: Site)
    ensures
        site_of(host) == Some(site) <==> serves(site.pattern(), host),
{
    reveal_strlit("wallhaven.cc");
    reveal_strlit("wall.alphacoders.com");
    reveal_strlit("art.alphacoders.com");
    reveal_strlit("pics.alphacoders.com");
    reveal_strlit("artstation.com");
    let wh = Site::Wallhaven.pattern();
    let wa = Site::WallpaperAbyss.pattern();
    let aa = Site::ArtAbyss.pattern();
    let ia = Site::ImageAbyss.pattern();
    let st = Site::ArtStation.pattern();
    if serves(wh, host) {
        lemma_served_tail(wh, host, 0);
    }
    if serves(wa, host) {
        lemma_served_tail(wa, host, 0);
        lemma_served_tail(wa, host, 4);
        lemma_served_tail(wa, host, 17);
        lemma_served_tail(wa, host, 18);
    }
    if serves(aa, host) {
        lemma_served_tail(aa, host, 0);
        lemma_served_tail(aa, host, 4);
        lemma_served_tail(aa, host, 17);
        lemma_served_tail(aa, host, 18);
    }
    if serves(ia, host) {
        lemma_served_tail(ia, host, 0);
        lemma_served_tail(ia, host, 4);
        lemma_served_tail(ia, host, 17);
        lemma_served_tail(ia, host, 18);
    }
    if serves(st, host) {
        lemma_served_tail(st, host, 0);
        lemma_served_tail(st, host, 4);
    }
}

/// Each site's own host name is routed to that site.
pub proof fn lemma_own_name_is_served(site: Site)
    ensures
        site_of(site.pattern()) == Some(site),
{
    lemma_one_site_per_host(site.pattern(), site);
}

/// True when the site known by `pattern` serves `host`.
fn is_served(pattern: &str, host: &str) -> (r: bool)
    ensures
        r == serves(pattern@, host@),
{
    if same_text(host, pattern) {
        return true;
    }
    let mut dotted = String::from_str(".");
    proof {
        reveal_strlit(".");
        assert("."@ == seq!['.']);
    }
    dotted.append(pattern);
    ends_with(host, dotted.as_str())
}

/// Finds the site that serves `host`.
pub fn resolve(host: &str) -> (r: DownloaderResult<Site>)
    ensures
        match r {
            Ok(site) => site_of(host@) == Some(site),
            Err(e) => site_of(host@) is None && e@ == ErrorView::Unsupported,
        },
{
    if is_served(Site::Wallhaven.host(), host) {
        Ok(Site::Wallhaven)
    } else if is_served(Site::WallpaperAbyss.host(), host) {
        Ok(Site::WallpaperAbyss)
    } else if is_served(Site::ArtAbyss.host(), host) {
        Ok(Site::ArtAbyss)
    } else if is_served(Site::ImageAbyss.host(), host) {
        Ok(Site::ImageAbyss)
    } else if is_served(Site::ArtStation.host(), host) {
        Ok(Site::ArtStation)
    } else {
        Err(DownloaderError::Unsupported)
    }
}

/// What has to be fetched for a post, and from which site.
#[derive(Debug)]
pub struct Request {
    /// The site that serves the post.
    pub site: Site,
    /// The post's own URL.
    pub post: Link,
    /// The URL to fetch: the post's page, or the site's JSON record of the post.
    pub endpoint: Link,
    /// The post's identifier, where the site tells it by the URL.
    pub id: Option<String>,
}

/// The mathematical value of a [`Request`].
pub struct RequestView {
    pub site: Site,
    pub post: LinkView,
    pub endpoint: LinkView,
    pub id: Option<Seq<char>>,
}

impl View for Request {
    type V = RequestView;

    open spec fn view(&self) -> RequestView {
        RequestView {
            site: self.site,
            post: self.post@,
            endpoint: self.endpoint@,
            id: opt_text(self.id),
        }
    }
}

/// The request in a result, or its error's value.
pub open spec fn request_result(r: DownloaderResult<Request>) -> Result<RequestView, ErrorView> {
    match r {
        Ok(request) => Ok(request@),
        Err(e) => Err(e@),
    }
}

/// The path under which a site with a JSON interface answers for the post at `path`.
pub open spec fn api_path(site: Site, path: Seq<char>) -> Seq<char> {
    match site {
        Site::Wallhaven => "/api/v1"@ + path,
        Site::ArtStation => prefix_swapped(path, "/artwork/"@, "/projects/"@) + ".json"@,
        _ => path,
    }
}

/// The identifier that a post's URL tells, on the sites where it tells one: what follows
/// `i=` in the query, or what follows the site's fixed path prefix.
pub open spec fn post_id(site: Site, url: LinkView) -> Option<Seq<char>> {
    match site {
        Site::WallpaperAbyss => match url.query {
            Some(q) => Some(strip_prefix(q, "i="@)),
            None => None,
        },
        Site::ArtAbyss => Some(strip_prefix(url.path, "/arts/view/"@)),
        Site::ImageAbyss => Some(strip_prefix(url.path, "/pictures/view/"@)),
        _ => None,
    }
}

/// The URL `url` with `path` for its path, where both are of a length that can be handed
/// on.
pub open spec fn bounded_repath(url: LinkView, path: Seq<char>) -> Option<LinkView> {
    if url.text.len() <= MAX_URL_CHARS && path.len() <= MAX_URL_CHARS {
        repathed(url.text, path)
    } else {
        None
    }
}

/// What is reported where a site's JSON address cannot be made of a post's URL.
pub open spec fn no_endpoint() -> ErrorView {
    ErrorView::ParseError("URL could not be rewritten"@)
}

/// What is reported where a post's URL lacks the query that tells its identifier.
pub open spec fn no_query() -> ErrorView {
    ErrorView::ParseError("URL Query did not match pattern"@)
}

/// What has to be fetched for the post at `url`. A URL without a host is served by no
/// site.
pub open spec fn request_for(url: LinkView) -> Result<RequestView, ErrorView> {
    let host = match url.host {
        Some(h) => h,
        None => Seq::<char>::empty(),
    };
    match site_of(host) {
        None => Err(ErrorView::Unsupported),
        Some(site) => match site {
            Site::Wallhaven | Site::ArtStation => match bounded_repath(
                url,
                api_path(site, url.path),
            ) {
                Some(endpoint) => Ok(RequestView { site, post: url, endpoint, id: None }),
                None => Err(no_endpoint()),
            },
            Site::WallpaperAbyss => match url.query {
                Some(q) => Ok(
                    RequestView { site, post: url, endpoint: url, id: post_id(site, url) },
                ),
                None => Err(no_query()),
            },
            Site::ArtAbyss | Site::ImageAbyss => Ok(
                RequestView { site, post: url, endpoint: url, id: post_id(site, url) },
            ),
        },
    }
}

/// The URL shapes of the sites: a post's identifier is what follows `i=` in the query or
/// the site's path prefix, and ArtStation's record of `/artwork/<slug>` lies at
/// `/projects/<slug>.json`.
pub proof fn lemma_url_shapes(url: LinkView, id: Seq<char>)
    ensures
        url.query == Some("i="@ + id) ==> post_id(Site::WallpaperAbyss, url) == Some(id),
        url.path == "/arts/view/"@ + id ==> post_id(Site::ArtAbyss, url) == Some(id),
        url.path == "/pictures/view/"@ + id ==> post_id(Site::ImageAbyss, url) == Some(id),
        api_path(Site::ArtStation, "/artwork/"@ + id) == "/projects/"@ + id + ".json"@,
        api_path(Site::Wallhaven, url.path) == "/api/v1"@ + url.path,
{
    crate::text::lemma_strip_prefix_of_joined("i="@, id);
    crate::text::lemma_strip_prefix_of_joined("/arts/view/"@, id);
    crate::text::lemma_strip_prefix_of_joined("/pictures/view/"@, id);
    let artwork = "/artwork/"@;
    assert((artwork + id).subrange(0, artwork.len() as int) == artwork);
    assert((artwork + id).skip(artwork.len() as int) == id);
}

/// The address of the JSON record of the post at `url`, on a site that has such records.
fn api_endpoint(site: Site, url: &Link) -> (r: DownloaderResult<Link>)
    ensures
        match r {
            Ok(endpoint) => bounded_repath(url@, api_path(site, url@.path)) == Some(endpoint@),
            Err(e) => bounded_repath(url@, api_path(site, url@.path)) is None && e@
                == no_endpoint(),
        },
{
    let path = match site {
        Site::Wallhaven => {
            let mut p = String::from_str("/api/v1");
            p.append(url.path());
            p
        },
        Site::ArtStation => {
            let mut p = swap_prefix(url.path(), "/artwork/", "/projects/");
            p.append(".json");
            p
        },
        _ => String::from_str(url.path()),
    };
    match url.with_path(path.as_str()) {
        Some(endpoint) => Ok(endpoint),
        None => Err(DownloaderError::parse("URL could not be rewritten")),
    }
}

/// Routes a post's URL to its site and says what to fetch for it. A host that no site
/// serves gives the error that is kept apart from every failure.
pub fn from_url(url: Link) -> (r: DownloaderResult<Request>)
    ensures
        request_result(r) == request_for(url@),
{
    let site = match url.host_str() {
        Some(host) => resolve(host)?,
        None => {
            proof {
                lemma_no_site_without_host();
            }
            return Err(DownloaderError::Unsupported);
        },
    };
    match site {
        Site::Wallhaven | Site::ArtStation => {
            let endpoint = api_endpoint(site, &url)?;
            Ok(Request { site, post: url, endpoint, id: None })
        },
        Site::WallpaperAbyss => {
            let id = match url.query() {
                Some(q) => without_prefix(q, "i="),
                None => {
                    return Err(DownloaderError::parse("URL Query did not match pattern"));
                },
            };
            let endpoint = url.duplicate();
            Ok(Request { site, post: url, endpoint, id: Some(id) })
        },
        Site::ArtAbyss => {
            let id = without_prefix(url.path(), "/arts/view/");
            let endpoint = url.duplicate();
            Ok(Request { site, post: url, endpoint, id: Some(id) })
        },
        Site::ImageAbyss => {
            let id = without_prefix(url.path(), "/pictures/view/");
            let endpoint = url.duplicate();
            Ok(Request { site, post: url, endpoint, id: Some(id) })
        },
    }
}

/// No site serves the empty host name.
pub proof fn lemma_no_site_without_host()
    ensures
        site_of(Seq::<char>::empty()) is None,
{
    reveal_strlit("wallhaven.cc");
    reveal_strlit("wall.alphacoders.com");
    reveal_strlit("art.alphacoders.com");
    reveal_strlit("pics.alphacoders.com");
    reveal_strlit("artstation.com");
}

/// A field of a post that a site may or may not offer.
#[derive(Debug)]
pub enum Field<T> {
    /// The site offers the field, and this is its value.
    Present(T),
    /// The site does not offer the field. This is no failure.
    Absent,
    /// The site offers the field, but reading it failed.
    Failed(DownloaderError),
}

/// The mathematical value of a [`Field`].
pub enum FieldView<V> {
    Present(V),
    Absent,
    Failed(ErrorView),
}

impl<V> FieldView<V> {
    /// The value, where there is one. A field that is absent and one that failed are
    /// alike here.
    pub open spec fn present(self) -> Option<V> {
        match self {
            FieldView::Present(v) => Some(v),
            _ => None,
        }
    }
}

/// The value of a title field.
pub open spec fn title_view(f: Field<String>) -> FieldView<Seq<char>> {
    match f {
        Field::Present(t) => FieldView::Present(t@),
        Field::Absent => FieldView::Absent,
        Field::Failed(e) => FieldView::Failed(e@),
    }
}

/// The value of a tags field.
pub open spec fn tags_view(f: Field<Vec<String>>) -> FieldView<Seq<Seq<char>>> {
    match f {
        Field::Present(t) => FieldView::Present(texts(t@)),
        Field::Absent => FieldView::Absent,
        Field::Failed(e) => FieldView::Failed(e@),
    }
}

/// The image URLs of a post: one, or several in the order in which the site lists them.
#[derive(Debug)]
pub enum Urls {
    /// A single URL.
    Single(Link),
    /// Several URLs.
    Multi(Vec<Link>),
}

impl View for Urls {
    type V = Seq<LinkView>;

    open spec fn view(&self) -> Seq<LinkView> {
        match self {
            Urls::Single(link) => seq![link@],
            Urls::Multi(links) => link_views(links@),
        }
    }
}

/// The URLs in a result, or its error's value.
pub open spec fn urls_result(r: DownloaderResult<Urls>) -> Result<Seq<LinkView>, ErrorView> {
    match r {
        Ok(urls) => Ok(urls@),
        Err(e) => Err(e@),
    }
}

/// The link in a result, or its error's value.
pub open spec fn link_result(r: DownloaderResult<Link>) -> Result<LinkView, ErrorView> {
    match r {
        Ok(link) => Ok(link@),
        Err(e) => Err(e@),
    }
}

/// A copy of `links`.
pub fn duplicate_links(links: &Vec<Link>) -> (r: Vec<Link>)
    ensures
        link_views(r@) == link_views(links@),
{
    let mut out: Vec<Link> = Vec::new();
    let mut i: usize = 0;
    while i < links.len()
        invariant
            i <= links.len(),
            link_views(out@) == link_views(links@).take(i as int),
        decreases links.len() - i,
    {
        out.push(links[i].duplicate());
        assert(link_views(out@) == link_views(links@).take(i as int).push(links@[i as int]@));
        i += 1;
    }
    assert(link_views(links@).take(links.len() as int) == link_views(links@));
    out
}

/// A copy of `items`.
pub fn duplicate_texts(items: &Vec<String>) -> (r: Vec<String>)
    ensures
        texts(r@) == texts(items@),
{
    let mut out: Vec<String> = Vec::new();
    let mut i: usize = 0;
    while i < items.len()
        invariant
            i <= items.len(),
            texts(out@) == texts(items@).take(i as int),
        decreases items.len() - i,
    {
        out.push(items[i].clone());
        assert(texts(out@) == texts(items@).take(i as int).push(items@[i as int]@));
        i += 1;
    }
    assert(texts(items@).take(items.len() as int) == texts(items@));
    out
}

impl Urls {
    /// True when there is one URL at most, so that the file needs no number.
    pub fn is_single(&self) -> (r: bool)
        ensures
            r == (self@.len() < 2),
    {
        match self {
            Urls::Single(_) => true,
            Urls::Multi(links) => links.len() < 2,
        }
    }

    /// The URLs as a list, in their order.
    pub fn into_vec(self) -> (r: Vec<Link>)
        ensures
            link_views(r@) == self@,
    {
        match self {
            Urls::Single(link) => {
                let mut out: Vec<Link> = Vec::new();
                out.push(link);
                assert(link_views(out@) == seq![link@]);
                out
            },
            Urls::Multi(links) => links,
        }
    }

    /// A copy of the URLs as a list, in their order.
    pub fn to_vec(&self) -> (r: Vec<Link>)
        ensures
            link_views(r@) == self@,
    {
        match self {
            Urls::Single(link) => {
                let mut out: Vec<Link> = Vec::new();
                out.push(link.duplicate());
                assert(link_views(out@) == seq![link@]);
                out
            },
            Urls::Multi(links) => duplicate_links(links),
        }
    }
}

impl From<Link> for Urls {
    fn from(value: Link) -> (r: Urls) {
        Urls::Single(value)
    }
}

impl vstd::std_specs::convert::FromSpecImpl<Link> for Urls {
    open spec fn obeys_from_spec() -> bool {
        true
    }

    open spec fn from_spec(value: Link) -> Urls {
        Urls::Single(value)
    }
}

/// What the adapters that read a page have in common.
pub struct Wrapper;

/// The link that the rule `rule` finds in the page `html`: what it extracts, read as a
/// URL.
pub open spec fn scraped_link(html: Seq<char>, rule: crate::extractors::SelectAttrView) -> Result<
    LinkView,
    ErrorView,
> {
    match first_attr(html, rule.select, rule.attr) {
        None => Err(not_found()),
        Some(href) => match parsed(href) {
            Some(link) => Ok(link),
            None => Err(ErrorView::ParseError(url_error(href))),
        },
    }
}

impl Wrapper {
    /// Extracts the value that `select` finds in `html` and reads it as a URL.
    pub fn image_url(html: &Page, select: &SelectAttr) -> (r: DownloaderResult<Link>)
        ensures
            link_result(r) == scraped_link(html@, select@),
    {
        let link = select.extract(html)?;
        Link::parse(link.as_str())
    }

    /// Extracts the value that `select` finds in `html` as the title.
    pub fn image_title(html: &Page, select: &SelectAttr) -> (r: DownloaderResult<String>)
        ensures
            text_result(r) == extracted(html@, select@),
    {
        select.extract(html)
    }
}

/// What an adapter knows of a post, whatever the site.
pub trait Downloader {
    /// The post's identifier.
    spec fn id_text(&self) -> Seq<char>;

    /// The post's image URLs in the site's order, or why they cannot be had.
    spec fn images(&self) -> Result<Seq<LinkView>, ErrorView>;

    /// The post's title.
    spec fn title(&self) -> FieldView<Seq<char>>;

    /// The post's tags.
    spec fn tags(&self) -> FieldView<Seq<Seq<char>>>;

    /// The identifier of the post: stable for one URL, and fit to begin a file name.
    fn image_id(&self) -> (r: &str)
        ensures
            r@ == self.id_text(),
    ;

    /// The URLs of the post's images, in the order in which the site lists them.
    fn image_url(&self) -> (r: DownloaderResult<Urls>)
        ensures
            urls_result(r) == self.images(),
    ;

    /// The title of the post.
    fn image_title(&self) -> (r: Field<String>)
        ensures
            title_view(r) == self.title(),
    ;

    /// The tags of the post.
    fn image_tags(&self) -> (r: Field<Vec<String>>)
        ensures
            tags_view(r) == self.tags(),
    ;
}

/// What is known of a post once its adapter has been read.
#[derive(Debug)]
pub struct WallpaperMeta {
    /// The post's identifier.
    pub id: String,
    /// The post's title, where the site gave one.
    pub title: Option<String>,
    /// The URLs of the post's images, in the site's order. Never empty.
    pub images: Vec<Link>,
    /// The post's tags, where the site gave any.
    pub tags: Option<Vec<String>>,
}

/// The mathematical value of a [`WallpaperMeta`].
pub struct MetaView {
    pub id: Seq<char>,
    pub title: Option<Seq<char>>,
    pub images: Seq<LinkView>,
    pub tags: Option<Seq<Seq<char>>>,
}

impl View for WallpaperMeta {
    type V = MetaView;

    open spec fn view(&self) -> MetaView {
        MetaView {
            id: self.id@,
            title: opt_text(self.title),
            images: link_views(self.images@),
            tags: match self.tags {
                Some(t) => Some(texts(t@)),
                None => None,
            },
        }
    }
}

/// The metadata in a result, or its error's value.
pub open spec fn meta_result(r: DownloaderResult<WallpaperMeta>) -> Result<MetaView, ErrorView> {
    match r {
        Ok(meta) => Ok(meta@),
        Err(e) => Err(e@),
    }
}

/// The metadata record for what an adapter yields. Without image URLs there is none: their
/// error is the record's error, and an empty list counts as no value. A title or tags
/// that are absent, or that failed, are left out of the record.
pub open spec fn normalized(
    id: Seq<char>,
    images: Result<Seq<LinkView>, ErrorView>,
    title: FieldView<Seq<char>>,
    tags: FieldView<Seq<Seq<char>>>,
) -> Result<MetaView, ErrorView> {
    match images {
        Err(e) => Err(e),
        Ok(list) => if list.len() == 0 {
            Err(ErrorView::Other)
        } else {
            Ok(MetaView { id, title: title.present(), images: list, tags: tags.present() })
        },
    }
}

impl WallpaperMeta {
    /// True when the record has what every record must have: at least one image.
    pub open spec fn wf(self) -> bool {
        self.images@.len() > 0
    }

    /// Reads an adapter into a metadata record.
    pub fn try_from<D: Downloader>(value: &D) -> (r: DownloaderResult<WallpaperMeta>)
        ensures
            meta_result(r) == normalized(
                value.id_text(),
                value.images(),
                value.title(),
                value.tags(),
            ),
            r matches Ok(meta) ==> meta.wf(),
    {
        let id = String::from_str(value.image_id());
        let images = match value.image_url() {
            Ok(urls) => urls.into_vec(),
            Err(e) => {
                return Err(e);
            },
        };
        if images.len() == 0 {
            return Err(DownloaderError::Other);
        }
        let title = match value.image_title() {
            Field::Present(t) => Some(t),
            _ => None,
        };
        let tags = match value.image_tags() {
            Field::Present(t) => Some(t),
            _ => None,
        };
        Ok(WallpaperMeta { id, title, images, tags })
    }
}

/// The adapter of a post, whichever site it is from.
#[derive(Debug)]
pub enum Backend {
    Wallhaven(wallhaven::Wallhaven),
    WallpaperAbyss(alphacoders::WallpaperAbyss),
    ArtAbyss(alphacoders::ArtAbyss),
    ImageAbyss(alphacoders::ImageAbyss),
    ArtStation(artstation::ArtStation),
}

impl Backend {
    /// The site that the adapter is for.
    pub fn site(&self) -> (r: Site)
        ensures
            r == match self {
                Backend::Wallhaven(_) => Site::Wallhaven,
                Backend::WallpaperAbyss(_) => Site::WallpaperAbyss,
                Backend::ArtAbyss(_) => Site::ArtAbyss,
                Backend::ImageAbyss(_) => Site::ImageAbyss,
                Backend::ArtStation(_) => Site::ArtStation,
            },
    {
        match self {
            Backend::Wallhaven(_) => Site::Wallhaven,
            Backend::WallpaperAbyss(_) => Site::WallpaperAbyss,
            Backend::ArtAbyss(_) => Site::ArtAbyss,
            Backend::ImageAbyss(_) => Site::ImageAbyss,
            Backend::ArtStation(_) => Site::ArtStation,
        }
    }
}

impl Downloader for Backend {
    open spec fn id_text(&self) -> Seq<char> {
        match self {
            Backend::Wallhaven(b) => b.id_text(),
            Backend::WallpaperAbyss(b) => b.id_text(),
            Backend::ArtAbyss(b) => b.id_text(),
            Backend::ImageAbyss(b) => b.id_text(),
            Backend::ArtStation(b) => b.id_text(),
        }
    }

    open spec fn images(&self) -> Result<Seq<LinkView>, ErrorView> {
        match self {
            Backend::Wallhaven(b) => b.images(),
            Backend::WallpaperAbyss(b) => b.images(),
            Backend::ArtAbyss(b) => b.images(),
            Backend::ImageAbyss(b) => b.images(),
            Backend::ArtStation(b) => b.images(),
        }
    }

    open spec fn title(&self) -> FieldView<Seq<char>> {
        match self {
            Backend::Wallhaven(b) => b.title(),
            Backend::WallpaperAbyss(b) => b.title(),
            Backend::ArtAbyss(b) => b.title(),
            Backend::ImageAbyss(b) => b.title(),
            Backend::ArtStation(b) => b.title(),
        }
    }

    open spec fn tags(&self) -> FieldView<Seq<Seq<char>>> {
        match self {
            Backend::Wallhaven(b) => b.tags(),
            Backend::WallpaperAbyss(b) => b.tags(),
            Backend::ArtAbyss(b) => b.tags(),
            Backend::ImageAbyss(b) => b.tags(),
            Backend::ArtStation(b) => b.tags(),
        }
    }

    fn image_id(&self) -> (r: &str) {
        match self {
            Backend::Wallhaven(b) => b.image_id(),
            Backend::WallpaperAbyss(b) => b.image_id(),
            Backend::ArtAbyss(b) => b.image_id(),
            Backend::ImageAbyss(b) => b.image_id(),
            Backend::ArtStation(b) => b.image_id(),
        }
    }

    fn image_url(&self) -> (r: DownloaderResult<Urls>) {
        match self {
            Backend::Wallhaven(b) => b.image_url(),
            Backend::WallpaperAbyss(b) => b.image_url(),
            Backend::ArtAbyss(b) => b.image_url(),
            Backend::ImageAbyss(b) => b.image_url(),
            Backend::ArtStation(b) => b.image_url(),
        }
    }

    fn image_title(&self) -> (r: Field<String>) {
        match self {
            Backend::Wallhaven(b) => b.image_title(),
            Backend::WallpaperAbyss(b) => b.image_title(),
            Backend::ArtAbyss(b) => b.image_title(),
            Backend::ImageAbyss(b) => b.image_title(),
            Backend::ArtStation(b) => b.image_title(),
        }
    }

    fn image_tags(&self) -> (r: Field<Vec<String>>) {
        match self {
            Backend::Wallhaven(b) => b.image_tags(),
            Backend::WallpaperAbyss(b) => b.image_tags(),
            Backend::ArtAbyss(b) => b.image_tags(),
            Backend::ImageAbyss(b) => b.image_tags(),
            Backend::ArtStation(b) => b.image_tags(),
        }
    }
}

} // verus!
