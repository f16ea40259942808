//! The adapters for the three Alphacoders sites, which are read from the post's page.

use vstd::prelude::*;
use vstd::string::StringExecFns;
use crate::errors::{DownloaderError, DownloaderResult, ErrorView};
use crate::extractors::{css_error, first_attr, not_found, Page, SelectAttr, SelectAttrView};
use crate::link::{parsed, url_error, Link, LinkView};
use crate::text::{strip_prefix, without_prefix};
use super::{no_query, Downloader, Field, FieldView, Wrapper, Urls};

verus! {

/// What all Alphacoders adapters share: the page, the post's identifier, and the rules by
/// which the download link and the title are found in the page.
#[derive(Debug)]
pub struct Alphacoders {
    /// The page of the post, parsed once.
    pub html: Page,
    /// The post's identifier.
    pub id: String,
    /// Where the page holds the link to the image.
    pub download: SelectAttr,
    /// Where the page holds the title.
    pub title: SelectAttr,
}

/// The mathematical value of an [`Alphacoders`].
pub struct PageView {
    pub html: Seq<char>,
    pub id: Seq<char>,
    pub download: SelectAttrView,
    pub title: SelectAttrView,
}

impl View for Alphacoders {
    type V = PageView;

    open spec fn view(&self) -> PageView {
        PageView { html: self.html@, id: self.id@, download: self.download@, title: self.title@ }
    }
}

/// The selector of the download button of the post `id` on the site that names its
/// buttons after `service`.
pub open spec fn button_css(service: Seq<char>, id: Seq<char>) -> Seq<char> {
    "a#"@ + service + "_"@ + id + "_download_button"@
}

/// The adapter for a page: its download link is the `href` of the post's download button,
/// its title the `title` of what `title_css` selects. There is none where one of the two
/// selectors does not parse; the download button's is tried first.
pub open spec fn page_for(
    html: Seq<char>,
    id: Seq<char>,
    service: Seq<char>,
    title_css: Seq<char>,
) -> Result<PageView, ErrorView> {
    let download_css = button_css(service, id);
    if css_error(download_css) is Some {
        Err(ErrorView::ParseError(css_error(download_css)->0))
    } else if css_error(title_css) is Some {
        Err(ErrorView::ParseError(css_error(title_css)->0))
    } else {
        Ok(
            PageView {
                html,
                id,
                download: SelectAttrView { select: download_css, attr: "href"@ },
                title: SelectAttrView { select: title_css, attr: "title"@ },
            },
        )
    }
}

/// The image of a page: what its download rule finds, read as a URL.
pub open spec fn page_image(page: PageView) -> Result<Seq<LinkView>, ErrorView> {
    match first_attr(page.html, page.download.select, page.download.attr) {
        None => Err(not_found()),
        Some(href) => match parsed(href) {
            Some(link) => Ok(seq![link]),
            None => Err(ErrorView::ParseError(url_error(href))),
        },
    }
}

/// The title of a page: what its title rule finds. A page without it counts as a failed
/// read, not as a site without titles.
pub open spec fn page_title(page: PageView) -> FieldView<Seq<char>> {
    match first_attr(page.html, page.title.select, page.title.attr) {
        Some(title) => FieldView::Present(title),
        None => FieldView::Failed(not_found()),
    }
}

/// The page adapter in a result, or its error's value.
pub open spec fn page_result(r: DownloaderResult<Alphacoders>) -> Result<PageView, ErrorView> {
    match r {
        Ok(page) => Ok(page@),
        Err(e) => Err(e@),
    }
}

impl Alphacoders {
    /// The adapter for the page `html` of the post `id`. `service_css` is the word by
    /// which the site names its download buttons, `title_css` selects the element that
    /// carries the title.
    pub fn new(html: String, id: String, service_css: &str, title_css: &str) -> (r:
        DownloaderResult<Alphacoders>)
        ensures
            page_result(r) == page_for(html@, id@, service_css@, title_css@),
    {
        let mut download_css = String::from_str("a#");
        download_css.append(service_css);
        download_css.append("_");
        download_css.append(id.as_str());
        download_css.append("_download_button");
        let download = SelectAttr::parse(download_css.as_str(), "href")?;
        let title = SelectAttr::parse(title_css, "title")?;
        Ok(Alphacoders { html: Page::parse(html), id, download, title })
    }

    /// The URL of the image, as the page's download button gives it.
    pub fn image_url(&self) -> (r: DownloaderResult<Urls>)
        ensures
            super::urls_result(r) == page_image(self@),
    {
        let url = Wrapper::image_url(&self.html, &self.download)?;
        Ok(Urls::Single(url))
    }

    /// The title of the post, as the page gives it.
    pub fn image_title(&self) -> (r: Field<String>)
        ensures
            super::title_view(r) == page_title(self@),
    {
        match Wrapper::image_title(&self.html, &self.title) {
            Ok(title) => Field::Present(title),
            Err(e) => Field::Failed(e),
        }
    }
}

/// The adapter for wall.alphacoders.com.
#[derive(Debug)]
pub struct WallpaperAbyss(pub Alphacoders);

/// The adapter for art.alphacoders.com.
#[derive(Debug)]
pub struct ArtAbyss(pub Alphacoders);

/// The adapter for pics.alphacoders.com.
#[derive(Debug)]
pub struct ImageAbyss(pub Alphacoders);

/// The adapter for wall.alphacoders.com that the post at `url` with the page `html` has:
/// the post's identifier follows `i=` in the query.
pub open spec fn wallpaper_page(html: Seq<char>, url: LinkView) -> Result<PageView, ErrorView> {
    match url.query {
        None => Err(no_query()),
        Some(q) => page_for(html, strip_prefix(q, "i="@), "wallpaper"@, "img#main-content"@),
    }
}

/// The adapter for art.alphacoders.com that the post at `url` with the page `html` has.
pub open spec fn art_page(html: Seq<char>, url: LinkView) -> Result<PageView, ErrorView> {
    page_for(html, strip_prefix(url.path, "/arts/view/"@), "art"@, "img.img-responsive"@)
}

/// The adapter for pics.alphacoders.com that the post at `url` with the page `html` has.
pub open spec fn picture_page(html: Seq<char>, url: LinkView) -> Result<PageView, ErrorView> {
    page_for(
        html,
        strip_prefix(url.path, "/pictures/view/"@),
        "picture"@,
        "img.img-responsive"@,
    )
}

impl WallpaperAbyss {
    /// Reads the page `html` of the post at `url`.
    pub fn new(html: String, url: &Link) -> (r: DownloaderResult<WallpaperAbyss>)
        ensures
            match r {
                Ok(site) => wallpaper_page(html@, url@) == Ok::<PageView, ErrorView>(site.0@),
                Err(e) => wallpaper_page(html@, url@) == Err::<PageView, ErrorView>(e@),
            },
    {
        let id = match url.query() {
            Some(q) => without_prefix(q, "i="),
            None => {
                return Err(DownloaderError::parse("URL Query did not match pattern"));
            },
        };
        let inner = Alphacoders::new(html, id, "wallpaper", "img#main-content")?;
        Ok(WallpaperAbyss(inner))
    }
}

impl ArtAbyss {
    /// Reads the page `html` of the post at `url`.
    pub fn new(html: String, url: &Link) -> (r: DownloaderResult<ArtAbyss>)
        ensures
            match r {
                Ok(site) => art_page(html@, url@) == Ok::<PageView, ErrorView>(site.0@),
                Err(e) => art_page(html@, url@) == Err::<PageView, ErrorView>(e@),
            },
    {
        let id = without_prefix(url.path(), "/arts/view/");
        let inner = Alphacoders::new(html, id, "art", "img.img-responsive")?;
        Ok(ArtAbyss(inner))
    }
}

impl ImageAbyss {
    /// Reads the page `html` of the post at `url`.
    pub fn new(html: String, url: &Link) -> (r: DownloaderResult<ImageAbyss>)
        ensures
            match r {
                Ok(site) => picture_page(html@, url@) == Ok::<PageView, ErrorView>(site.0@),
                Err(e) => picture_page(html@, url@) == Err::<PageView, ErrorView>(e@),
            },
    {
        let id = without_prefix(url.path(), "/pictures/view/");
        let inner = Alphacoders::new(html, id, "picture", "img.img-responsive")?;
        Ok(ImageAbyss(inner))
    }
}

impl Downloader for WallpaperAbyss {
    open spec fn id_text(&self) -> Seq<char> {
        self.0.id@
    }

    open spec fn images(&self) -> Result<Seq<LinkView>, ErrorView> {
        page_image(self.0@)
    }

    open spec fn title(&self) -> FieldView<Seq<char>> {
        page_title(self.0@)
    }

    open spec fn tags(&self) -> FieldView<Seq<Seq<char>>> {
        FieldView::Absent
    }

    fn image_id(&self) -> (r: &str) {
        self.0.id.as_str()
    }

    fn image_url(&self) -> (r: DownloaderResult<Urls>) {
        self.0.image_url()
    }

    fn image_title(&self) -> (r: Field<String>) {
        self.0.image_title()
    }

    fn image_tags(&self) -> (r: Field<Vec<String>>) {
        Field::Absent
    }
}

impl Downloader for ArtAbyss {
    open spec fn id_text(&self) -> Seq<char> {
        self.0.id@
    }

    open spec fn images(&self) -> Result<Seq<LinkView>, ErrorView> {
        page_image(self.0@)
    }

    open spec fn title(&self) -> FieldView<Seq<char>> {
        page_title(self.0@)
    }

    open spec fn tags(&self) -> FieldView<Seq<Seq<char>>> {
        FieldView::Absent
    }

    fn image_id(&self) -> (r: &str) {
        self.0.id.as_str()
    }

    fn image_url(&self) -> (r: DownloaderResult<Urls>) {
        self.0.image_url()
    }

    fn image_title(&self) -> (r: Field<String>) {
        self.0.image_title()
    }

    fn image_tags(&self) -> (r: Field<Vec<String>>) {
        Field::Absent
    }
}

impl Downloader for ImageAbyss {
    open spec fn id_text(&self) -> Seq<char> {
        self.0.id@
    }

    open spec fn images(&self) -> Result<Seq<LinkView>, ErrorView> {
        page_image(self.0@)
    }

    open spec fn title(&self) -> FieldView<Seq<char>> {
        page_title(self.0@)
    }

    open spec fn tags(&self) -> FieldView<Seq<Seq<char>>> {
        FieldView::Absent
    }

    fn image_id(&self) -> (r: &str) {
        self.0.id.as_str()
    }

    fn image_url(&self) -> (r: DownloaderResult<Urls>) {
        self.0.image_url()
    }

    fn image_title(&self) -> (r: Field<String>) {
        self.0.image_title()
    }

    fn image_tags(&self) -> (r: Field<Vec<String>>) {
        Field::Absent
    }
}

} // verus!
