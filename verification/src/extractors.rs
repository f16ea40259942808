//! Reading single values out of an HTML page by CSS selector.

use vstd::prelude::*;
use vstd::string::StringExecFns;
use crate::errors::{DownloaderError, DownloaderResult, ErrorView};
use crate::text::{opt_text, texts};

verus! {

/// A parsed HTML document of the `scraper` crate.
#[verifier::external_type_specification]
#[verifier::external_body]
pub struct ExHtml(scraper::Html);

/// A parsed selector group of the `scraper` crate.
#[verifier::external_type_specification]
#[verifier::external_body]
pub struct ExSelector(scraper::Selector);

/// The words with which `scraper::Selector::parse` refuses `css`; `None` where `css` is a
/// selector group that it accepts.
pub uninterp spec fn css_error(css: Seq<char>) -> Option<Seq<char>>;

/// For each element that `scraper::Html::select` yields for the selector group `css` in
/// the document that `scraper::Html::parse_document` makes of `html`, in the order in
/// which it yields them (that in which the nodes were added to the document's tree):
/// the value of the attribute `attr` as `scraper::ElementRef::attr` reads it, `None`
/// where the element lacks it.
pub uninterp spec fn selected_attrs(html: Seq<char>, css: Seq<char>, attr: Seq<char>) -> Seq<
    Option<Seq<char>>,
>;

/// For each element that `scraper::Html::select` yields for the selector group `css` in
/// the document that `scraper::Html::parse_document` makes of `html`, in the order in
/// which it yields them (that in which the nodes were added to the document's tree):
/// its inner HTML as `scraper::ElementRef::inner_html` writes it.
pub uninterp spec fn selected_inner(html: Seq<char>, css: Seq<char>) -> Seq<Seq<char>>;

/// The texts in a sequence of optional strings.
pub open spec fn opt_texts(items: Seq<Option<String>>) -> Seq<Option<Seq<char>>> {
    items.map_values(|s: Option<String>| opt_text(s))
}

/// A page: its HTML text, and the document that the text was parsed into, once.
///
/// The document is always the one that `scraper::Html::parse_document` makes of the
/// text: a page is made by [`Page::parse`] and never changed.
#[derive(Debug)]
pub struct Page {
    html: String,
    doc: scraper::Html,
}

impl View for Page {
    type V = Seq<char>;

    closed spec fn view(&self) -> Seq<char> {
        self.html@
    }
}

/// A selector group: its CSS text, and the selector that the text was parsed into, once.
///
/// The selector is always the one that `scraper::Selector::parse` makes of the text: a
/// selector is made by [`CssSelector::parse`] and never changed.
#[derive(Debug)]
pub struct CssSelector {
    css: String,
    parsed: scraper::Selector,
}

impl View for CssSelector {
    type V = Seq<char>;

    closed spec fn view(&self) -> Seq<char> {
        self.css@
    }
}

/// Parses `html` with `scraper::Html::parse_document` and keeps the document beside the
/// text.
#[verifier::external_body]
fn read_page(html: String) -> (r: Page)
    ensures
        r@ == html@,
{
    let doc = scraper::Html::parse_document(&html);
    Page { html, doc }
}

/// Parses `css` with `scraper::Selector::parse` and keeps the selector beside the text;
/// hands back the error's words where it is refused.
#[verifier::external_body]
fn read_selector(css: &str) -> (r: Result<CssSelector, String>)
    ensures
        match r {
            Ok(select) => css_error(css@) is None && select@ == css@,
            Err(words) => css_error(css@) == Some(words@),
        },
{
    match scraper::Selector::parse(css) {
        Ok(parsed) => Ok(CssSelector { css: css.to_owned(), parsed }),
        Err(e) => Err(e.to_string()),
    }
}

/// Walks what `scraper::Html::select` yields for the selector in the page's document and
/// reads `attr` from each element with `scraper::ElementRef::attr`.
#[verifier::external_body]
fn matched_attrs(page: &Page, select: &CssSelector, attr: &str) -> (r: Vec<Option<String>>)
    ensures
        opt_texts(r@) == selected_attrs(page@, select@, attr@),
{
    let mut out = Vec::new();
    for element in page.doc.select(&select.parsed) {
        out.push(element.attr(attr).map(str::to_owned));
    }
    out
}

/// Walks what `scraper::Html::select` yields for the selector in the page's document and
/// writes out each element's content with `scraper::ElementRef::inner_html`.
#[verifier::external_body]
fn matched_inner(page: &Page, select: &CssSelector) -> (r: Vec<String>)
    ensures
        texts(r@) == selected_inner(page@, select@),
{
    let mut out = Vec::new();
    for element in page.doc.select(&select.parsed) {
        out.push(element.inner_html());
    }
    out
}

impl Page {
    /// Parses the HTML text of a page.
    pub fn parse(html: String) -> (r: Page)
        ensures
            r@ == html@,
    {
        read_page(html)
    }

    /// The HTML text of the page.
    pub fn html(&self) -> (r: &str)
        ensures
            r@ == self@,
    {
        self.html.as_str()
    }
}

impl CssSelector {
    #[verifier::type_invariant]
    spec fn selector_is_valid(self) -> bool {
        css_error(self@) is None
    }

    /// Parses a selector group. One that does not parse gives a parse error with the
    /// parser's words.
    pub fn parse(css: &str) -> (r: DownloaderResult<CssSelector>)
        ensures
            match r {
                Ok(select) => css_error(css@) is None && select@ == css@,
                Err(e) => css_error(css@) is Some && e@ == ErrorView::ParseError(
                    css_error(css@)->0,
                ),
            },
    {
        match read_selector(css) {
            Ok(select) => Ok(select),
            Err(words) => Err(DownloaderError::ParseError(words)),
        }
    }

    /// The selector group as CSS text, which always parses.
    pub fn css(&self) -> (r: &str)
        ensures
            r@ == self@,
            css_error(self@) is None,
    {
        proof {
            use_type_invariant(self);
        }
        self.css.as_str()
    }
}

/// A CSS selector together with the attribute to read from what it selects.
#[derive(Debug)]
pub struct SelectAttr {
    /// Which elements are meant.
    pub select: CssSelector,
    /// The name of the attribute to read.
    pub attr: String,
}

/// The mathematical value of a [`SelectAttr`].
pub struct SelectAttrView {
    /// The selector group, as CSS text.
    pub select: Seq<char>,
    /// The name of the attribute.
    pub attr: Seq<char>,
}

impl View for SelectAttr {
    type V = SelectAttrView;

    open spec fn view(&self) -> SelectAttrView {
        SelectAttrView { select: self.select@, attr: self.attr@ }
    }
}

/// What is reported when no element matches or the element lacks the attribute.
pub open spec fn not_found() -> ErrorView {
    ErrorView::ParseError("HTML element or attribute not found."@)
}

/// The first of `values`, if there is one and it is there.
pub open spec fn first_of(values: Seq<Option<Seq<char>>>) -> Option<Seq<char>> {
    if values.len() == 0 {
        None
    } else {
        values[0]
    }
}

/// The value of the attribute `attr` on the first element of the page `html` that the
/// selector group `css` selects. `None` where nothing is selected, or where the first
/// element that is selected lacks the attribute.
pub open spec fn first_attr(html: Seq<char>, css: Seq<char>, attr: Seq<char>) -> Option<
    Seq<char>,
> {
    first_of(selected_attrs(html, css, attr))
}

/// The inner HTML of the first element of the page `html` that the selector group `css`
/// selects. `None` where nothing is selected.
pub open spec fn first_inner(html: Seq<char>, css: Seq<char>) -> Option<Seq<char>> {
    let all = selected_inner(html, css);
    if all.len() == 0 {
        None
    } else {
        Some(all[0])
    }
}

/// What reading the rule `rule` from the page `html` gives.
pub open spec fn extracted(html: Seq<char>, rule: SelectAttrView) -> Result<Seq<char>, ErrorView> {
    match first_attr(html, rule.select, rule.attr) {
        Some(value) => Ok(value),
        None => Err(not_found()),
    }
}

/// The text in a result, or its error's value.
pub open spec fn text_result(r: DownloaderResult<String>) -> Result<Seq<char>, ErrorView> {
    match r {
        Ok(t) => Ok(t@),
        Err(e) => Err(e@),
    }
}

impl SelectAttr {
    /// Makes a rule of a CSS selector and an attribute name. A selector that does not
    /// parse gives a parse error with the parser's words.
    pub fn parse(css: &str, attr: &str) -> (r: DownloaderResult<SelectAttr>)
        ensures
            match r {
                Ok(rule) => css_error(css@) is None && rule@ == (SelectAttrView {
                    select: css@,
                    attr: attr@,
                }),
                Err(e) => css_error(css@) is Some && e@ == ErrorView::ParseError(
                    css_error(css@)->0,
                ),
            },
    {
        let select = CssSelector::parse(css)?;
        Ok(SelectAttr { select, attr: String::from_str(attr) })
    }

    /// Reads this rule's attribute from the first element of `html` that its selector
    /// selects. Where nothing is selected, or the attribute is missing, a parse error
    /// says so.
    pub fn extract(&self, html: &Page) -> (r: DownloaderResult<String>)
        ensures
            text_result(r) == extracted(html@, self@),
    {
        found_or_error(src_tag_attr(html, self))
    }
}

/// The first of the values that were read from the selected elements, in their order.
pub fn first_value(values: &Vec<Option<String>>) -> (r: Option<String>)
    ensures
        opt_text(r) == first_of(opt_texts(values@)),
{
    if values.len() == 0 {
        None
    } else {
        match &values[0] {
            Some(v) => Some(v.clone()),
            None => None,
        }
    }
}

/// Turns a value that may be missing into a result: a missing one is a parse error.
pub fn found_or_error(value: Option<String>) -> (r: DownloaderResult<String>)
    ensures
        match value {
            Some(v) => r matches Ok(t) && t@ == v@,
            None => r matches Err(e) && e@ == not_found(),
        },
{
    match value {
        Some(v) => Ok(v),
        None => Err(DownloaderError::parse("HTML element or attribute not found.")),
    }
}

/// The attribute that `elem` names, read from the first element of `html` that its
/// selector selects.
pub fn src_tag_attr(html: &Page, elem: &SelectAttr) -> (r: Option<String>)
    ensures
        opt_text(r) == first_attr(html@, elem@.select, elem@.attr),
{
    let values = matched_attrs(html, &elem.select, elem.attr.as_str());
    first_value(&values)
}

/// The inner HTML of the first element of `html` that `elem` selects.
pub fn src_tag_inner(html: &Page, elem: &CssSelector) -> (r: Option<String>)
    ensures
        opt_text(r) == first_inner(html@, elem@),
{
    let contents = matched_inner(html, elem);
    if contents.len() == 0 {
        None
    } else {
        assert(texts(contents@)[0] == contents@[0]@);
        Some(contents[0].clone())
    }
}

} // verus!
