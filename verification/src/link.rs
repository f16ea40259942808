//! Absolute URLs, held as their text together with the parts that the adapters read.

use vstd::prelude::*;
use vstd::string::StrSliceExecFns;
use crate::errors::{DownloaderError, DownloaderResult, ErrorView};
use crate::text::opt_text;

verus! {

/// The text to which `url::Url::parse` brings `text`: the URL's serialization, or `None`
/// where `text` is no absolute URL.
pub uninterp spec fn url_serial(text: Seq<char>) -> Option<Seq<char>>;

/// The words of the `url::ParseError` with which `url::Url::parse` refuses `text`.
pub uninterp spec fn url_error(text: Seq<char>) -> Seq<char>;

/// What `url::Url::host_str` gives for a URL that `url::Url::parse` has read and that has
/// the serialization `serial`.
pub uninterp spec fn url_host(serial: Seq<char>) -> Option<Seq<char>>;

/// What `url::Url::path` gives for a URL that `url::Url::parse` has read and that has the
/// serialization `serial`.
pub uninterp spec fn url_path(serial: Seq<char>) -> Seq<char>;

/// What `url::Url::query` gives for a URL that `url::Url::parse` has read and that has the
/// serialization `serial`.
pub uninterp spec fn url_query(serial: Seq<char>) -> Option<Seq<char>>;

/// The serialization of the URL that `url::Url::parse` reads from what `url::Url::set_path`
/// leaves when it puts `path` in place of the path of the URL `serial`. `None` where
/// `serial` is no absolute URL, or where what `set_path` leaves does not read as one.
pub uninterp spec fn url_with_path(serial: Seq<char>, path: Seq<char>) -> Option<Seq<char>>;

/// The longest text, in characters, that is handed on as a URL or as a path.
pub const MAX_URL_CHARS: usize = 0x0800_0000;

/// An absolute URL.
#[derive(Debug)]
pub struct Link {
    text: String,
    host: Option<String>,
    path: String,
    query: Option<String>,
}

/// The mathematical value of a [`Link`].
pub struct LinkView {
    /// The URL as text.
    pub text: Seq<char>,
    /// Its host, where it has one.
    pub host: Option<Seq<char>>,
    /// Its path.
    pub path: Seq<char>,
    /// Its query string, where it has one.
    pub query: Option<Seq<char>>,
}

impl LinkView {
    /// True when host, path and query are those of the URL that `text` is.
    pub open spec fn parts_agree(self) -> bool {
        &&& self.host == url_host(self.text)
        &&& self.path == url_path(self.text)
        &&& self.query == url_query(self.text)
    }
}

/// The link that `text` reads as: `None` where it is no absolute URL.
pub open spec fn parsed(text: Seq<char>) -> Option<LinkView> {
    match url_serial(text) {
        Some(serial) => Some(
            LinkView {
                text: serial,
                host: url_host(serial),
                path: url_path(serial),
                query: url_query(serial),
            },
        ),
        None => None,
    }
}

/// The link that comes of putting `path` in place of the path of the URL `text`.
pub open spec fn repathed(text: Seq<char>, path: Seq<char>) -> Option<LinkView> {
    match url_with_path(text, path) {
        Some(serial) => Some(
            LinkView {
                text: serial,
                host: url_host(serial),
                path: url_path(serial),
                query: url_query(serial),
            },
        ),
        None => None,
    }
}

impl View for Link {
    type V = LinkView;

    closed spec fn view(&self) -> LinkView {
        LinkView {
            text: self.text@,
            host: opt_text(self.host),
            path: self.path@,
            query: opt_text(self.query),
        }
    }
}

/// The value of an optional link.
pub open spec fn opt_link(l: Option<Link>) -> Option<LinkView> {
    match l {
        Some(link) => Some(link@),
        None => None,
    }
}

/// The values of a sequence of links.
pub open spec fn link_views(links: Seq<Link>) -> Seq<LinkView> {
    links.map_values(|l: Link| l@)
}

/// Calls `url::Url::parse` on `text`. For a URL it hands back the serialization with the
/// host, the path and the query that the parsed URL reports; otherwise the words of the
/// parse error.
#[verifier::external_body]
fn parse_url(text: &str) -> (r: Result<Link, String>)
    ensures
        match r {
            Ok(link) => {
                &&& url_serial(text@) == Some(link@.text)
                &&& link@.host == url_host(link@.text)
                &&& link@.path == url_path(link@.text)
                &&& link@.query == url_query(link@.text)
            },
            Err(words) => url_serial(text@) is None && words@ == url_error(text@),
        },
{
    match url::Url::parse(text) {
        Ok(u) => Ok(
            Link {
                host: u.host_str().map(str::to_owned),
                path: u.path().to_owned(),
                query: u.query().map(str::to_owned),
                text: u.into(),
            },
        ),
        Err(e) => Err(e.to_string()),
    }
}

/// Parses `text` with `url::Url::parse`, replaces the path with `url::Url::set_path`, and
/// parses the text of the changed URL again with `url::Url::parse`: a URL that
/// `set_path` has changed need not report the parts that a reading of its text finds.
/// Hands back the serialization, the host, the path and the query of that second parse.
/// `None` where either parse fails. The lengths are bounded because the crate refuses to
/// hold a URL of more than 4 GB.
#[verifier::external_body]
fn replace_url_path(text: &str, path: &str) -> (r: Option<Link>)
    requires
        text@.len() <= MAX_URL_CHARS,
        path@.len() <= MAX_URL_CHARS,
    ensures
        match r {
            Some(link) => {
                &&& url_with_path(text@, path@) == Some(link@.text)
                &&& link@.host == url_host(link@.text)
                &&& link@.path == url_path(link@.text)
                &&& link@.query == url_query(link@.text)
            },
            None => url_with_path(text@, path@) is None,
        },
{
    let mut changed = url::Url::parse(text).ok()?;
    changed.set_path(path);
    let u = url::Url::parse(changed.as_str()).ok()?;
    Some(
        Link {
            host: u.host_str().map(str::to_owned),
            path: u.path().to_owned(),
            query: u.query().map(str::to_owned),
            text: u.into(),
        },
    )
}

impl Link {
    #[verifier::type_invariant]
    spec fn parts_belong(self) -> bool {
        self@.parts_agree()
    }

    /// Reads `text` as an absolute URL. Text that is none gives a parse error that
    /// carries the parser's words.
    pub fn parse(text: &str) -> (r: DownloaderResult<Link>)
        ensures
            match r {
                Ok(link) => parsed(text@) == Some(link@),
                Err(e) => parsed(text@) is None && e@ == ErrorView::ParseError(url_error(text@)),
            },
    {
        match parse_url(text) {
            Ok(link) => Ok(link),
            Err(words) => Err(DownloaderError::ParseError(words)),
        }
    }

    /// The URL as text. Host, path and query of a link are always those of this text.
    pub fn as_str(&self) -> (r: &str)
        ensures
            r@ == self@.text,
            self@.parts_agree(),
    {
        proof {
            use_type_invariant(self);
        }
        self.text.as_str()
    }

    /// The host, where the URL has one.
    pub fn host_str(&self) -> (r: Option<&str>)
        ensures
            match r {
                Some(h) => self@.host == Some(h@),
                None => self@.host is None,
            },
    {
        match &self.host {
            Some(h) => Some(h.as_str()),
            None => None,
        }
    }

    /// The path.
    pub fn path(&self) -> (r: &str)
        ensures
            r@ == self@.path,
    {
        self.path.as_str()
    }

    /// The query string, where the URL has one.
    pub fn query(&self) -> (r: Option<&str>)
        ensures
            match r {
                Some(q) => self@.query == Some(q@),
                None => self@.query is None,
            },
    {
        match &self.query {
            Some(q) => Some(q.as_str()),
            None => None,
        }
    }

    /// A copy of this link.
    pub fn duplicate(&self) -> (r: Link)
        ensures
            r@ == self@,
    {
        proof {
            use_type_invariant(self);
        }
        Link {
            text: self.text.clone(),
            host: match &self.host {
                Some(h) => Some(h.clone()),
                None => None,
            },
            path: self.path.clone(),
            query: match &self.query {
                Some(q) => Some(q.clone()),
                None => None,
            },
        }
    }

    /// The URL that is read from this one's text with `path` put in place of its path.
    /// `None` where this URL or `path` is longer than [`MAX_URL_CHARS`], or where the text
    /// does not read as a URL before or after the change.
    pub fn with_path(&self, path: &str) -> (r: Option<Link>)
        ensures
            r is Some ==> r->0@.parts_agree(),
            opt_link(r) == if self@.text.len() <= MAX_URL_CHARS && path@.len() <= MAX_URL_CHARS {
                repathed(self@.text, path@)
            } else {
                None
            },
    {
        if self.text.as_str().unicode_len() > MAX_URL_CHARS || path.unicode_len() > MAX_URL_CHARS {
            return None;
        }
        replace_url_path(self.text.as_str(), path)
    }
}

} // verus!
