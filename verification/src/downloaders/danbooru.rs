//! The adapter for Danbooru-style sites, which answer with a JSON record of the post
//! under the post's own address with `.json` behind it.

use vstd::prelude::*;
use vstd::string::StringExecFns;
use crate::errors::{DownloaderResult, ErrorView};
use crate::link::{Link, LinkView};
use crate::text::{decimal, push_decimal};
use super::{Downloader, Field, FieldView, Urls};

verus! {

/// The site's record of a post, as it arrives.
#[derive(Debug)]
pub struct DanbooruApi {
    /// The post's number.
    pub id: u32,
    /// The URL of the image file.
    pub file_url: Link,
}

/// What the site's record says of a post.
#[derive(Debug)]
pub struct Danbooru {
    /// The post's number, in base ten.
    pub id: String,
    /// The URL of the image file.
    pub file_url: Link,
}

/// The path of the JSON record of the post at `path`.
pub open spec fn record_path(path: Seq<char>) -> Seq<char> {
    path + ".json"@
}

impl Danbooru {
    /// The path under which the site answers with the record of the post at `path`.
    pub fn api_path(path: &str) -> (r: String)
        ensures
            r@ == record_path(path@),
    {
        let mut api = String::from_str(path);
        api.append(".json");
        api
    }

    /// The adapter for a record: the identifier is the post's number in base ten.
    pub fn new(record: DanbooruApi) -> (r: Danbooru)
        ensures
            r.id@ == decimal(record.id as nat),
            r.file_url@ == record.file_url@,
    {
        let mut id = String::new();
        push_decimal(&mut id, record.id as u64);
        Danbooru { id, file_url: record.file_url }
    }
}

impl Downloader for Danbooru {
    open spec fn id_text(&self) -> Seq<char> {
        self.id@
    }

    open spec fn images(&self) -> Result<Seq<LinkView>, ErrorView> {
        Ok(seq![self.file_url@])
    }

    open spec fn title(&self) -> FieldView<Seq<char>> {
        FieldView::Absent
    }

    open spec fn tags(&self) -> FieldView<Seq<Seq<char>>> {
        FieldView::Absent
    }

    fn image_id(&self) -> (r: &str) {
        self.id.as_str()
    }

    fn image_url(&self) -> (r: DownloaderResult<Urls>) {
        Ok(Urls::from(self.file_url.duplicate()))
    }

    fn image_title(&self) -> (r: Field<String>) {
        Field::Absent
    }

    fn image_tags(&self) -> (r: Field<Vec<String>>) {
        Field::Absent
    }
}

} // verus!
