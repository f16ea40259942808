//! The adapter for wallhaven.cc, which answers with a JSON record of the post.

use vstd::prelude::*;
use crate::text::texts;
use crate::errors::{DownloaderResult, ErrorView};
use crate::link::{Link, LinkView};
use super::{duplicate_texts, Downloader, Field, FieldView, Urls};

verus! {

/// What wallhaven's record says of a post.
#[derive(Debug)]
pub struct Wallhaven {
    /// The URL of the image in full size.
    pub path: Link,
    /// The post's identifier.
    pub id: String,
    /// The names of the post's tags, in the record's order.
    pub tags: Vec<String>,
}

impl Wallhaven {
    /// The adapter for a record with these fields.
    pub fn new(id: String, path: Link, tags: Vec<String>) -> (r: Wallhaven)
        ensures
            r.id@ == id@,
            r.path@ == path@,
            texts(r.tags@) == texts(tags@),
    {
        Wallhaven { path, id, tags }
    }
}

impl Downloader for Wallhaven {
    open spec fn id_text(&self) -> Seq<char> {
        self.id@
    }

    open spec fn images(&self) -> Result<Seq<LinkView>, ErrorView> {
        Ok(seq![self.path@])
    }

    open spec fn title(&self) -> FieldView<Seq<char>> {
        FieldView::Absent
    }

    open spec fn tags(&self) -> FieldView<Seq<Seq<char>>> {
        FieldView::Present(texts(self.tags@))
    }

    fn image_id(&self) -> (r: &str) {
        self.id.as_str()
    }

    fn image_url(&self) -> (r: DownloaderResult<Urls>) {
        Ok(Urls::Single(self.path.duplicate()))
    }

    fn image_title(&self) -> (r: Field<String>) {
        Field::Absent
    }

    fn image_tags(&self) -> (r: Field<Vec<String>>) {
        Field::Present(duplicate_texts(&self.tags))
    }
}

} // verus!
