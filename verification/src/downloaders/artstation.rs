//! The adapter for artstation.com, which answers with a JSON record of the post and of
//! all its assets.

use vstd::prelude::*;
use crate::errors::{DownloaderResult, ErrorView};
use crate::link::{parsed, Link, LinkView, link_views};
use crate::text::{rewrite_all, rewritten, same_text};
use super::{Downloader, Field, FieldView, Urls};

verus! {

/// One asset of an ArtStation post.
#[derive(Debug)]
pub struct Asset {
    /// The URL of the asset in the size that the site shows.
    pub image_url: String,
    /// The kind of the asset; `image` for a picture.
    pub asset_type: String,
}

/// The mathematical value of an [`Asset`].
pub struct AssetView {
    pub image_url: Seq<char>,
    pub asset_type: Seq<char>,
}

impl View for Asset {
    type V = AssetView;

    open spec fn view(&self) -> AssetView {
        AssetView { image_url: self.image_url@, asset_type: self.asset_type@ }
    }
}

/// The values of a list of assets.
pub open spec fn asset_views(assets: Seq<Asset>) -> Seq<AssetView> {
    assets.map_values(|a: Asset| a@)
}

/// What ArtStation's record says of a post.
#[derive(Debug)]
pub struct ArtStation {
    /// The post's identifier.
    pub hash_id: String,
    /// The post's assets, in the record's order.
    pub assets: Vec<Asset>,
}

/// The address of an asset in full size: the site files it under `4k` where the shown
/// size is filed under `large`.
pub open spec fn full_size(image_url: Seq<char>) -> Seq<char> {
    rewritten(image_url, "/large/"@, "/4k/"@)
}

/// The link to an asset in full size, if the asset is a picture and its address reads as
/// a URL.
pub open spec fn asset_link(asset: AssetView) -> Option<LinkView> {
    if asset.asset_type == "image"@ {
        parsed(full_size(asset.image_url))
    } else {
        None
    }
}

/// The links to the pictures among `assets`, in the order of the assets. Assets that are
/// no pictures, and addresses that are no URLs, are left out.
pub open spec fn picture_links(assets: Seq<AssetView>) -> Seq<LinkView>
    decreases assets.len(),
{
    if assets.len() == 0 {
        Seq::empty()
    } else {
        let before = picture_links(assets.drop_last());
        match asset_link(assets.last()) {
            Some(link) => before.push(link),
            None => before,
        }
    }
}

/// Pictures are listed in the order of the assets: the list for a longer run of assets
/// begins with the list for its beginning.
pub proof fn lemma_picture_links_grow(assets: Seq<AssetView>, n: int)
    requires
        0 <= n <= assets.len(),
    ensures
        picture_links(assets.take(n)).is_prefix_of(picture_links(assets)),
        picture_links(assets).len() <= assets.len(),
    decreases assets.len(),
{
    if assets.len() == 0 {
        assert(assets.take(n) == assets);
    } else if n == assets.len() {
        assert(assets.take(n) == assets);
        lemma_picture_links_grow(assets.drop_last(), 0);
    } else {
        lemma_picture_links_grow(assets.drop_last(), n);
        assert(assets.drop_last().take(n) == assets.take(n));
    }
}

impl ArtStation {
    /// The adapter for a record with these fields.
    pub fn new(hash_id: String, assets: Vec<Asset>) -> (r: ArtStation)
        ensures
            r.hash_id@ == hash_id@,
            asset_views(r.assets@) == asset_views(assets@),
    {
        ArtStation { hash_id, assets }
    }
}

impl Downloader for ArtStation {
    open spec fn id_text(&self) -> Seq<char> {
        self.hash_id@
    }

    open spec fn images(&self) -> Result<Seq<LinkView>, ErrorView> {
        Ok(picture_links(asset_views(self.assets@)))
    }

    open spec fn title(&self) -> FieldView<Seq<char>> {
        FieldView::Absent
    }

    open spec fn tags(&self) -> FieldView<Seq<Seq<char>>> {
        FieldView::Absent
    }

    fn image_id(&self) -> (r: &str) {
        self.hash_id.as_str()
    }

    fn image_url(&self) -> (r: DownloaderResult<Urls>) {
        let mut urls: Vec<Link> = Vec::new();
        let mut i: usize = 0;
        let ghost all = asset_views(self.assets@);
        while i < self.assets.len()
            invariant
                i <= self.assets.len(),
                all == asset_views(self.assets@),
                link_views(urls@) == picture_links(all.take(i as int)),
            decreases self.assets.len() - i,
        {
            let asset = &self.assets[i];
            assert(all.take(i + 1).drop_last() == all.take(i as int));
            assert(all.take(i + 1).last() == asset@);
            if same_text(asset.asset_type.as_str(), "image") {
                let hires = rewrite_all(asset.image_url.as_str(), "/large/", "/4k/");
                match Link::parse(hires.as_str()) {
                    Ok(link) => {
                        urls.push(link);
                        assert(link_views(urls@) == picture_links(all.take(i as int)).push(link@));
                    },
                    Err(_) => {},
                }
            }
            i += 1;
        }
        assert(all.take(self.assets.len() as int) == all);
        Ok(Urls::Multi(urls))
    }

    fn image_title(&self) -> (r: Field<String>) {
        Field::Absent
    }

    fn image_tags(&self) -> (r: Field<Vec<String>>) {
        Field::Absent
    }
}

} // verus!
