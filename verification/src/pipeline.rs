//! The decisions of a run: which URLs are worth fetching, how far each one got, where each
//! file goes, and how the run ends. Fetching and writing are left to the caller.

use vstd::prelude::*;
use vstd::string::StringExecFns;
use crate::config::{Config, ConfigView, EntryView};
use crate::text::texts;
use crate::downloaders::{MetaView, Request, WallpaperMeta};
use crate::errors::DownloaderResult;
use crate::link::{parsed, Link, LinkView, link_views};
use crate::text::opt_text;
use crate::naming::{extension_for, file_name_text, index_of, name_for, Fetched};
use crate::placement::{directory_for, joined, relative_path, Filedown};
use crate::store::{knows_source, recorded, WallpaperDb};

verus! {

/// True when one of `links` has the text `text`.
pub open spec fn holds_text(links: Seq<LinkView>, text: Seq<char>) -> bool {
    exists|i: int| 0 <= i < links.len() && (#[trigger] links[i]).text == text
}

/// The URLs that a run fetches, given what was asked for and what the record holds: the
/// inputs that read as URLs, in their order, each once, without those that the record
/// already has as a source.
pub open spec fn planned(inputs: Seq<Seq<char>>, db: Map<Seq<char>, EntryView>) -> Seq<LinkView>
    decreases inputs.len(),
{
    if inputs.len() == 0 {
        Seq::empty()
    } else {
        let before = planned(inputs.drop_last(), db);
        match parsed(inputs.last()) {
            Some(link) => if knows_source(db, link.text) || holds_text(before, link.text) {
                before
            } else {
                before.push(link)
            },
            None => before,
        }
    }
}

/// What holds of every plan: no URL is fetched twice, none that the record has as a
/// source is fetched at all, every planned URL was asked for, and every input that reads
/// as a URL and is not in the record is planned.
pub proof fn lemma_planned(inputs: Seq<Seq<char>>, db: Map<Seq<char>, EntryView>)
    ensures
        forall|i: int, j: int|
            0 <= i < j < planned(inputs, db).len() ==> (#[trigger] planned(inputs, db)[i]).text != (
            #[trigger] planned(inputs, db)[j]).text,
        forall|i: int|
            0 <= i < planned(inputs, db).len() ==> !knows_source(
                db,
                (#[trigger] planned(inputs, db)[i]).text,
            ),
        forall|i: int|
            0 <= i < planned(inputs, db).len() ==> exists|j: int|
                0 <= j < inputs.len() && parsed(#[trigger] inputs[j]) == Some(
                    #[trigger] planned(inputs, db)[i],
                ),
        forall|j: int|
            0 <= j < inputs.len() && parsed(#[trigger] inputs[j]) is Some && !knows_source(
                db,
                parsed(inputs[j])->0.text,
            ) ==> holds_text(planned(inputs, db), parsed(inputs[j])->0.text),
        planned(inputs, db).len() <= inputs.len(),
    decreases inputs.len(),
{
    if inputs.len() > 0 {
        let front = inputs.drop_last();
        lemma_planned(front, db);
        let before = planned(front, db);
        let now = planned(inputs, db);
        assert forall|i: int| 0 <= i < now.len() implies exists|j: int|
            0 <= j < inputs.len() && parsed(#[trigger] inputs[j]) == Some(#[trigger] now[i]) by {
            if i < before.len() {
                let j = choose|j: int|
                    0 <= j < front.len() && parsed(#[trigger] front[j]) == Some(before[i]);
                assert(parsed(inputs[j]) == Some(now[i]));
            } else {
                assert(parsed(inputs[inputs.len() - 1]) == Some(now[i]));
            }
        }
        assert forall|j: int|
            0 <= j < inputs.len() && parsed(#[trigger] inputs[j]) is Some && !knows_source(
                db,
                parsed(inputs[j])->0.text,
            ) implies holds_text(now, parsed(inputs[j])->0.text) by {
            let text = parsed(inputs[j])->0.text;
            if j < front.len() {
                assert(front[j] == inputs[j]);
                let i = choose|i: int| 0 <= i < before.len() && (#[trigger] before[i]).text == text;
                assert(now[i].text == text);
            } else if holds_text(before, text) {
                let i = choose|i: int| 0 <= i < before.len() && (#[trigger] before[i]).text == text;
                assert(now[i].text == text);
            } else {
                assert(now[now.len() - 1].text == text);
            }
        }
    }
}

/// Once a file from the post at `source` is in the record, no plan fetches `source` again,
/// whatever is asked for.
pub proof fn lemma_saved_source_is_not_planned(
    inputs: Seq<Seq<char>>,
    db: Map<Seq<char>, EntryView>,
    data: Seq<u8>,
    source: Seq<char>,
    file: Seq<char>,
)
    ensures
        knows_source(recorded(db, data, source, file), source),
        !holds_text(planned(inputs, recorded(db, data, source, file)), source),
{
    let after = recorded(db, data, source, file);
    let hash = crate::naming::content_hash(data);
    assert(after.dom().contains(hash) && after[hash].source == source);
    lemma_planned(inputs, after);
}

/// A URL that is asked for twice is planned as if it had been asked for once.
pub proof fn lemma_repeated_input_is_planned_once(
    inputs: Seq<Seq<char>>,
    db: Map<Seq<char>, EntryView>,
    again: int,
)
    requires
        0 <= again < inputs.len(),
    ensures
        planned(inputs.push(inputs[again]), db) == planned(inputs, db),
{
    let longer = inputs.push(inputs[again]);
    assert(longer.drop_last() == inputs);
    lemma_planned(inputs, db);
}

/// True when one of `links` has the text `text`.
fn has_text(links: &Vec<Link>, text: &str) -> (r: bool)
    ensures
        r == holds_text(link_views(links@), text@),
{
    let mut i: usize = 0;
    while i < links.len()
        invariant
            i <= links.len(),
            forall|k: int| 0 <= k < i ==> (#[trigger] link_views(links@)[k]).text != text@,
        decreases links.len() - i,
    {
        if crate::text::same_text(links[i].as_str(), text) {
            assert(link_views(links@)[i as int].text == text@);
            return true;
        }
        i += 1;
    }
    false
}

/// Settles which URLs a run fetches. Inputs that do not read as URLs are passed over.
pub fn plan(inputs: &Vec<String>, db: &WallpaperDb) -> (r: Vec<Link>)
    ensures
        link_views(r@) == planned(texts(inputs@), db@),
{
    let mut out: Vec<Link> = Vec::new();
    let mut i: usize = 0;
    let ghost all = texts(inputs@);
    while i < inputs.len()
        invariant
            i <= inputs.len(),
            all == texts(inputs@),
            link_views(out@) == planned(all.take(i as int), db@),
        decreases inputs.len() - i,
    {
        assert(all.take(i + 1).drop_last() == all.take(i as int));
        assert(all.take(i + 1).last() == inputs@[i as int]@);
        match Link::parse(inputs[i].as_str()) {
            Ok(link) => {
                if !db.has_source(link.as_str()) && !has_text(&out, link.as_str()) {
                    let ghost before = link_views(out@);
                    out.push(link);
                    assert(link_views(out@) == before.push(link@));
                }
            },
            Err(_) => {},
        }
        i += 1;
    }
    assert(all.take(inputs.len() as int) == all);
    out
}

/// How far the work on one URL has come.
#[derive(Clone, Copy, Debug, PartialEq, Eq, Structural)]
pub enum UrlState {
    /// Nothing was done yet.
    Pending,
    /// A site serves the URL, and what to fetch for it is settled.
    Dispatched,
    /// The post's metadata is known.
    Normalized,
    /// No site serves the URL. The end for this URL, and no failure.
    Unsupported,
    /// Fetching or reading the post failed. The end for this URL.
    Failed,
    /// Every file of the post was saved. The end for this URL.
    Saved,
    /// Some files of the post were saved, some were not. The end for this URL.
    PartiallySaved,
    /// No file of the post could be saved. The end for this URL.
    AllFilesFailed,
}

/// What happened to a URL.
#[derive(Clone, Copy, Debug, PartialEq, Eq, Structural)]
pub enum UrlEvent {
    /// A site was found for the URL.
    Routed,
    /// No site serves the URL.
    NotSupported,
    /// Fetching or reading failed.
    Broke,
    /// The post's metadata was read.
    Read,
    /// The post's files were gone through: `saved` of `total` were saved.
    Files { saved: usize, total: usize },
}

impl UrlState {
    /// True for the states in which the work on a URL ends.
    pub open spec fn is_terminal(self) -> bool {
        match self {
            UrlState::Pending | UrlState::Dispatched | UrlState::Normalized => false,
            _ => true,
        }
    }

    /// The state after `event`. An event that does not belong to the state changes
    /// nothing.
    pub open spec fn after(self, event: UrlEvent) -> UrlState {
        match (self, event) {
            (UrlState::Pending, UrlEvent::Routed) => UrlState::Dispatched,
            (UrlState::Pending, UrlEvent::NotSupported) => UrlState::Unsupported,
            (UrlState::Pending, UrlEvent::Broke) => UrlState::Failed,
            (UrlState::Dispatched, UrlEvent::Read) => UrlState::Normalized,
            (UrlState::Dispatched, UrlEvent::Broke) => UrlState::Failed,
            (UrlState::Normalized, UrlEvent::Files { saved, total }) => if saved == 0 {
                UrlState::AllFilesFailed
            } else if saved < total {
                UrlState::PartiallySaved
            } else {
                UrlState::Saved
            },
            _ => self,
        }
    }

    /// True when the work on the URL has ended.
    pub fn terminal(self) -> (r: bool)
        ensures
            r == self.is_terminal(),
    {
        match self {
            UrlState::Pending | UrlState::Dispatched | UrlState::Normalized => false,
            _ => true,
        }
    }

    /// Takes the state one event further.
    pub fn advance(self, event: UrlEvent) -> (r: UrlState)
        ensures
            r == self.after(event),
    {
        match self {
            UrlState::Pending => match event {
                UrlEvent::Routed => UrlState::Dispatched,
                UrlEvent::NotSupported => UrlState::Unsupported,
                UrlEvent::Broke => UrlState::Failed,
                _ => self,
            },
            UrlState::Dispatched => match event {
                UrlEvent::Read => UrlState::Normalized,
                UrlEvent::Broke => UrlState::Failed,
                _ => self,
            },
            UrlState::Normalized => match event {
                UrlEvent::Files { saved, total } => if saved == 0 {
                    UrlState::AllFilesFailed
                } else if saved < total {
                    UrlState::PartiallySaved
                } else {
                    UrlState::Saved
                },
                _ => self,
            },
            _ => self,
        }
    }

    /// True when the URL is reported as not supported rather than as failed.
    pub fn not_supported(self) -> (r: bool)
        ensures
            r == (self == UrlState::Unsupported),
    {
        match self {
            UrlState::Unsupported => true,
            _ => false,
        }
    }
}

/// The event that the outcome of routing or reading stands for: an unsupported host is
/// told apart from every failure.
pub open spec fn event_of_error(e: crate::errors::ErrorView) -> UrlEvent {
    if e.is_unsupported() {
        UrlEvent::NotSupported
    } else {
        UrlEvent::Broke
    }
}

/// The event for the outcome of routing a URL.
pub fn routed(outcome: &DownloaderResult<Request>) -> (r: UrlEvent)
    ensures
        r == match outcome {
            Ok(_) => UrlEvent::Routed,
            Err(e) => event_of_error(e@),
        },
{
    match outcome {
        Ok(_) => UrlEvent::Routed,
        Err(e) => if e.is_unsupported() {
            UrlEvent::NotSupported
        } else {
            UrlEvent::Broke
        },
    }
}

/// The event for the outcome of reading a post's metadata.
pub fn read(outcome: &DownloaderResult<WallpaperMeta>) -> (r: UrlEvent)
    ensures
        r == match outcome {
            Ok(_) => UrlEvent::Read,
            Err(_) => UrlEvent::Broke,
        },
{
    match outcome {
        Ok(_) => UrlEvent::Read,
        Err(_) => UrlEvent::Broke,
    }
}

/// A state in which the work has ended is left by no event, and every event leads from
/// the start to the end in the order routing, reading, files.
pub proof fn lemma_states(state: UrlState, event: UrlEvent)
    ensures
        state.is_terminal() ==> state.after(event) == state,
        state.after(event) == UrlState::Pending ==> state == UrlState::Pending,
        state.after(event) == UrlState::Dispatched ==> state == UrlState::Dispatched || state
            == UrlState::Pending,
        state.after(event) == UrlState::Unsupported ==> state == UrlState::Unsupported || (state
            == UrlState::Pending && event == UrlEvent::NotSupported),
        (state.after(event) == UrlState::Saved || state.after(event) == UrlState::PartiallySaved
            || state.after(event) == UrlState::AllFilesFailed) ==> state == state.after(event)
            || state == UrlState::Normalized,
{
}

/// Where one file of a post goes and what it holds.
#[derive(Debug)]
pub struct Placement {
    /// The bytes to write.
    pub data: Vec<u8>,
    /// The subdirectory of the download directory.
    pub directory: String,
    /// The file's name.
    pub file: String,
    /// Directory and name together: the path that the record keeps.
    pub relative: String,
    /// Where the file is written: the relative path below the download directory.
    pub path: String,
}

/// The host under which the files of the post at `post` are filed when they are sorted by
/// host: the URL's host, or `Website` for a URL without one.
pub open spec fn host_of(post: LinkView) -> Seq<char> {
    match post.host {
        Some(h) => h,
        None => "Website"@,
    }
}

/// The host under which the files of a post are filed when they are sorted by host.
pub fn source_host(post: &Link) -> (r: String)
    ensures
        r@ == host_of(post@),
{
    match post.host_str() {
        Some(h) => String::from_str(h),
        None => String::from_str("Website"),
    }
}

/// The tags of a post, none where the site gave none.
pub open spec fn tags_of(meta: MetaView) -> Seq<Seq<char>> {
    match meta.tags {
        Some(tags) => tags,
        None => Seq::empty(),
    }
}

/// The name of the file for the image at `position` of a post.
pub open spec fn placed_file(
    meta: MetaView,
    position: nat,
    content_type: Option<Seq<char>>,
    content_disposition: Option<Seq<char>>,
    path: Seq<char>,
    data: Seq<u8>,
) -> Seq<char> {
    file_name_text(
        meta.id,
        name_for(meta.title, content_disposition, path, data),
        extension_for(content_type),
        index_of(meta.images.len(), position),
    )
}

impl Placement {
    /// Settles where the image at `position` of the post `meta`, fetched from `host`, is
    /// saved: in the directory that the settings choose for the post, under a name made
    /// of the post's identifier, the file's name, its number where the post has several
    /// images, and the extension for its content type.
    pub fn new(conf: &Config, meta: &WallpaperMeta, host: &str, position: usize, fetched: Fetched) -> (r:
        Placement)
        requires
            position < meta.images@.len(),
        ensures
            r.data@ == fetched.data@,
            r.directory@ == directory_for(conf@, host@, tags_of(meta@)),
            r.file@ == placed_file(
                meta@,
                position as nat,
                opt_text(fetched.content_type),
                opt_text(fetched.content_disposition),
                fetched.path@,
                fetched.data@,
            ),
            r.relative@ == relative_path(r.directory@, r.file@),
            r.path@ == joined(conf@.download.path, r.relative@),
    {
        let count = Filedown::counter(meta.images.len(), position);
        let (data, name, ext) = Filedown::download_file(meta, fetched);
        let file = Filedown::format_file(meta, name.as_str(), ext.as_str(), count);
        let directory = match &meta.tags {
            Some(tags) => Filedown::resolve_path(conf, host, tags.as_slice()),
            None => {
                let none: Vec<String> = Vec::new();
                assert(texts(none@) == Seq::<Seq<char>>::empty());
                Filedown::resolve_path(conf, host, none.as_slice())
            },
        };
        let relative = Filedown::relative_file(directory.as_str(), file.as_str());
        let path = Filedown::join(conf.download.path.as_str(), relative.as_str());
        Placement { data, directory, file, relative, path }
    }
}

/// The settings after a run that was asked for `targeted` URLs and saved files with the
/// hashes `saved`, in that order: where exactly one URL was asked for and a file was
/// saved, the last saved file is the wallpaper in use.
pub open spec fn settled(conf: ConfigView, targeted: nat, saved: Seq<Seq<char>>) -> ConfigView {
    if targeted == 1 && saved.len() > 0 {
        ConfigView { wallpaper: Some(saved.last()), ..conf }
    } else {
        conf
    }
}

/// Notes the wallpaper in use at the end of a run.
pub fn settle(conf: &mut Config, targeted: usize, saved: &Vec<String>)
    ensures
        final(conf)@ == settled(old(conf)@, targeted as nat, texts(saved@)),
{
    if targeted == 1 && saved.len() > 0 {
        conf.set_current(saved[saved.len() - 1].clone());
    }
}

/// How a run ends.
#[derive(Clone, Copy, Debug, PartialEq, Eq, Structural)]
pub enum Outcome {
    /// Record and settings were written. URLs or files that failed do not change this.
    Success,
    /// The record or the settings could not be written.
    Failure,
}

impl Outcome {
    /// The exit code for this outcome: 0 for success.
    pub fn code(self) -> (r: u8)
        ensures
            r == 0 <==> self == Outcome::Success,
            r == 0 || r == 1,
    {
        match self {
            Outcome::Success => 0,
            Outcome::Failure => 1,
        }
    }
}

/// The end of a run.
pub struct DownErr;

impl DownErr {
    /// How the run ends: `config` tells that writing the settings failed, `database` that
    /// writing the record failed. Nothing else makes a run fail.
    pub fn finish(config: bool, database: bool) -> (r: Outcome)
        ensures
            r == if config || database {
                Outcome::Failure
            } else {
                Outcome::Success
            },
    {
        if config || database {
            Outcome::Failure
        } else {
            Outcome::Success
        }
    }
}

} // verus!
