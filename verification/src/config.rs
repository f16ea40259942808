//! The settings record and the entry that the wallpaper record keeps for each saved file.

use vstd::prelude::*;
use crate::text::texts;

verus! {

/// How downloaded files are sorted into subdirectories.
#[derive(Clone, Copy, Debug, PartialEq, Eq, Structural)]
pub enum Sort {
    /// One directory per source host.
    Hostname,
    /// One directory per best-matching configured genre.
    Genres,
}

/// The download settings.
#[derive(Debug)]
pub struct Download {
    /// The directory under which every file is placed.
    pub path: String,
    /// How the subdirectory of a file is chosen.
    pub sort: Sort,
    /// Milliseconds to wait after each request.
    pub delay: u64,
}

/// The wallpaper that is currently in use.
#[derive(Debug)]
pub struct Wallpaper {
    /// The content hash of that wallpaper, as it keys the record of saved files.
    pub current: String,
}

/// One line of the genre table: a folder name and the tags that speak for it.
#[derive(Debug)]
pub struct Genre {
    /// The name of the folder.
    pub name: String,
    /// The tags that count towards this genre.
    pub keywords: Vec<String>,
}

/// The genre table: its lines in the order in which they are walked, no two of them with
/// the same name.
#[derive(Debug)]
pub struct GenreTable {
    rows: Vec<Genre>,
}

/// All settings.
#[derive(Debug)]
pub struct Config {
    /// The download settings.
    pub download: Download,
    /// The genre table. `None` when none is configured.
    pub genres: Option<GenreTable>,
    /// The wallpaper in use, if one was set.
    pub wallpaper: Option<Wallpaper>,
}

/// What the record of saved files keeps for one file.
#[derive(Debug)]
pub struct WallpaperEntry {
    /// The URL of the post that the file came from.
    pub source: String,
    /// The file's path, relative to the download directory.
    pub file: String,
}

/// The mathematical value of a [`Genre`].
pub struct GenreView {
    pub name: Seq<char>,
    pub keywords: Seq<Seq<char>>,
}

/// The mathematical value of a [`Download`].
pub struct DownloadView {
    pub path: Seq<char>,
    pub sort: Sort,
    pub delay: nat,
}

/// The mathematical value of a [`Config`].
pub struct ConfigView {
    pub download: DownloadView,
    pub genres: Option<Seq<GenreView>>,
    pub wallpaper: Option<Seq<char>>,
}

/// The mathematical value of a [`WallpaperEntry`].
pub struct EntryView {
    pub source: Seq<char>,
    pub file: Seq<char>,
}

impl View for Genre {
    type V = GenreView;

    open spec fn view(&self) -> GenreView {
        GenreView { name: self.name@, keywords: texts(self.keywords@) }
    }
}

impl View for Download {
    type V = DownloadView;

    open spec fn view(&self) -> DownloadView {
        DownloadView { path: self.path@, sort: self.sort, delay: self.delay as nat }
    }
}

impl View for Wallpaper {
    type V = Seq<char>;

    open spec fn view(&self) -> Seq<char> {
        self.current@
    }
}

/// The values of a genre table, line by line.
pub open spec fn table_view(table: Seq<Genre>) -> Seq<GenreView> {
    table.map_values(|g: Genre| g@)
}

impl View for GenreTable {
    type V = Seq<GenreView>;

    closed spec fn view(&self) -> Seq<GenreView> {
        table_view(self.rows@)
    }
}

/// True when no name occurs twice in `table`.
pub open spec fn names_differ(table: Seq<GenreView>) -> bool {
    forall|i: int, j: int| 0 <= i < j < table.len() ==> table[i].name != table[j].name
}

/// True when a line of `table` has the name `name`.
pub open spec fn has_name(table: Seq<GenreView>, name: Seq<char>) -> bool {
    exists|i: int| 0 <= i < table.len() && (#[trigger] table[i]).name == name
}

/// The position of a line of `table` that has the name `name`; the only one, where the
/// names of the table differ.
pub open spec fn row_named(table: Seq<GenreView>, name: Seq<char>) -> int {
    choose|i: int| 0 <= i < table.len() && (#[trigger] table[i]).name == name
}

/// The table with `row` put in: in the place of the line of its name where there is one,
/// behind the last line otherwise.
pub open spec fn with_row(table: Seq<GenreView>, row: GenreView) -> Seq<GenreView> {
    if has_name(table, row.name) {
        table.update(row_named(table, row.name), row)
    } else {
        table.push(row)
    }
}

/// The table that comes of putting `rows` in one after the other.
pub open spec fn table_of(rows: Seq<GenreView>) -> Seq<GenreView>
    decreases rows.len(),
{
    if rows.len() == 0 {
        Seq::empty()
    } else {
        with_row(table_of(rows.drop_last()), rows.last())
    }
}

/// Putting a line into a table whose names differ leaves a table whose names differ, with
/// the line in it.
pub proof fn lemma_with_row(table: Seq<GenreView>, row: GenreView)
    requires
        names_differ(table),
    ensures
        names_differ(with_row(table, row)),
        has_name(with_row(table, row), row.name),
        with_row(table, row).len() == table.len() + if has_name(table, row.name) {
            0int
        } else {
            1int
        },
{
    let after = with_row(table, row);
    if has_name(table, row.name) {
        let at = row_named(table, row.name);
        assert(after[at].name == row.name);
        assert forall|i: int, j: int| 0 <= i < j < after.len() implies after[i].name != after[j].name by {
            if i == at {
                assert(table[at].name != table[j].name);
            } else if j == at {
                assert(table[i].name != table[at].name);
            } else {
                assert(table[i].name != table[j].name);
            }
        }
    } else {
        assert(after[table.len() as int].name == row.name);
        assert forall|i: int, j: int| 0 <= i < j < after.len() implies after[i].name != after[j].name by {
            if j < table.len() {
                assert(table[i].name != table[j].name);
            } else {
                assert(table[i].name != row.name);
            }
        }
    }
}

/// Lines whose names differ make the table that they are: each stays where it stands.
pub proof fn lemma_table_of_distinct(rows: Seq<GenreView>)
    requires
        names_differ(rows),
    ensures
        table_of(rows) == rows,
    decreases rows.len(),
{
    if rows.len() > 0 {
        let front = rows.drop_last();
        assert(names_differ(front)) by {
            assert forall|i: int, j: int| 0 <= i < j < front.len() implies front[i].name
                != front[j].name by {
                assert(rows[i].name != rows[j].name);
            }
        }
        lemma_table_of_distinct(front);
        assert(!has_name(front, rows.last().name)) by {
            if has_name(front, rows.last().name) {
                let i = row_named(front, rows.last().name);
                assert(rows[i].name != rows[rows.len() - 1].name);
            }
        }
        assert(front.push(rows.last()) == rows);
    }
}

impl GenreTable {
    #[verifier::type_invariant]
    spec fn no_name_twice(self) -> bool {
        names_differ(self@)
    }

    /// A table without lines.
    pub fn new() -> (r: GenreTable)
        ensures
            r@ == Seq::<GenreView>::empty(),
    {
        GenreTable { rows: Vec::new() }
    }

    /// The lines of the table, in the order in which they are walked. No two of them have
    /// the same name.
    pub fn rows(&self) -> (r: &Vec<Genre>)
        ensures
            table_view(r@) == self@,
            names_differ(self@),
    {
        proof {
            use_type_invariant(self);
        }
        &self.rows
    }

    /// The number of lines.
    pub fn len(&self) -> (r: usize)
        ensures
            r == self@.len(),
    {
        self.rows.len()
    }

    /// The position of the line with the name `name`.
    fn position(&self, name: &str) -> (r: Option<usize>)
        ensures
            match r {
                Some(i) => i < self@.len() && self@[i as int].name == name@,
                None => !has_name(self@, name@),
            },
    {
        let mut i: usize = 0;
        while i < self.rows.len()
            invariant
                i <= self.rows.len(),
                forall|k: int| 0 <= k < i ==> (#[trigger] self@[k]).name != name@,
            decreases self.rows.len() - i,
        {
            if crate::text::same_text(self.rows[i].name.as_str(), name) {
                return Some(i);
            }
            i += 1;
        }
        None
    }

    /// Puts a line into the table: in the place of the line of its name where there is
    /// one, behind the last line otherwise.
    pub fn insert(&mut self, genre: Genre)
        ensures
            final(self)@ == with_row(old(self)@, genre@),
    {
        proof {
            use_type_invariant(&*self);
            lemma_with_row(self@, genre@);
        }
        let found = self.position(genre.name.as_str());
        let ghost before = self@;
        let mut taken = GenreTable::new();
        core::mem::swap(self, &mut taken);
        let mut rows = taken.rows;
        match found {
            Some(i) => {
                assert(before[i as int].name == genre@.name);
                assert(row_named(before, genre@.name) == i) by {
                    let at = row_named(before, genre@.name);
                    if at < i {
                        assert(before[at].name != before[i as int].name);
                    } else if i < at {
                        assert(before[i as int].name != before[at].name);
                    }
                }
                rows.set(i, genre);
                assert(table_view(rows@) == before.update(i as int, genre@));
            },
            None => {
                rows.push(genre);
                assert(table_view(rows@) == before.push(genre@));
            },
        }
        *self = GenreTable { rows };
    }

    /// The table that comes of putting `rows` in one after the other: of two lines with
    /// one name the later one stays, in the place of the earlier.
    pub fn from_rows(rows: Vec<Genre>) -> (r: GenreTable)
        ensures
            r@ == table_of(table_view(rows@)),
    {
        let mut table = GenreTable::new();
        let ghost all = table_view(rows@);
        for genre in it: rows
            invariant
                table_view(it.seq()) == all,
                table@ == table_of(all.take(it.index() as int)),
        {
            assert(all.take(it.index() + 1).drop_last() == all.take(it.index() as int));
            assert(all.take(it.index() + 1).last() == genre@);
            table.insert(genre);
        }
        assert(all.take(all.len() as int) == all);
        table
    }
}

impl View for Config {
    type V = ConfigView;

    open spec fn view(&self) -> ConfigView {
        ConfigView {
            download: self.download@,
            genres: match self.genres {
                Some(table) => Some(table@),
                None => None,
            },
            wallpaper: match self.wallpaper {
                Some(w) => Some(w@),
                None => None,
            },
        }
    }
}

impl View for WallpaperEntry {
    type V = EntryView;

    open spec fn view(&self) -> EntryView {
        EntryView { source: self.source@, file: self.file@ }
    }
}

/// The delay between requests where the settings name none, in milliseconds.
pub const DEFAULT_DELAY: u64 = 450;

impl Download {
    /// The settings for a download directory for which nothing else was chosen: files are
    /// sorted by host, and requests are [`DEFAULT_DELAY`] milliseconds apart.
    pub fn new(path: String) -> (r: Download)
        ensures
            r@ == (DownloadView { path: path@, sort: Sort::Hostname, delay: 450 }),
    {
        Download { path, sort: Sort::Hostname, delay: DEFAULT_DELAY }
    }
}

impl Config {
    /// The settings with which a first run starts: the given download directory, no genre
    /// table and no wallpaper in use.
    pub fn new(path: String) -> (r: Config)
        ensures
            r@ == (ConfigView {
                download: DownloadView { path: path@, sort: Sort::Hostname, delay: 450 },
                genres: None,
                wallpaper: None,
            }),
    {
        Config { download: Download::new(path), genres: None, wallpaper: None }
    }

    /// Notes `hash` as the wallpaper in use.
    pub fn set_current(&mut self, hash: String)
        ensures
            final(self)@ == (ConfigView { wallpaper: Some(hash@), ..old(self)@ }),
    {
        self.wallpaper = Some(Wallpaper { current: hash });
    }

    /// The hash of the wallpaper in use, if one was set.
    pub fn current(&self) -> (r: Option<&String>)
        ensures
            match r {
                Some(h) => self@.wallpaper == Some(h@),
                None => self@.wallpaper is None,
            },
    {
        match &self.wallpaper {
            Some(w) => Some(&w.current),
            None => None,
        }
    }
}

impl WallpaperEntry {
    /// The entry for a file saved at `file` from the post at `source`.
    pub fn new(source: String, file: String) -> (r: WallpaperEntry)
        ensures
            r@ == (EntryView { source: source@, file: file@ }),
    {
        WallpaperEntry { source, file }
    }

    /// A copy of this entry.
    pub fn duplicate(&self) -> (r: WallpaperEntry)
        ensures
            r@ == self@,
    {
        WallpaperEntry { source: self.source.clone(), file: self.file.clone() }
    }
}

} // verus!
