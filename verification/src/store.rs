//! The record of saved files, keyed by the hash of each file's content.

use vstd::prelude::*;
use vstd::string::StringExecFns;
use crate::config::{EntryView, WallpaperEntry};
use crate::naming::content_hash;
use crate::placement::Filedown;
use crate::text::same_text;

verus! {

/// One line of the record as a value: the key and the entry.
pub type Line = (Seq<char>, EntryView);

/// The map that a list of lines stands for. Where a key occurs twice, the later line
/// counts.
pub open spec fn map_of(lines: Seq<Line>) -> Map<Seq<char>, EntryView>
    decreases lines.len(),
{
    if lines.len() == 0 {
        Map::empty()
    } else {
        map_of(lines.drop_last()).insert(lines.last().0, lines.last().1)
    }
}

/// The values of a list of keyed entries.
pub open spec fn lines_of(entries: Seq<(String, WallpaperEntry)>) -> Seq<Line> {
    entries.map_values(|e: (String, WallpaperEntry)| (e.0@, e.1@))
}

/// True when no key occurs twice in `lines`.
pub open spec fn keys_differ(lines: Seq<Line>) -> bool {
    forall|i: int, j: int| 0 <= i < j < lines.len() ==> lines[i].0 != lines[j].0
}

/// True when some entry of `db` came from `source`.
pub open spec fn knows_source(db: Map<Seq<char>, EntryView>, source: Seq<char>) -> bool {
    exists|hash: Seq<char>| #[trigger] db.dom().contains(hash) && db[hash].source == source
}

/// The record after a file with the content `data` was saved at `file` from the post at
/// `source`: the entry under the content's hash is this one, whatever was there before.
pub open spec fn recorded(
    db: Map<Seq<char>, EntryView>,
    data: Seq<u8>,
    source: Seq<char>,
    file: Seq<char>,
) -> Map<Seq<char>, EntryView> {
    db.insert(content_hash(data), EntryView { source, file })
}

/// The keys of the map of `lines` are the keys of the lines; with keys that differ there
/// are as many as lines, and each line's entry is the map's entry for its key.
pub proof fn lemma_map_of_lines(lines: Seq<Line>)
    ensures
        map_of(lines).dom().finite(),
        forall|k: Seq<char>|
            map_of(lines).dom().contains(k) <==> exists|i: int|
                0 <= i < lines.len() && #[trigger] lines[i].0 == k,
        keys_differ(lines) ==> map_of(lines).dom().len() == lines.len(),
        keys_differ(lines) ==> forall|i: int|
            0 <= i < lines.len() ==> map_of(lines)[#[trigger] lines[i].0] == lines[i].1,
    decreases lines.len(),
{
    if lines.len() > 0 {
        let front = lines.drop_last();
        lemma_map_of_lines(front);
        let last = lines.last();
        assert forall|k: Seq<char>|
            map_of(lines).dom().contains(k) <==> exists|i: int|
                0 <= i < lines.len() && #[trigger] lines[i].0 == k by {
            if map_of(lines).dom().contains(k) {
                if k == last.0 {
                    assert(lines[lines.len() - 1].0 == k);
                } else {
                    let i = choose|i: int| 0 <= i < front.len() && #[trigger] front[i].0 == k;
                    assert(lines[i].0 == k);
                }
            }
            if exists|i: int| 0 <= i < lines.len() && #[trigger] lines[i].0 == k {
                let i = choose|i: int| 0 <= i < lines.len() && #[trigger] lines[i].0 == k;
                if i < front.len() {
                    assert(front[i].0 == k);
                }
            }
        }
        if keys_differ(lines) {
            assert(keys_differ(front));
            if map_of(front).dom().contains(last.0) {
                let i = choose|i: int| 0 <= i < front.len() && #[trigger] front[i].0 == last.0;
                assert(lines[i].0 == lines[lines.len() - 1].0);
            }
            assert forall|i: int| 0 <= i < lines.len() implies map_of(lines)[#[trigger] lines[i].0]
                == lines[i].1 by {
                if i < front.len() {
                    assert(front[i].0 == lines[i].0);
                    assert(lines[i].0 != lines[lines.len() - 1].0);
                }
            }
        }
    }
}

/// Putting a new entry in the place of a line changes the map as an insertion under that
/// line's key does, where the keys differ.
pub proof fn lemma_replace_line(lines: Seq<Line>, at: int, entry: EntryView)
    requires
        0 <= at < lines.len(),
        keys_differ(lines),
    ensures
        map_of(lines.update(at, (lines[at].0, entry))) == map_of(lines).insert(
            lines[at].0,
            entry,
        ),
        keys_differ(lines.update(at, (lines[at].0, entry))),
    decreases lines.len(),
{
    let changed = lines.update(at, (lines[at].0, entry));
    let front = lines.drop_last();
    if at == lines.len() - 1 {
        assert(changed.drop_last() == front);
        assert(map_of(changed) == map_of(lines).insert(lines[at].0, entry));
    } else {
        lemma_replace_line(front, at, entry);
        assert(changed.drop_last() == front.update(at, (lines[at].0, entry)));
        assert(changed.last() == lines.last());
        assert(lines[at].0 != lines[lines.len() - 1].0);
        assert(map_of(changed) == map_of(lines).insert(lines[at].0, entry));
    }
}

/// Saving the same bytes twice, from whatever posts, leaves one entry for them: the
/// record has the one key of their hash more than before, and the entry under it tells
/// of the save that came last.
pub proof fn lemma_same_content_one_entry(
    db: Map<Seq<char>, EntryView>,
    data: Seq<u8>,
    first_source: Seq<char>,
    first_file: Seq<char>,
    second_source: Seq<char>,
    second_file: Seq<char>,
)
    requires
        db.dom().finite(),
    ensures
        recorded(recorded(db, data, first_source, first_file), data, second_source, second_file)
            == recorded(db, data, second_source, second_file),
        recorded(
            recorded(db, data, first_source, first_file),
            data,
            second_source,
            second_file,
        ).dom() == db.dom().insert(content_hash(data)),
        recorded(
            recorded(db, data, first_source, first_file),
            data,
            second_source,
            second_file,
        ).dom().len() == recorded(db, data, first_source, first_file).dom().len(),
        !db.dom().contains(content_hash(data)) ==> recorded(
            recorded(db, data, first_source, first_file),
            data,
            second_source,
            second_file,
        ).dom().len() == db.dom().len() + 1,
{
    let once = recorded(db, data, first_source, first_file);
    let twice = recorded(once, data, second_source, second_file);
    assert(twice == recorded(db, data, second_source, second_file));
    assert(twice.dom() == db.dom().insert(content_hash(data)));
    assert(twice.dom() == once.dom());
}

/// The record of saved files: for the hash of each saved file's content, the post it came
/// from and where it lies.
#[derive(Debug)]
pub struct WallpaperDb {
    entries: Vec<(String, WallpaperEntry)>,
}

impl View for WallpaperDb {
    type V = Map<Seq<char>, EntryView>;

    closed spec fn view(&self) -> Map<Seq<char>, EntryView> {
        map_of(lines_of(self.entries@))
    }
}

impl WallpaperDb {
    #[verifier::type_invariant]
    spec fn no_key_twice(self) -> bool {
        keys_differ(lines_of(self.entries@))
    }

    /// A record without entries.
    pub fn new() -> (r: WallpaperDb)
        ensures
            r@ == Map::<Seq<char>, EntryView>::empty(),
    {
        WallpaperDb { entries: Vec::new() }
    }

    /// The position of the line with the key `hash`.
    fn position(&self, hash: &str) -> (r: Option<usize>)
        ensures
            match r {
                Some(i) => i < self.entries@.len() && self.entries@[i as int].0@ == hash@,
                None => forall|i: int|
                    0 <= i < self.entries@.len() ==> (#[trigger] self.entries@[i]).0@ != hash@,
            },
    {
        let mut i: usize = 0;
        while i < self.entries.len()
            invariant
                i <= self.entries.len(),
                forall|k: int| 0 <= k < i ==> (#[trigger] self.entries@[k]).0@ != hash@,
            decreases self.entries.len() - i,
        {
            if same_text(self.entries[i].0.as_str(), hash) {
                return Some(i);
            }
            i += 1;
        }
        None
    }

    /// The number of entries.
    pub fn len(&self) -> (r: usize)
        ensures
            r == self@.dom().len(),
            self@.dom().finite(),
    {
        proof {
            use_type_invariant(self);
            lemma_map_of_lines(lines_of(self.entries@));
        }
        self.entries.len()
    }

    /// The entry under `hash`, if there is one.
    pub fn get(&self, hash: &str) -> (r: Option<&WallpaperEntry>)
        ensures
            match r {
                Some(entry) => self@.dom().contains(hash@) && self@[hash@] == entry@,
                None => !self@.dom().contains(hash@),
            },
    {
        proof {
            use_type_invariant(self);
            lemma_map_of_lines(lines_of(self.entries@));
        }
        match self.position(hash) {
            Some(i) => {
                assert(lines_of(self.entries@)[i as int].0 == hash@);
                Some(&self.entries[i].1)
            },
            None => {
                assert forall|i: int| 0 <= i < self.entries@.len() implies (#[trigger] lines_of(
                    self.entries@,
                )[i]).0 != hash@ by {
                    assert(self.entries@[i].0@ != hash@);
                }
                None
            },
        }
    }

    /// Puts `entry` under `hash`, in place of what was there.
    pub fn insert(&mut self, hash: String, entry: WallpaperEntry)
        ensures
            final(self)@ == old(self)@.insert(hash@, entry@),
    {
        proof {
            use_type_invariant(&*self);
        }
        let found = self.position(hash.as_str());
        let mut taken = WallpaperDb::new();
        core::mem::swap(self, &mut taken);
        let mut entries = taken.entries;
        let ghost before = lines_of(entries@);
        match found {
            Some(i) => {
                proof {
                    lemma_replace_line(before, i as int, entry@);
                }
                entries.set(i, (hash, entry));
                assert(lines_of(entries@) == before.update(i as int, (hash@, entry@)));
            },
            None => {
                entries.push((hash, entry));
                assert(lines_of(entries@) == before.push((hash@, entry@)));
                assert(lines_of(entries@).drop_last() == before);
                assert forall|i: int, j: int|
                    0 <= i < j < lines_of(entries@).len() implies lines_of(entries@)[i].0
                    != lines_of(entries@)[j].0 by {
                    if j == before.len() {
                        assert(old(self).entries@[i].0@ != hash@);
                    }
                }
            },
        }
        *self = WallpaperDb { entries };
    }

    /// Notes that a file with the content `data`, from the post at `source`, was saved at
    /// `file`. Hands back the hash under which the entry stands. An entry that was there
    /// for the same content is overwritten.
    pub fn record(&mut self, data: &[u8], source: &str, file: &str) -> (r: String)
        ensures
            r@ == content_hash(data@),
            r@.len() == 64,
            final(self)@ == recorded(old(self)@, data@, source@, file@),
    {
        let hash = Filedown::hash(data);
        let entry = WallpaperEntry::new(String::from_str(source), String::from_str(file));
        self.insert(hash.clone(), entry);
        hash
    }

    /// The hash of an entry that came from the post at `source`, if there is one.
    pub fn find_source(&self, source: &str) -> (r: Option<String>)
        ensures
            match r {
                Some(hash) => self@.dom().contains(hash@) && self@[hash@].source == source@,
                None => !knows_source(self@, source@),
            },
    {
        proof {
            use_type_invariant(self);
            lemma_map_of_lines(lines_of(self.entries@));
        }
        let ghost lines = lines_of(self.entries@);
        let mut i: usize = 0;
        while i < self.entries.len()
            invariant
                i <= self.entries.len(),
                lines == lines_of(self.entries@),
                keys_differ(lines),
                self@ == map_of(lines),
                forall|k: int| 0 <= k < i ==> (#[trigger] lines[k]).1.source != source@,
            decreases self.entries.len() - i,
        {
            if same_text(self.entries[i].1.source.as_str(), source) {
                proof {
                    lemma_map_of_lines(lines);
                }
                assert(lines[i as int].0 == self.entries@[i as int].0@);
                assert(self@[lines[i as int].0] == lines[i as int].1);
                return Some(self.entries[i].0.clone());
            }
            i += 1;
        }
        assert(!knows_source(self@, source@)) by {
            if knows_source(self@, source@) {
                let hash = choose|hash: Seq<char>| #[trigger]
                    self@.dom().contains(hash) && self@[hash].source == source@;
                let k = choose|k: int| 0 <= k < lines.len() && #[trigger] lines[k].0 == hash;
                assert(self@[lines[k].0] == lines[k].1);
            }
        }
        None
    }

    /// True when some entry came from the post at `source`: that post was saved before.
    pub fn has_source(&self, source: &str) -> (r: bool)
        ensures
            r == knows_source(self@, source@),
    {
        match self.find_source(source) {
            Some(hash) => {
                assert(self@.dom().contains(hash@) && self@[hash@].source == source@);
                true
            },
            None => false,
        }
    }

    /// The hash of an entry whose file lies at `file`, if there is one.
    pub fn find_file(&self, file: &str) -> (r: Option<String>)
        ensures
            match r {
                Some(hash) => self@.dom().contains(hash@) && self@[hash@].file == file@,
                None => forall|hash: Seq<char>| #[trigger]
                    self@.dom().contains(hash) ==> self@[hash].file != file@,
            },
    {
        proof {
            use_type_invariant(self);
            lemma_map_of_lines(lines_of(self.entries@));
        }
        let ghost lines = lines_of(self.entries@);
        let mut i: usize = 0;
        while i < self.entries.len()
            invariant
                i <= self.entries.len(),
                lines == lines_of(self.entries@),
                keys_differ(lines),
                self@ == map_of(lines),
                forall|k: int| 0 <= k < i ==> (#[trigger] lines[k]).1.file != file@,
            decreases self.entries.len() - i,
        {
            if same_text(self.entries[i].1.file.as_str(), file) {
                proof {
                    lemma_map_of_lines(lines);
                }
                assert(lines[i as int].0 == self.entries@[i as int].0@);
                assert(self@[lines[i as int].0] == lines[i as int].1);
                return Some(self.entries[i].0.clone());
            }
            i += 1;
        }
        assert forall|hash: Seq<char>| #[trigger] self@.dom().contains(hash) implies self@[hash].file
            != file@ by {
            let k = choose|k: int| 0 <= k < lines.len() && #[trigger] lines[k].0 == hash;
            assert(self@[lines[k].0] == lines[k].1);
        }
        None
    }

    /// The record made of `lines`, taken in their order: of two lines with one hash the
    /// later one stays.
    pub fn from_lines(lines: &Vec<(String, WallpaperEntry)>) -> (r: WallpaperDb)
        ensures
            r@ == map_of(lines_of(lines@)),
    {
        let mut db = WallpaperDb::new();
        let ghost all = lines_of(lines@);
        let mut i: usize = 0;
        while i < lines.len()
            invariant
                i <= lines.len(),
                all == lines_of(lines@),
                db@ == map_of(all.take(i as int)),
            decreases lines.len() - i,
        {
            let line = &lines[i];
            assert(all.take(i + 1).drop_last() == all.take(i as int));
            assert(all.take(i + 1).last() == (line.0@, line.1@));
            db.insert(line.0.clone(), line.1.duplicate());
            i += 1;
        }
        assert(all.take(lines.len() as int) == all);
        db
    }

    /// A copy of the entries, each with its hash, for writing the record out.
    pub fn to_lines(&self) -> (r: Vec<(String, WallpaperEntry)>)
        ensures
            map_of(lines_of(r@)) == self@,
            keys_differ(lines_of(r@)),
            r@.len() == self@.dom().len(),
    {
        proof {
            use_type_invariant(self);
            lemma_map_of_lines(lines_of(self.entries@));
        }
        let mut out: Vec<(String, WallpaperEntry)> = Vec::new();
        let mut i: usize = 0;
        while i < self.entries.len()
            invariant
                i <= self.entries.len(),
                lines_of(out@) == lines_of(self.entries@).take(i as int),
            decreases self.entries.len() - i,
        {
            let line = &self.entries[i];
            out.push((line.0.clone(), line.1.duplicate()));
            assert(lines_of(out@) == lines_of(self.entries@).take(i as int).push(
                (line.0@, line.1@),
            ));
            i += 1;
        }
        assert(lines_of(self.entries@).take(self.entries.len() as int) == lines_of(
            self.entries@,
        ));
        out
    }
}

} // verus!
