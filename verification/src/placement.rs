//! Where a downloaded file goes: its subdirectory, chosen by host or by genre.

use vstd::prelude::*;
use vstd::string::StringExecFns;
use crate::config::{Config, ConfigView, GenreView, Sort, table_view};
use crate::text::texts;
use crate::text::{chars_of, same_text};

verus! {

/// How many of `keywords` occur among `tags`. A keyword that is listed twice counts twice.
pub open spec fn score(keywords: Seq<Seq<char>>, tags: Seq<Seq<char>>) -> nat
    decreases keywords.len(),
{
    if keywords.len() == 0 {
        0
    } else {
        score(keywords.drop_last(), tags) + if tags.contains(keywords.last()) {
            1nat
        } else {
            0nat
        }
    }
}

/// The score of each line of the genre table, in the table's order.
pub open spec fn scores(table: Seq<GenreView>, tags: Seq<Seq<char>>) -> Seq<nat> {
    table.map_values(|g: GenreView| score(g.keywords, tags))
}

/// The position of the first greatest value in `values`; 0 where there is none.
pub open spec fn leader(values: Seq<nat>) -> int
    decreases values.len(),
{
    if values.len() <= 1 {
        0
    } else {
        let before = leader(values.drop_last());
        if values.last() > values[before] {
            values.len() - 1
        } else {
            before
        }
    }
}

/// The genre under which a post with `tags` is filed: the first line of the table with the
/// greatest score, unless files are not sorted by genre, no table is configured, the
/// table is empty, or no line scores at all.
pub open spec fn genre_for(conf: ConfigView, tags: Seq<Seq<char>>) -> Option<Seq<char>> {
    if conf.download.sort != Sort::Genres {
        None
    } else {
        match conf.genres {
            None => None,
            Some(table) => {
                let all = scores(table, tags);
                let best = leader(all);
                if table.len() == 0 || all[best] == 0 {
                    None
                } else {
                    Some(table[best].name)
                }
            },
        }
    }
}

/// The subdirectory for a post from `host` with `tags`: its genre where one is found, the
/// host otherwise.
pub open spec fn directory_for(conf: ConfigView, host: Seq<char>, tags: Seq<Seq<char>>) -> Seq<
    char,
> {
    match genre_for(conf, tags) {
        Some(genre) => genre,
        None => host,
    }
}

/// The leader of a non-empty sequence is the first position that holds its greatest value:
/// nothing is greater, and everything before it is smaller. So a tie goes to the line that
/// comes first.
pub proof fn lemma_leader_is_first_greatest(values: Seq<nat>)
    requires
        values.len() > 0,
    ensures
        0 <= leader(values) < values.len(),
        forall|k: int| 0 <= k < values.len() ==> #[trigger] values[k] <= values[leader(values)],
        forall|k: int| 0 <= k < leader(values) ==> #[trigger] values[k] < values[leader(values)],
    decreases values.len(),
{
    if values.len() > 1 {
        let front = values.drop_last();
        lemma_leader_is_first_greatest(front);
        assert(forall|k: int| 0 <= k < front.len() ==> front[k] == values[k]);
    }
}

/// Only one position is the first greatest: whatever position has nothing greater in the
/// sequence and only smaller values before it is the leader.
pub proof fn lemma_leader_is_unique(values: Seq<nat>, at: int)
    requires
        0 <= at < values.len(),
        forall|k: int| 0 <= k < values.len() ==> #[trigger] values[k] <= values[at],
        forall|k: int| 0 <= k < at ==> #[trigger] values[k] < values[at],
    ensures
        leader(values) == at,
{
    lemma_leader_is_first_greatest(values);
    let found = leader(values);
    if found < at {
        assert(values[found] < values[at]);
    } else if at < found {
        assert(values[at] < values[found]);
    }
}

/// The choice of a genre depends on the table and on which tags the post has, not on the
/// order of the tags nor on how often one is repeated.
pub proof fn lemma_genre_depends_on_tag_set(
    conf: ConfigView,
    tags: Seq<Seq<char>>,
    others: Seq<Seq<char>>,
)
    requires
        tags.to_set() == others.to_set(),
    ensures
        genre_for(conf, tags) == genre_for(conf, others),
{
    if conf.genres is Some {
        let table = conf.genres->0;
        assert forall|i: int| 0 <= i < table.len() implies score(table[i].keywords, tags) == score(
            table[i].keywords,
            others,
        ) by {
            lemma_score_depends_on_tag_set(table[i].keywords, tags, others);
        }
        assert(scores(table, tags) =~= scores(table, others));
    }
}

/// The score of a line depends only on which tags the post has.
pub proof fn lemma_score_depends_on_tag_set(
    keywords: Seq<Seq<char>>,
    tags: Seq<Seq<char>>,
    others: Seq<Seq<char>>,
)
    requires
        tags.to_set() == others.to_set(),
    ensures
        score(keywords, tags) == score(keywords, others),
    decreases keywords.len(),
{
    if keywords.len() > 0 {
        lemma_score_depends_on_tag_set(keywords.drop_last(), tags, others);
        let last = keywords.last();
        assert(tags.contains(last) == tags.to_set().contains(last));
        assert(others.contains(last) == others.to_set().contains(last));
    }
}

/// The path of a file in a subdirectory, relative to the download directory.
pub open spec fn relative_path(directory: Seq<char>, file: Seq<char>) -> Seq<char> {
    directory + seq!['/'] + file
}

/// The path of `rest` below the directory `root`: the two with one slash between them.
pub open spec fn joined(root: Seq<char>, rest: Seq<char>) -> Seq<char> {
    if root.len() == 0 || root.last() == '/' {
        root + rest
    } else {
        root + seq!['/'] + rest
    }
}

/// The genre that is chosen is the first line of the table with the greatest score: no
/// line scores higher, every line before it scores lower, and it scores at all. Where
/// no line scores, none is chosen.
pub proof fn lemma_chosen_genre(conf: ConfigView, tags: Seq<Seq<char>>)
    requires
        conf.download.sort == Sort::Genres,
        conf.genres is Some,
        conf.genres->0.len() > 0,
    ensures
        ({
            let table = conf.genres->0;
            let all = scores(table, tags);
            let best = leader(all);
            &&& 0 <= best < table.len()
            &&& forall|k: int| 0 <= k < table.len() ==> #[trigger] all[k] <= all[best]
            &&& forall|k: int| 0 <= k < best ==> #[trigger] all[k] < all[best]
            &&& all[best] == score(table[best].keywords, tags)
            &&& genre_for(conf, tags) == if all[best] > 0 {
                Some(table[best].name)
            } else {
                None
            }
        }),
{
    lemma_leader_is_first_greatest(scores(conf.genres->0, tags));
}

/// File placement: the directory and the name under which a download is saved.
pub struct Filedown;

impl Filedown {
    /// True when `wanted` is one of `items`.
    fn holds(items: &[String], wanted: &String) -> (r: bool)
        ensures
            r == texts(items@).contains(wanted@),
    {
        let mut i: usize = 0;
        while i < items.len()
            invariant
                i <= items.len(),
                forall|k: int| 0 <= k < i ==> texts(items@)[k] != wanted@,
            decreases items.len() - i,
        {
            if same_text(items[i].as_str(), wanted.as_str()) {
                assert(texts(items@)[i as int] == wanted@);
                return true;
            }
            i += 1;
        }
        false
    }

    /// Counts the keywords of a genre that occur among the tags of an image.
    pub fn match_genre(genre: &[String], image: &[String]) -> (r: usize)
        ensures
            r == score(texts(genre@), texts(image@)),
    {
        let mut count: usize = 0;
        let mut i: usize = 0;
        while i < genre.len()
            invariant
                i <= genre.len(),
                count <= i,
                count == score(texts(genre@).take(i as int), texts(image@)),
            decreases genre.len() - i,
        {
            assert(texts(genre@).take(i + 1).drop_last() == texts(genre@).take(i as int));
            assert(texts(genre@).take(i + 1).last() == genre@[i as int]@);
            if Filedown::holds(image, &genre[i]) {
                count += 1;
            }
            i += 1;
        }
        assert(texts(genre@).take(genre.len() as int) == texts(genre@));
        count
    }

    /// The genre that matches the tags of an image best, if files are sorted by genre and
    /// any line of the table matches at all. Of several best lines the first one wins.
    pub fn most_matching_genre(conf: &Config, walltags: &[String]) -> (r: Option<String>)
        ensures
            match r {
                Some(name) => genre_for(conf@, texts(walltags@)) == Some(name@),
                None => genre_for(conf@, texts(walltags@)) is None,
            },
    {
        match conf.download.sort {
            Sort::Hostname => {
                return None;
            },
            Sort::Genres => {},
        }
        let table = match &conf.genres {
            None => {
                return None;
            },
            Some(table) => table.rows(),
        };
        if table.len() == 0 {
            return None;
        }
        let ghost tags = texts(walltags@);
        let ghost all = scores(table_view(table@), tags);
        let mut best: usize = 0;
        let mut bestmatch: usize = Filedown::match_genre(table[0].keywords.as_slice(), walltags);
        let mut i: usize = 1;
        assert(all.take(1).drop_last() == all.take(0));
        while i < table.len()
            invariant
                1 <= i <= table.len(),
                tags == texts(walltags@),
                all == scores(table_view(table@), tags),
                best == leader(all.take(i as int)),
                0 <= best < i,
                bestmatch == all[best as int],
            decreases table.len() - i,
        {
            let matchness = Filedown::match_genre(table[i].keywords.as_slice(), walltags);
            assert(all.take(i + 1).drop_last() == all.take(i as int));
            assert(all.take(i + 1).last() == all[i as int]);
            if matchness > bestmatch {
                best = i;
                bestmatch = matchness;
            }
            i += 1;
        }
        assert(all.take(table.len() as int) == all);
        if bestmatch == 0 {
            None
        } else {
            Some(table[best].name.clone())
        }
    }

    /// The subdirectory, relative to the download directory, for a post from `host` with
    /// `tags`: the best-matching genre, or the host where no genre is found.
    pub fn resolve_path(conf: &Config, host: &str, tags: &[String]) -> (r: String)
        ensures
            r@ == directory_for(conf@, host@, texts(tags@)),
    {
        match Filedown::most_matching_genre(conf, tags) {
            Some(genre) => genre,
            None => String::from_str(host),
        }
    }
    /// The path of `rest` below the directory `root`.
    pub fn join(root: &str, rest: &str) -> (r: String)
        ensures
            r@ == joined(root@, rest@),
    {
        let head = chars_of(root);
        let mut out = String::from_str(root);
        if head.len() > 0 && head[head.len() - 1] != '/' {
            out.push('/');
        }
        out.append(rest);
        out
    }

    /// Joins a subdirectory and a file name into the path that the record keeps.
    pub fn relative_file(directory: &str, file: &str) -> (r: String)
        ensures
            r@ == relative_path(directory@, file@),
    {
        let mut out = String::from_str(directory);
        out.push('/');
        out.append(file);
        out
    }
}

} // verus!
