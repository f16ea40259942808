//! The name under which a downloaded file is saved: the post's identifier, a name for the
//! file, its number among the files of the post, and an extension.

use vstd::prelude::*;
use vstd::string::StringExecFns;
use crate::downloaders::WallpaperMeta;
use crate::text::opt_text;
use crate::placement::Filedown;
use crate::text::{chars_of, same_text, string_of_range, push_decimal, decimal};

verus! {

/// The file extension for a declared content type. A type that is not in the table gives
/// `bin`.
pub open spec fn known_extension(content_type: Seq<char>) -> Seq<char> {
    if content_type == "image/bmp"@ {
        "bmp"@
    } else if content_type == "image/apng"@ {
        "apng"@
    } else if content_type == "image/png"@ {
        "png"@
    } else if content_type == "image/jpeg"@ {
        "jpg"@
    } else if content_type == "image/gif"@ {
        "gif"@
    } else if content_type == "image/avif"@ {
        "avif"@
    } else if content_type == "image/webp"@ {
        "webp"@
    } else {
        "bin"@
    }
}

/// The file extension for what an answer declares of its content: that of the declared
/// type, and `bin` where no type is declared.
pub open spec fn extension_for(content_type: Option<Seq<char>>) -> Seq<char> {
    match content_type {
        Some(t) => known_extension(t),
        None => "bin"@,
    }
}

/// The length of `path` once the slashes and the `.` segments at its end are left off.
pub open spec fn trimmed_len(path: Seq<char>) -> nat
    decreases path.len(),
{
    if path.len() == 0 {
        0
    } else if path.last() == '/' {
        trimmed_len(path.drop_last())
    } else if path.last() == '.' && (path.len() == 1 || path[path.len() - 2] == '/') {
        trimmed_len(path.drop_last())
    } else {
        path.len()
    }
}

/// Where the segment that ends before position `end` begins: behind the last slash
/// before `end`, or at 0 where there is none.
pub open spec fn segment_start(path: Seq<char>, end: int) -> int
    decreases end,
{
    if end <= 0 {
        0
    } else if path[end - 1] == '/' {
        end
    } else {
        segment_start(path, end - 1)
    }
}

/// The last segment of a slash-separated path that names something: empty segments and
/// `.` segments at the end are passed over. There is none where nothing is left, or where
/// what is left ends in `..`.
pub open spec fn final_name(path: Seq<char>) -> Option<Seq<char>> {
    let end = trimmed_len(path) as int;
    let name = path.subrange(segment_start(path, end), end);
    if end == 0 || name == seq!['.', '.'] {
        None
    } else {
        Some(name)
    }
}

/// Where the trimming of a path stops: at no slash, and at no `.` that is a segment of
/// its own.
pub proof fn lemma_trimmed_len(path: Seq<char>)
    ensures
        trimmed_len(path) <= path.len(),
        trimmed_len(path) > 0 ==> path[trimmed_len(path) - 1] != '/',
        trimmed_len(path) > 0 && path[trimmed_len(path) - 1] == '.' ==> trimmed_len(path) >= 2
            && path[trimmed_len(path) - 2] != '/',
    decreases path.len(),
{
    if path.len() > 0 {
        lemma_trimmed_len(path.drop_last());
    }
}

/// Where a segment begins: behind a slash or at the start of the path, with no slash
/// between there and the segment's end.
pub proof fn lemma_segment_start(path: Seq<char>, end: int)
    requires
        0 <= end <= path.len(),
    ensures
        0 <= segment_start(path, end) <= end,
        segment_start(path, end) > 0 ==> path[segment_start(path, end) - 1] == '/',
        forall|k: int| segment_start(path, end) <= k < end ==> path[k] != '/',
        end > 0 && path[end - 1] != '/' ==> segment_start(path, end) < end,
    decreases end,
{
    if end > 0 && path[end - 1] != '/' {
        lemma_segment_start(path, end - 1);
    }
}

/// A path's final name is a segment that names something: it is not empty, holds no
/// slash, and is neither `.` nor `..`.
pub proof fn lemma_final_name(path: Seq<char>)
    requires
        final_name(path) is Some,
    ensures
        final_name(path)->0.len() > 0,
        !final_name(path)->0.contains('/'),
        final_name(path)->0 != seq!['.'],
        final_name(path)->0 != seq!['.', '.'],
{
    let end = trimmed_len(path) as int;
    lemma_trimmed_len(path);
    lemma_segment_start(path, end);
    let start = segment_start(path, end);
    let name = path.subrange(start, end);
    assert forall|k: int| 0 <= k < name.len() implies name[k] != '/' by {
        assert(name[k] == path[start + k]);
    }
    if name == seq!['.'] {
        assert(name.len() == 1);
        assert(name[0] == path[start]);
    }
}

/// The stem of a name is a beginning of the name, and is empty only where the name is.
pub proof fn lemma_stem_of(name: Seq<char>)
    ensures
        stem_of(name).is_prefix_of(name),
        name.len() > 0 ==> stem_of(name).len() > 0,
        -1 <= last_dot(name) < name.len(),
        last_dot(name) >= 0 ==> name[last_dot(name)] == '.',
        forall|k: int| last_dot(name) < k < name.len() ==> name[k] != '.',
    decreases name.len(),
{
    if name.len() > 0 {
        let front = name.drop_last();
        lemma_stem_of(front);
        assert forall|k: int| last_dot(name) < k < name.len() implies name[k] != '.' by {
            if k < front.len() {
                assert(front[k] == name[k]);
            }
        }
    }
}

/// The position of the last `.` in `name`, or -1 where it has none.
pub open spec fn last_dot(name: Seq<char>) -> int
    decreases name.len(),
{
    if name.len() == 0 {
        -1
    } else if name.last() == '.' {
        name.len() - 1
    } else {
        last_dot(name.drop_last())
    }
}

/// A file name without its extension: what stands before the last `.`, or the whole name
/// where it has no `.` or only one at its very beginning.
pub open spec fn stem_of(name: Seq<char>) -> Seq<char> {
    let dot = last_dot(name);
    if dot <= 0 {
        name
    } else {
        name.take(dot)
    }
}

/// The stem of the file that a slash-separated path names, if it names one.
pub open spec fn path_stem(path: Seq<char>) -> Option<Seq<char>> {
    match final_name(path) {
        Some(name) => Some(stem_of(name)),
        None => None,
    }
}

/// One parameter of a header: its key and its value.
pub type Param = (Seq<char>, Seq<char>);

/// The parameters that `mailparse::parse_content_disposition` reads from the header value
/// `header`, each as key and value, in the order in which its map of parameters hands
/// them out.
pub uninterp spec fn disposition_params(header: Seq<char>) -> Seq<Param>;

/// The values of a list of parameters.
pub open spec fn params_of(params: Seq<(String, String)>) -> Seq<Param> {
    params.map_values(|p: (String, String)| (p.0@, p.1@))
}

/// The value of the first of `params` that has the key `key`.
pub open spec fn param_value(params: Seq<Param>, key: Seq<char>) -> Option<Seq<char>>
    decreases params.len(),
{
    if params.len() == 0 {
        None
    } else if params[0].0 == key {
        Some(params[0].1)
    } else {
        param_value(params.skip(1), key)
    }
}

/// The BLAKE3 hash of `data` as `blake3::hash` computes it, in lowercase hexadecimal.
pub uninterp spec fn content_hash(data: Seq<u8>) -> Seq<char>;

/// The first name that is there: the title, else the name from the header, else the stem
/// of the path.
pub open spec fn first_name(
    title: Option<Seq<char>>,
    header_name: Option<Seq<char>>,
    stem: Option<Seq<char>>,
) -> Option<Seq<char>> {
    match title {
        Some(t) => Some(t),
        None => match header_name {
            Some(h) => Some(h),
            None => stem,
        },
    }
}

/// The name that a Content-Disposition header gives to a file: the value of its parameter
/// `filename`, where there is a header and it has that parameter.
pub open spec fn header_name(content_disposition: Option<Seq<char>>) -> Option<Seq<char>> {
    match content_disposition {
        Some(header) => param_value(disposition_params(header), "filename"@),
        None => None,
    }
}

/// The name under which a file is saved, before identifier and extension are put around
/// it: the first of title, name from the header and stem of the path; the hash of the
/// file's content where none of them is there.
pub open spec fn name_for(
    title: Option<Seq<char>>,
    content_disposition: Option<Seq<char>>,
    path: Seq<char>,
    data: Seq<u8>,
) -> Seq<char> {
    match first_name(title, header_name(content_disposition), path_stem(path)) {
        Some(name) => name,
        None => content_hash(data),
    }
}

/// The number that the file at `position` of `total` gets: positions count from 0, numbers
/// from 1. A post with a single file gets no number.
pub open spec fn index_of(total: nat, position: nat) -> Option<nat> {
    if total > 1 {
        Some(position + 1)
    } else {
        None
    }
}

/// The file name `{id}-{name}.{ext}`, with `-{count}` behind the name where there is a
/// count.
pub open spec fn file_name_text(
    id: Seq<char>,
    name: Seq<char>,
    ext: Seq<char>,
    count: Option<nat>,
) -> Seq<char> {
    let numbered = match count {
        Some(c) => name + seq!['-'] + decimal(c),
        None => name,
    };
    id + seq!['-'] + numbered + seq!['.'] + ext
}

/// The files of a post with several images are numbered from 1 in the order of the
/// images, each number one above the one before; the only file of a post gets none.
pub proof fn lemma_indices_ascend(total: nat, position: nat)
    requires
        position < total,
    ensures
        total == 1 ==> index_of(total, position) is None,
        total > 1 ==> index_of(total, 0) == Some(1nat),
        total > 1 ==> index_of(total, position) == Some(position + 1),
        total > 1 && position + 1 < total ==> index_of(total, position + 1)->0 == index_of(
            total,
            position,
        )->0 + 1,
{
}

/// The fallback order of names: a title wins over everything, a name from the header over
/// the path, and the path's stem over the content hash, which is taken only where
/// nothing else is there.
pub proof fn lemma_name_fallback(
    title: Option<Seq<char>>,
    content_disposition: Option<Seq<char>>,
    path: Seq<char>,
    data: Seq<u8>,
)
    ensures
        title is Some ==> name_for(title, content_disposition, path, data) == title->0,
        title is None && header_name(content_disposition) is Some ==> name_for(
            title,
            content_disposition,
            path,
            data,
        ) == header_name(content_disposition)->0,
        title is None && header_name(content_disposition) is None && path_stem(path) is Some
            ==> name_for(title, content_disposition, path, data) == path_stem(path)->0,
        title is None && header_name(content_disposition) is None && path_stem(path) is None
            ==> name_for(title, content_disposition, path, data) == content_hash(data),
{
}

/// Reads `header` with `mailparse::parse_content_disposition` and hands back the
/// parameters that it found, each as key and value, in the order of its map.
#[verifier::external_body]
fn parse_disposition_params(header: &str) -> (r: Vec<(String, String)>)
    ensures
        params_of(r@) == disposition_params(header@),
{
    mailparse::parse_content_disposition(header).params.into_iter().collect()
}

/// Hashes `data` with `blake3::hash` and writes the hash out in lowercase hexadecimal:
/// two characters for each of its 32 bytes.
#[verifier::external_body]
fn blake3_hex(data: &[u8]) -> (r: String)
    ensures
        r@ == content_hash(data@),
        r@.len() == 64,
{
    blake3::hash(data).to_string()
}

/// What came back for one image: the bytes, and what the answer said about them.
#[derive(Debug)]
pub struct Fetched {
    /// The bytes of the file.
    pub data: Vec<u8>,
    /// The declared content type, where the answer had one.
    pub content_type: Option<String>,
    /// The Content-Disposition header, where the answer had one.
    pub content_disposition: Option<String>,
    /// The path of the URL that answered in the end.
    pub path: String,
}

impl Filedown {
    /// The file extension for the declared content type of an answer; none where the
    /// answer declares no type.
    pub fn file_ext(content_type: Option<&str>) -> (r: Option<&'static str>)
        ensures
            match r {
                Some(ext) => content_type matches Some(t) && ext@ == known_extension(t@),
                None => content_type is None,
            },
    {
        match content_type {
            None => None,
            Some(t) => Some(
                if same_text(t, "image/bmp") {
                    "bmp"
                } else if same_text(t, "image/apng") {
                    "apng"
                } else if same_text(t, "image/png") {
                    "png"
                } else if same_text(t, "image/jpeg") {
                    "jpg"
                } else if same_text(t, "image/gif") {
                    "gif"
                } else if same_text(t, "image/avif") {
                    "avif"
                } else if same_text(t, "image/webp") {
                    "webp"
                } else {
                    "bin"
                },
            ),
        }
    }

    /// The file name given by a Content-Disposition header, where there is one.
    pub fn filename_content_disposition(condisp: Option<&str>) -> (r: Option<String>)
        ensures
            opt_text(r) == header_name(
                match condisp {
                    Some(h) => Some(h@),
                    None => None,
                },
            ),
    {
        match condisp {
            Some(header) => {
                let params = parse_disposition_params(header);
                Filedown::param(&params, "filename")
            },
            None => None,
        }
    }

    /// The value of the first of `params` that has the key `key`.
    pub fn param(params: &Vec<(String, String)>, key: &str) -> (r: Option<String>)
        ensures
            opt_text(r) == param_value(params_of(params@), key@),
    {
        let ghost all = params_of(params@);
        let mut i: usize = 0;
        assert(all.skip(0) == all);
        while i < params.len()
            invariant
                i <= params.len(),
                all == params_of(params@),
                param_value(all, key@) == param_value(all.skip(i as int), key@),
            decreases params.len() - i,
        {
            assert(all.skip(i as int)[0] == (params@[i as int].0@, params@[i as int].1@));
            if same_text(params[i].0.as_str(), key) {
                return Some(params[i].1.clone());
            }
            assert(all.skip(i as int).skip(1) == all.skip(i + 1));
            i += 1;
        }
        None
    }

    /// The stem of the file that the path of a URL names.
    pub fn filename_url_path(path: &str) -> (r: Option<String>)
        ensures
            opt_text(r) == path_stem(path@),
    {
        let p = chars_of(path);
        let mut end: usize = p.len();
        let mut trimming = true;
        assert(p@.take(end as int) == p@);
        while trimming
            invariant
                end <= p.len(),
                trimmed_len(p@) == trimmed_len(p@.take(end as int)),
                !trimming ==> trimmed_len(p@.take(end as int)) == end,
            decreases
                    (if trimming {
                        end + 1
                    } else {
                        0
                    }),
        {
            let ghost q = p@.take(end as int);
            if end == 0 {
                trimming = false;
            } else if p[end - 1] == '/' {
                assert(q.drop_last() == p@.take(end - 1));
                end -= 1;
            } else if p[end - 1] == '.' && (end == 1 || p[end - 2] == '/') {
                assert(q.drop_last() == p@.take(end - 1));
                end -= 1;
            } else {
                trimming = false;
            }
        }
        if end == 0 {
            return None;
        }
        let mut start: usize = end;
        while start > 0 && p[start - 1] != '/'
            invariant
                start <= end <= p.len(),
                segment_start(p@, end as int) == segment_start(p@, start as int),
            decreases start,
        {
            start -= 1;
        }
        let ghost name = p@.subrange(start as int, end as int);
        if end - start == 2 && p[start] == '.' && p[start + 1] == '.' {
            assert(name == seq!['.', '.']);
            return None;
        }
        assert(name != seq!['.', '.']) by {
            if name == seq!['.', '.'] {
                assert(name.len() == 2);
                assert(name[0] == '.' && name[1] == '.');
            }
        }
        let mut cut: usize = end;
        let mut searching = true;
        assert(name.take(end - start) == name);
        while searching
            invariant
                start <= cut <= end <= p.len(),
                name == p@.subrange(start as int, end as int),
                last_dot(name) == last_dot(name.take(cut - start)),
                !searching ==> last_dot(name.take(cut - start)) == cut - start - 1,
            decreases
                    (if searching {
                        cut - start + 1
                    } else {
                        0
                    }),
        {
            let ghost q = name.take(cut - start);
            if cut == start {
                searching = false;
            } else if p[cut - 1] == '.' {
                assert(q.last() == '.');
                searching = false;
            } else {
                assert(q.drop_last() == name.take(cut - 1 - start));
                cut -= 1;
            }
        }
        if cut - start <= 1 {
            Some(string_of_range(&p, start, end))
        } else {
            assert(name.take(cut - start - 1) == p@.subrange(start as int, cut - 1));
            Some(string_of_range(&p, start, cut - 1))
        }
    }

    /// Picks the name of a file from what is known: the title, else the name that the
    /// header gave, else the stem of the path.
    pub fn pick_name(title: Option<&String>, from_header: Option<String>, path: &str) -> (r:
        Option<String>)
        ensures
            opt_text(r) == first_name(
                match title {
                    Some(t) => Some(t@),
                    None => None,
                },
                opt_text(from_header),
                path_stem(path@),
            ),
    {
        match title {
            Some(t) => Some(t.clone()),
            None => match from_header {
                Some(h) => Some(h),
                None => Filedown::filename_url_path(path),
            },
        }
    }

    /// Finds a name for a file: the post's title, else the `filename` of the
    /// Content-Disposition header, else the stem of the path of the URL.
    pub fn file_name(title: Option<&String>, condisp: Option<&str>, path: &str) -> (r: Option<
        String,
    >)
        ensures
            opt_text(r) == first_name(
                match title {
                    Some(t) => Some(t@),
                    None => None,
                },
                header_name(
                    match condisp {
                        Some(h) => Some(h@),
                        None => None,
                    },
                ),
                path_stem(path@),
            ),
    {
        match title {
            Some(t) => Some(t.clone()),
            None => Filedown::pick_name(
                None,
                Filedown::filename_content_disposition(condisp),
                path,
            ),
        }
    }

    /// The hash of a file's content, which keys the record of saved files. It is of one
    /// width for every content.
    pub fn hash(data: &[u8]) -> (r: String)
        ensures
            r@ == content_hash(data@),
            r@.len() == 64,
    {
        blake3_hex(data)
    }

    /// Takes what came back for one image of a post and settles the two parts of its file
    /// name that depend on it: the name and the extension. The bytes are handed on.
    pub fn download_file(wallmeta: &WallpaperMeta, fetched: Fetched) -> (r: (
        Vec<u8>,
        String,
        String,
    ))
        ensures
            r.0@ == fetched.data@,
            r.1@ == name_for(
                wallmeta@.title,
                opt_text(fetched.content_disposition),
                fetched.path@,
                fetched.data@,
            ),
            r.2@ == extension_for(opt_text(fetched.content_type)),
    {
        let condisp = match &fetched.content_disposition {
            Some(h) => Some(h.as_str()),
            None => None,
        };
        let ctype = match &fetched.content_type {
            Some(t) => Some(t.as_str()),
            None => None,
        };
        let name = match Filedown::file_name(wallmeta.title.as_ref(), condisp, fetched.path.as_str()) {
            Some(n) => n,
            None => Filedown::hash(fetched.data.as_slice()),
        };
        let ext = match Filedown::file_ext(ctype) {
            Some(ext) => String::from_str(ext),
            None => String::from_str("bin"),
        };
        (fetched.data, name, ext)
    }

    /// The number for the file at `position` among the `total` images of a post.
    pub fn counter(total: usize, position: usize) -> (r: Option<u64>)
        requires
            position < total,
        ensures
            match r {
                Some(c) => index_of(total as nat, position as nat) == Some(c as nat),
                None => index_of(total as nat, position as nat) is None,
            },
    {
        if total > 1 {
            Some((position + 1) as u64)
        } else {
            None
        }
    }

    /// Writes the file name of a download: identifier, name, the number where the post has
    /// several images, and extension.
    pub fn format_file(meta: &WallpaperMeta, name: &str, ext: &str, count: Option<u64>) -> (r:
        String)
        ensures
            r@ == file_name_text(
                meta@.id,
                name@,
                ext@,
                match count {
                    Some(c) => Some(c as nat),
                    None => None,
                },
            ),
    {
        let mut out = meta.id.clone();
        out.push('-');
        out.append(name);
        match count {
            Some(c) => {
                out.push('-');
                push_decimal(&mut out, c);
                assert(out@ == meta@.id + seq!['-'] + (name@ + seq!['-'] + decimal(c as nat)));
            },
            None => {
                assert(out@ == meta@.id + seq!['-'] + name@);
            },
        }
        out.push('.');
        out.append(ext);
        out
    }
}

} // verus!
