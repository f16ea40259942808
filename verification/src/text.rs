//! Text helpers over `Seq<char>` models, shared by the other modules.

use vstd::prelude::*;
use vstd::string::StringExecFns;

verus! {

/// `std::string::String::push` appends exactly one character at the end.
pub assume_specification[ String::push ](s: &mut String, ch: char)
    ensures
        final(s)@ == old(s)@.push(ch),
;

/// The text in an optional string.
pub open spec fn opt_text(s: Option<String>) -> Option<Seq<char>> {
    match s {
        Some(t) => Some(t@),
        None => None,
    }
}

/// The texts of a sequence of strings.
pub open spec fn texts(items: Seq<String>) -> Seq<Seq<char>> {
    items.map_values(|s: String| s@)
}

/// The characters of `s`, in order.
pub fn chars_of(s: &str) -> (v: Vec<char>)
    ensures
        v@ == s@,
{
    let mut v: Vec<char> = Vec::new();
    for c in it: s.chars()
        invariant
            it.seq() == s@,
            v@ == it.seq().take(it.index() as int),
    {
        v.push(c);
    }
    v
}

/// The string spelled by `v`.
pub fn string_of(v: &Vec<char>) -> (s: String)
    ensures
        s@ == v@,
{
    let mut s = String::new();
    let mut i: usize = 0;
    while i < v.len()
        invariant
            i <= v.len(),
            s@ == v@.take(i as int),
        decreases v.len() - i,
    {
        s.push(v[i]);
        i += 1;
    }
    s
}

/// True when `a` and `b` spell the same text.
pub fn same_text(a: &str, b: &str) -> (r: bool)
    ensures
        r == (a@ == b@),
{
    let x = chars_of(a);
    let y = chars_of(b);
    if x.len() != y.len() {
        return false;
    }
    let mut i: usize = 0;
    while i < x.len()
        invariant
            i <= x.len(),
            x.len() == y.len(),
            x@ == a@,
            y@ == b@,
            x@.take(i as int) == y@.take(i as int),
        decreases x.len() - i,
    {
        if x[i] != y[i] {
            return false;
        }
        assert(x@.take(i + 1) == x@.take(i as int).push(x@[i as int]));
        assert(y@.take(i + 1) == y@.take(i as int).push(y@[i as int]));
        i += 1;
    }
    assert(x@ == x@.take(x.len() as int));
    assert(y@ == y@.take(y.len() as int));
    true
}

/// `s` without the leading `p`; `s` itself when it does not start with `p`.
pub open spec fn strip_prefix(s: Seq<char>, p: Seq<char>) -> Seq<char> {
    if p.is_prefix_of(s) {
        s.skip(p.len() as int)
    } else {
        s
    }
}

/// What follows a prefix is what is left when the prefix is stripped.
pub proof fn lemma_strip_prefix_of_joined(p: Seq<char>, rest: Seq<char>)
    ensures
        strip_prefix(p + rest, p) == rest,
        prefix_swapped(p + rest, p, Seq::empty()) == rest,
{
    assert((p + rest).subrange(0, p.len() as int) == p);
    assert((p + rest).skip(p.len() as int) == rest);
    assert(Seq::<char>::empty() + rest == rest);
}

/// `s` with every occurrence of a non-empty `from` replaced by `to`. Occurrences are found
/// from left to right and do not overlap. An empty `from` leaves `s` as it is.
pub open spec fn rewritten(s: Seq<char>, from: Seq<char>, to: Seq<char>) -> Seq<char>
    decreases s.len(),
{
    if from.len() == 0 || s.len() == 0 {
        s
    } else if from.is_prefix_of(s) {
        to + rewritten(s.skip(from.len() as int), from, to)
    } else {
        seq![s[0]] + rewritten(s.skip(1), from, to)
    }
}

/// The decimal digit for `d`, which is below ten.
pub open spec fn digit(d: nat) -> char {
    if d == 0 {
        '0'
    } else if d == 1 {
        '1'
    } else if d == 2 {
        '2'
    } else if d == 3 {
        '3'
    } else if d == 4 {
        '4'
    } else if d == 5 {
        '5'
    } else if d == 6 {
        '6'
    } else if d == 7 {
        '7'
    } else if d == 8 {
        '8'
    } else {
        '9'
    }
}

/// `n` written in base ten, without leading zeros.
pub open spec fn decimal(n: nat) -> Seq<char>
    decreases n,
{
    if n < 10 {
        seq![digit(n)]
    } else {
        decimal(n / 10).push(digit(n % 10))
    }
}

/// True when `p` stands in `s` at offset `at`.
fn stands_at(s: &Vec<char>, at: usize, p: &Vec<char>) -> (r: bool)
    requires
        at <= s.len(),
    ensures
        r == p@.is_prefix_of(s@.skip(at as int)),
{
    if p.len() > s.len() - at {
        return false;
    }
    let mut i: usize = 0;
    while i < p.len()
        invariant
            i <= p.len(),
            at + p.len() <= s.len(),
            forall|k: int| 0 <= k < i ==> p@[k] == s@[at + k],
        decreases p.len() - i,
    {
        if p[i] != s[at + i] {
            assert(s@.skip(at as int)[i as int] == s@[at + i]);
            return false;
        }
        i += 1;
    }
    assert(p@ =~= s@.skip(at as int).subrange(0, p@.len() as int));
    true
}

/// The string spelled by `v` from position `from` up to, not including, position `to`.
pub fn string_of_range(v: &Vec<char>, from: usize, to: usize) -> (s: String)
    requires
        from <= to <= v.len(),
    ensures
        s@ == v@.subrange(from as int, to as int),
{
    let mut s = String::new();
    let mut i: usize = from;
    while i < to
        invariant
            from <= i <= to <= v.len(),
            s@ == v@.subrange(from as int, i as int),
        decreases to - i,
    {
        s.push(v[i]);
        i += 1;
    }
    s
}

/// True when `s` ends with `p`.
pub fn ends_with(s: &str, p: &str) -> (r: bool)
    ensures
        r == p@.is_suffix_of(s@),
{
    let text = chars_of(s);
    let tail = chars_of(p);
    if tail.len() > text.len() {
        return false;
    }
    let at: usize = text.len() - tail.len();
    let r = stands_at(&text, at, &tail);
    proof {
        let rest = text@.skip(at as int);
        assert(rest.len() == tail@.len());
        assert(rest.subrange(0, tail@.len() as int) == rest);
        assert(rest == text@.subrange(text@.len() - tail@.len(), text@.len() as int));
    }
    r
}

/// `s` with `to` in place of a leading `from`; `s` itself when it does not start with
/// `from`.
pub open spec fn prefix_swapped(s: Seq<char>, from: Seq<char>, to: Seq<char>) -> Seq<char> {
    if from.is_prefix_of(s) {
        to + s.skip(from.len() as int)
    } else {
        s
    }
}

/// Puts `to` in place of a leading `from` in `s`, where there is one.
pub fn swap_prefix(s: &str, from: &str, to: &str) -> (r: String)
    ensures
        r@ == prefix_swapped(s@, from@, to@),
{
    let text = chars_of(s);
    let lead = chars_of(from);
    assert(text@.skip(0) == text@);
    if !stands_at(&text, 0, &lead) {
        return string_of(&text);
    }
    let mut out = String::from_str(to);
    let rest = string_of_range(&text, lead.len(), text.len());
    assert(text@.subrange(lead.len() as int, text.len() as int) == text@.skip(lead.len() as int));
    out.append(rest.as_str());
    out
}

/// Removes a leading `p` from `s`, where there is one.
pub fn without_prefix(s: &str, p: &str) -> (r: String)
    ensures
        r@ == strip_prefix(s@, p@),
{
    let r = swap_prefix(s, p, "");
    proof {
        reveal_strlit("");
        assert(Seq::<char>::empty() + s@.skip(p@.len() as int) == s@.skip(p@.len() as int));
    }
    r
}

/// Replaces every occurrence of `from` in `s` by `to`.
pub fn rewrite_all(s: &str, from: &str, to: &str) -> (r: String)
    ensures
        r@ == rewritten(s@, from@, to@),
{
    let text = chars_of(s);
    let pat = chars_of(from);
    let sub = chars_of(to);
    if pat.len() == 0 {
        return string_of(&text);
    }
    let mut out = String::new();
    let mut i: usize = 0;
    assert(text@.skip(0) == text@);
    while i < text.len()
        invariant
            i <= text.len(),
            pat.len() > 0,
            sub@ == to@,
            out@ + rewritten(text@.skip(i as int), pat@, sub@) == rewritten(text@, pat@, sub@),
        decreases text.len() - i,
    {
        let ghost rest = text@.skip(i as int);
        if stands_at(&text, i, &pat) {
            out.append(to);
            assert(rest.skip(pat@.len() as int) == text@.skip(i + pat@.len()));
            i += pat.len();
        } else {
            out.push(text[i]);
            assert(rest.skip(1) == text@.skip(i + 1));
            assert(rest[0] == text@[i as int]);
            i += 1;
        }
    }
    assert(text@.skip(text.len() as int).len() == 0);
    out
}

/// The character for the digit `d`.
fn digit_char(d: u64) -> (c: char)
    requires
        d < 10,
    ensures
        c == digit(d as nat),
{
    if d == 0 {
        '0'
    } else if d == 1 {
        '1'
    } else if d == 2 {
        '2'
    } else if d == 3 {
        '3'
    } else if d == 4 {
        '4'
    } else if d == 5 {
        '5'
    } else if d == 6 {
        '6'
    } else if d == 7 {
        '7'
    } else if d == 8 {
        '8'
    } else {
        '9'
    }
}

/// Appends `n` in base ten to `out`.
pub fn push_decimal(out: &mut String, n: u64)
    ensures
        final(out)@ == old(out)@ + decimal(n as nat),
    decreases n,
{
    if n >= 10 {
        push_decimal(out, n / 10);
    }
    out.push(digit_char(n % 10));
}

} // verus!
