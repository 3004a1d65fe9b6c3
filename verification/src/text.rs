//! Texts as character sequences, and substring replacement on them.

use vstd::prelude::*;
use vstd::string::*;

verus! {

/// The characters of an optional text.
pub open spec fn text_of(text: Option<String>) -> Option<Seq<char>> {
    match text {
        Some(t) => Some(t@),
        None => None,
    }
}

/// Whether `pattern` stands in `s` at index `at`.
pub open spec fn occurs_at(s: Seq<char>, at: int, pattern: Seq<char>) -> bool {
    0 <= at <= s.len() && pattern.is_prefix_of(s.skip(at))
}

/// `s` with every occurrence of `from` replaced by `to`. Occurrences are
/// found from left to right, and the search goes on behind each one found, so
/// that occurrences never overlap and what was put in is not searched again.
/// With an empty `from` there is nothing to find and `s` is the result.
pub open spec fn replace_all(s: Seq<char>, from: Seq<char>, to: Seq<char>) -> Seq<char>
    decreases s.len(),
{
    if from.len() == 0 || s.len() == 0 {
        s
    } else if from.is_prefix_of(s) {
        to + replace_all(s.skip(from.len() as int), from, to)
    } else {
        seq![s[0]] + replace_all(s.skip(1), from, to)
    }
}

/// Where `from` first occurs at index `first` of `s`, replacing keeps what
/// stands before it, puts `to` in its place and goes on behind it.
pub proof fn lemma_replace_all_first_occurrence(
    s: Seq<char>,
    from: Seq<char>,
    to: Seq<char>,
    first: int,
)
    requires
        from.len() > 0,
        occurs_at(s, first, from),
        forall|j: int| 0 <= j < first ==> !occurs_at(s, j, from),
    ensures
        replace_all(s, from, to) == s.take(first) + to + replace_all(
            s.skip(first + from.len()),
            from,
            to,
        ),
    decreases first,
{
    if first == 0 {
        assert(s.skip(0) =~= s);
        assert(s.take(0) + to =~= to);
    } else {
        assert(s.skip(0) =~= s);
        assert(!occurs_at(s, 0, from));
        let rest = s.skip(1);
        assert(rest.skip(first - 1) =~= s.skip(first));
        assert forall|j: int| 0 <= j < first - 1 implies !occurs_at(rest, j, from) by {
            assert(rest.skip(j) =~= s.skip(j + 1));
            assert(!occurs_at(s, j + 1, from));
        }
        lemma_replace_all_first_occurrence(rest, from, to, first - 1);
        assert(rest.skip(first - 1 + from.len()) =~= s.skip(first + from.len()));
        assert(seq![s[0]] + rest.take(first - 1) =~= s.take(first));
        assert(replace_all(s, from, to) =~= s.take(first) + to + replace_all(
            s.skip(first + from.len()),
            from,
            to,
        ));
    }
}

/// Whether `a` and `b` are the same text.
pub fn same_text(a: &str, b: &str) -> (same: bool)
    ensures
        same == (a@ == b@),
{
    a.to_owned() == b.to_owned()
}

/// The characters of `s`, in order.
fn chars_of(s: &str) -> (v: Vec<char>)
    ensures
        v@ == s@,
{
    let mut v: Vec<char> = Vec::new();
    for c in it: s.chars()
        invariant
            v@ == it.seq().take(it.index() as int),
            it.seq() == s@,
    {
        v.push(c);
    }
    v
}

/// Whether `pattern` stands in `text` at index `at`.
fn stands_at(text: &Vec<char>, at: usize, pattern: &Vec<char>) -> (found: bool)
    requires
        at <= text@.len(),
    ensures
        found == occurs_at(text@, at as int, pattern@),
{
    let n: usize = text.len();
    let k: usize = pattern.len();
    if k > n - at {
        return false;
    }
    let mut j: usize = 0;
    while j < k
        invariant
            n == text@.len(),
            k == pattern@.len(),
            at + k <= n,
            j <= k,
            forall|m: int| 0 <= m < j ==> pattern@[m] == text@[at + m],
        decreases k - j,
    {
        if pattern[j] != text[at + j] {
            assert(pattern@[j as int] != text@.skip(at as int)[j as int]);
            return false;
        }
        j = j + 1;
    }
    assert(pattern@ =~= text@.skip(at as int).subrange(0, k as int));
    true
}

/// Replaces every occurrence of `from` in `text` by `to`.
pub fn replace(text: &str, from: &str, to: &str) -> (replaced: String)
    ensures
        replaced@ == replace_all(text@, from@, to@),
{
    let chars = chars_of(text);
    let pattern = chars_of(from);
    let n: usize = chars.len();
    let k: usize = pattern.len();
    if k == 0 {
        return text.to_owned();
    }
    // `out` holds what was decided up to `kept`; the characters from `kept`
    // to `i` are to be copied as they are.
    let mut out = String::new();
    let mut kept: usize = 0;
    let mut i: usize = 0;
    assert(text@.skip(0) =~= text@);
    while i < n
        invariant
            chars@ == text@,
            pattern@ == from@,
            n == text@.len(),
            k == from@.len(),
            k > 0,
            kept <= i <= n,
            out@ + text@.subrange(kept as int, i as int) + replace_all(
                text@.skip(i as int),
                from@,
                to@,
            ) == replace_all(text@, from@, to@),
        decreases n - i,
    {
        let ghost rest = text@.skip(i as int);
        if stands_at(&chars, i, &pattern) {
            assert(rest.skip(k as int) =~= text@.skip(i + k));
            out.append(text.substring_char(kept, i));
            out.append(to);
            i = i + k;
            kept = i;
        } else {
            assert(rest.skip(1) =~= text@.skip(i + 1));
            assert(text@.subrange(kept as int, i as int) + seq![rest[0]] =~= text@.subrange(
                kept as int,
                i + 1,
            ));
            i = i + 1;
        }
    }
    out.append(text.substring_char(kept, n));
    out
}

} // verus!
