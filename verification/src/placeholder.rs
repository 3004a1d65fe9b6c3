//! The placeholder grammar: a dollar sign directly followed by a run of
//! upper-case ASCII letters and underscores, as in `$HOME`.

use crate::error::ConfigError;
use crate::text::text_of;
use vstd::prelude::*;
use vstd::string::*;

verus! {

/// The placeholder grammar as a regular expression. Group 1 is the name.
pub const PLACEHOLDER_PATTERN: &'static str = "\\$([A-Z_]+)";

/// A character that may stand in a placeholder's name.
pub open spec fn is_name_char(c: char) -> bool {
    ('A' <= c && c <= 'Z') || c == '_'
}

/// A placeholder starts at index `i` of `s`: a dollar sign there, and a name
/// character right behind it.
pub open spec fn placeholder_at(s: Seq<char>, i: int) -> bool {
    0 <= i && i + 1 < s.len() && s[i] == '$' && is_name_char(s[i + 1])
}

/// The index of the first placeholder of `s` at or behind `from`.
pub open spec fn first_placeholder_from(s: Seq<char>, from: int) -> Option<int>
    decreases s.len() - from,
{
    if from < 0 || from + 1 >= s.len() {
        None
    } else if placeholder_at(s, from) {
        Some(from)
    } else {
        first_placeholder_from(s, from + 1)
    }
}

/// The index behind the run of name characters that starts at `from`.
pub open spec fn name_end(s: Seq<char>, from: int) -> int
    decreases s.len() - from,
{
    if 0 <= from < s.len() && is_name_char(s[from]) {
        name_end(s, from + 1)
    } else {
        from
    }
}

/// The name of the first placeholder of `s`: the longest run of name
/// characters behind the first dollar sign that has one behind it.
pub open spec fn placeholder_name(s: Seq<char>) -> Option<Seq<char>> {
    match first_placeholder_from(s, 0) {
        Some(i) => Some(s.subrange(i + 1, name_end(s, i + 1))),
        None => None,
    }
}

/// `name` is the name of the first placeholder of `s`, which starts at index
/// `at`: no placeholder starts before `at`, and `name` is the whole run of
/// name characters behind the dollar sign.
pub open spec fn names_first_placeholder(s: Seq<char>, at: int, name: Seq<char>) -> bool {
    &&& placeholder_at(s, at)
    &&& forall|j: int| 0 <= j < at ==> !placeholder_at(s, j)
    &&& name.len() >= 1
    &&& at + 1 + name.len() <= s.len()
    &&& name == s.subrange(at + 1, at + 1 + name.len())
    &&& forall|k: int| 0 <= k < name.len() ==> is_name_char(#[trigger] name[k])
    &&& at + 1 + name.len() < s.len() ==> !is_name_char(s[at + 1 + name.len()])
}

/// What `first_placeholder_from` finds is a placeholder with none between
/// `from` and it; where it finds nothing, no placeholder starts at or behind
/// `from`.
pub proof fn lemma_first_placeholder_from(s: Seq<char>, from: int)
    requires
        0 <= from,
    ensures
        match first_placeholder_from(s, from) {
            Some(at) => {
                &&& from <= at
                &&& placeholder_at(s, at)
                &&& forall|j: int| from <= j < at ==> !placeholder_at(s, j)
            },
            None => forall|j: int| from <= j ==> !placeholder_at(s, j),
        },
    decreases s.len() - from,
{
    if from + 1 < s.len() && !placeholder_at(s, from) {
        lemma_first_placeholder_from(s, from + 1);
    }
}

/// `name_end` is where the run of name characters that starts at `from`
/// ends: all of them are name characters, and the next one, if any, is not.
pub proof fn lemma_name_end(s: Seq<char>, from: int)
    requires
        0 <= from <= s.len(),
    ensures
        from <= name_end(s, from) <= s.len(),
        forall|k: int| from <= k < name_end(s, from) ==> is_name_char(s[k]),
        name_end(s, from) < s.len() ==> !is_name_char(s[name_end(s, from)]),
    decreases s.len() - from,
{
    if from < s.len() && is_name_char(s[from]) {
        lemma_name_end(s, from + 1);
    }
}

/// No placeholder is found exactly where no dollar sign of `s` is followed by
/// a name character.
pub proof fn lemma_no_placeholder(s: Seq<char>)
    ensures
        placeholder_name(s) is None <==> forall|j: int| !placeholder_at(s, j),
{
    lemma_first_placeholder_from(s, 0);
}

/// The placeholder grammar in one statement: `placeholder_name` gives `name`
/// exactly where `name` is the longest run of name characters behind the first
/// dollar sign that a name character follows.
pub proof fn lemma_placeholder_name(s: Seq<char>, name: Seq<char>)
    ensures
        placeholder_name(s) == Some(name) <==> exists|at: int|
            names_first_placeholder(s, at, name),
{
    lemma_first_placeholder_from(s, 0);
    match first_placeholder_from(s, 0) {
        Some(first) => {
            lemma_name_end(s, first + 1);
            let end = name_end(s, first + 1);
            let found = s.subrange(first + 1, end);
            assert(names_first_placeholder(s, first, found));
            if exists|at: int| names_first_placeholder(s, at, name) {
                let at = choose|at: int| names_first_placeholder(s, at, name);
                assert(at == first);
                let stop = at + 1 + name.len();
                if stop < end {
                    assert(is_name_char(s[stop]));
                }
                if end < stop {
                    assert(name[end - (at + 1)] == s[end]);
                }
                assert(name =~= found);
            }
        },
        None => {
            if exists|at: int| names_first_placeholder(s, at, name) {
                let at = choose|at: int| names_first_placeholder(s, at, name);
                assert(placeholder_at(s, at));
            }
        },
    }
}

/// `regex::Error`, the reason why `regex::Regex::new` did not accept a
/// pattern. Nothing is read from it.
#[verifier::external_type_specification]
#[verifier::external_body]
pub struct ExRegexError(regex::Error);

/// Compiles `pattern` with `regex::Regex::new`, searches `text` with
/// `regex::Regex::captures` and hands out the text of group 1 of the leftmost
/// match, through `regex::Captures::get` and `regex::Match::as_str`.
///
/// Trusted for the placeholder pattern only: an escaped dollar sign, then a
/// group of one or more characters of the class `A-Z` and underscore, which
/// the greedy `+` makes as long as it can be. The leftmost match then starts
/// at the first placeholder and group 1 is its name; without a placeholder
/// nothing matches. `lemma_placeholder_name` and `lemma_no_placeholder` say
/// the same of `placeholder_name` without recursion.
///
/// Trusted too that this pattern compiles. `Regex::new` documents two reasons
/// for an error: a pattern that is not valid, and a compiled program over the
/// size limit, 10 MiB unless a builder sets another. The pattern is an escape
/// of a character that may be escaped, a class of one range and one
/// character, a group and a repetition, and its program is a few states.
#[verifier::external_body]
fn first_capture(pattern: &str, text: &str) -> (r: Result<Option<String>, regex::Error>)
    requires
        pattern@ == PLACEHOLDER_PATTERN@,
    ensures
        r is Ok,
        r matches Ok(found) ==> text_of(found) == placeholder_name(text@),
{
    let re = regex::Regex::new(pattern)?;
    Ok(re.captures(text).and_then(|caps| caps.get(1)).map(|m| m.as_str().to_string()))
}

/// The name of the first placeholder of `text`, if it has one. Never fails:
/// the engine accepts the placeholder pattern.
pub fn find_placeholder(text: &str) -> (r: Result<Option<String>, ConfigError>)
    ensures
        r matches Ok(found) && text_of(found) == placeholder_name(text@),
{
    match first_capture(PLACEHOLDER_PATTERN, text) {
        Ok(found) => Ok(found),
        Err(_) => Err(ConfigError::PatternRejected),
    }
}

} // verus!
