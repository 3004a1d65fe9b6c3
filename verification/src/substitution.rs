//! Resolving the first placeholder of a text against an environment.

use crate::environment::Environment;
use crate::error::ConfigError;
use crate::placeholder::{
    find_placeholder, lemma_placeholder_name, names_first_placeholder, placeholder_at,
    placeholder_name,
};
use crate::text::{lemma_replace_all_first_occurrence, occurs_at, replace, replace_all};
use vstd::prelude::*;
use vstd::string::*;

verus! {

/// The text that stands for the variable `name` in a value: a dollar sign and
/// the name.
pub open spec fn placeholder_token(name: Seq<char>) -> Seq<char> {
    seq!['$'] + name
}

/// What is put in place of a placeholder whose variable is not set.
pub open spec fn missing_message(name: Seq<char>) -> Seq<char> {
    "Couldn't find "@ + name + " environment variable"@
}

/// What is put in place of the placeholder of `name`: the variable's value,
/// or the notice that it is missing.
pub open spec fn replacement(name: Seq<char>, env: Map<Seq<char>, Seq<char>>) -> Seq<char> {
    if env.contains_key(name) {
        env[name]
    } else {
        missing_message(name)
    }
}

/// `value` with every occurrence of the placeholder of `name` resolved.
pub open spec fn resolved(value: Seq<char>, name: Seq<char>, env: Map<Seq<char>, Seq<char>>) -> Seq<
    char,
> {
    replace_all(value, placeholder_token(name), replacement(name, env))
}

/// `value` after substitution: its first placeholder decides the variable,
/// and every occurrence of that placeholder is resolved. A value without a
/// placeholder stays as it is.
pub open spec fn substituted_text(value: Seq<char>, env: Map<Seq<char>, Seq<char>>) -> Seq<char> {
    match placeholder_name(value) {
        Some(name) => resolved(value, name, env),
        None => value,
    }
}

/// Substitution leaves a text without a placeholder as it is.
pub proof fn lemma_substitution_without_placeholder(
    value: Seq<char>,
    env: Map<Seq<char>, Seq<char>>,
)
    requires
        placeholder_name(value) is None,
    ensures
        substituted_text(value, env) == value,
{
}

/// Where a substitution leaves no placeholder behind, substituting once more
/// changes nothing.
pub proof fn lemma_substitution_settles(value: Seq<char>, env: Map<Seq<char>, Seq<char>>)
    requires
        placeholder_name(substituted_text(value, env)) is None,
    ensures
        substituted_text(substituted_text(value, env), env) == substituted_text(value, env),
{
}

/// Substitution resolves the first placeholder where it stands: what comes
/// before it is kept, the replacement takes its place, and behind it only
/// further occurrences of the same placeholder are resolved.
pub proof fn lemma_substitution_resolves_first(
    value: Seq<char>,
    env: Map<Seq<char>, Seq<char>>,
    at: int,
    name: Seq<char>,
)
    requires
        names_first_placeholder(value, at, name),
    ensures
        substituted_text(value, env) == value.take(at) + replacement(name, env) + replace_all(
            value.skip(at + 1 + name.len()),
            placeholder_token(name),
            replacement(name, env),
        ),
{
    lemma_placeholder_name(value, name);
    let token = placeholder_token(name);
    assert(token.len() == name.len() + 1);
    assert(token =~= value.skip(at).subrange(0, token.len() as int));
    assert(occurs_at(value, at, token));
    assert forall|j: int| 0 <= j < at implies !occurs_at(value, j, token) by {
        if occurs_at(value, j, token) {
            assert(value.skip(j)[0] == token[0]);
            assert(value.skip(j)[1] == token[1]);
            assert(token[1] == name[0]);
            assert(placeholder_at(value, j));
        }
    }
    lemma_replace_all_first_occurrence(value, token, replacement(name, env), at);
}

/// Resolves every occurrence of the placeholder of `name` in `value`.
pub fn substitute(value: &str, name: &str, env: &Environment) -> (r: String)
    ensures
        r@ == resolved(value@, name@, env@),
{
    let mut token = "$".to_owned();
    proof {
        reveal_strlit("$");
        assert("$"@ =~= seq!['$']);
    }
    token.append(name);
    match env.get(name) {
        Some(found) => replace(value, token.as_str(), found),
        None => {
            let mut notice = "Couldn't find ".to_owned();
            notice.append(name);
            notice.append(" environment variable");
            replace(value, token.as_str(), notice.as_str())
        },
    }
}

/// Substitutes in `value`: finds its first placeholder and resolves it.
/// Never fails, whether the variable is set or not.
pub fn substitute_text(value: &str, env: &Environment) -> (r: Result<String, ConfigError>)
    ensures
        r matches Ok(new) && new@ == substituted_text(value@, env@),
{
    match find_placeholder(value) {
        Err(e) => Err(e),
        Ok(None) => Ok(value.to_owned()),
        Ok(Some(name)) => Ok(substitute(value, name.as_str(), env)),
    }
}

} // verus!
