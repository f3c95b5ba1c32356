//! Package names and the version constraint that a name may carry.
//!
//! A name may be followed by `>=` or `<=` and a version, as in `glibc>=2.38`.
//! Names are taken apart with a regular expression, by the `regex` crate.

use crate::text::strs;
use vstd::prelude::*;

verus! {

/// What the `regex` crate captures as group `group` of the leftmost match
/// of `pattern` in `text`: nothing where the pattern is not valid, where it
/// does not match, or where the group takes no part in the match.
pub uninterp spec fn captured(pattern: Seq<char>, text: Seq<char>, group: nat) -> Option<Seq<char>>;

/// The pattern of a name with a version constraint. The first group is the
/// name: characters that are not white space, as many as can be. The second
/// group is the constraint: `>=` or `<=`, then characters that are not white
/// space up to the end.
pub open spec fn constraint_pattern() -> Seq<char> {
    "(\\S+)((?:>=|<=)\\S+$)"@
}

/// The name without its version constraint: what the pattern captures as
/// the name, or the whole where the pattern does not match.
pub open spec fn spec_bare_name(s: Seq<char>) -> Seq<char> {
    match captured(constraint_pattern(), s, 1) {
        Some(name) => name,
        None => s,
    }
}

/// The version constraint, operator included, if the name has one.
pub open spec fn spec_constraint(s: Seq<char>) -> Option<Seq<char>> {
    captured(constraint_pattern(), s, 2)
}

/// The text of one group of the leftmost match of a pattern, by the `regex`
/// crate: `Regex::new` compiles the pattern, `Regex::captures` looks for the
/// leftmost match, `Captures::get` and `Match::as_str` give the part of the
/// text that the group took. The result is nothing where `Regex::new`
/// refuses the pattern, where `captures` finds no match and where `get`
/// finds that the group took no part.
///
/// The contract says only that the result is a function of the pattern, the
/// text and the number of the group. It says nothing of what is captured.
#[verifier::external_body]
fn capture(pattern: &str, text: &str, group: usize) -> (found: Option<String>)
    ensures
        match found {
            Some(part) => captured(pattern@, text@, group as nat) == Some(part@),
            None => captured(pattern@, text@, group as nat) is None,
        },
{
    let matcher = regex::Regex::new(pattern).ok()?;
    let groups = matcher.captures(text)?;
    groups.get(group).map(|part| part.as_str().to_string())
}

/// The bare name, given what the pattern captured as the name: that, or
/// the whole name where nothing was captured.
pub fn name_or_whole(name: &str, found: Option<String>) -> (bare: String)
    ensures
        bare@ == match found {
            Some(part) => part@,
            None => name@,
        },
{
    match found {
        Some(part) => part,
        None => name.to_owned(),
    }
}

/// Strips the version constraint from a package name.
pub fn bare_name(name: &str) -> (bare: String)
    ensures
        bare@ == spec_bare_name(name@),
{
    let found = capture("(\\S+)((?:>=|<=)\\S+$)", name, 1);
    name_or_whole(name, found)
}

/// The version constraint of a package name, operator included, if it has
/// one.
pub fn version_constraint(name: &str) -> (constraint: Option<String>)
    ensures
        match constraint {
            Some(c) => spec_constraint(name@) == Some(c@),
            None => spec_constraint(name@) is None,
        },
{
    capture("(\\S+)((?:>=|<=)\\S+$)", name, 2)
}

/// The names of a list, each without its version constraint.
pub open spec fn spec_bare_names(names: Seq<Seq<char>>) -> Seq<Seq<char>> {
    names.map_values(|n: Seq<char>| spec_bare_name(n))
}

/// Strips the version constraint from each name of a list.
pub fn bare_names(names: &Vec<String>) -> (bare: Vec<String>)
    ensures
        strs(bare@) == spec_bare_names(strs(names@)),
{
    let mut bare: Vec<String> = Vec::new();
    let mut i: usize = 0;
    while i < names.len()
        invariant
            i <= names.len(),
            bare.len() == i,
            forall|j: int| 0 <= j < i ==> bare@[j]@ == spec_bare_name(names@[j]@),
        decreases names.len() - i,
    {
        bare.push(bare_name(names[i].as_str()));
        i += 1;
    }
    assert(strs(bare@) =~= spec_bare_names(strs(names@)));
    bare
}

} // verus!
