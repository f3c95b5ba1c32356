//! The status line of the pager.

use crate::text::{lemma_strs_take, strs};
use vstd::prelude::*;
use vstd::string::*;

verus! {

/// The parts in one text, with the separator between them.
pub open spec fn spec_join(parts: Seq<Seq<char>>, separator: Seq<char>) -> Seq<char>
    decreases parts.len(),
{
    if parts.len() == 0 {
        Seq::empty()
    } else if parts.len() == 1 {
        parts[0]
    } else {
        spec_join(parts.drop_last(), separator) + separator + parts.last()
    }
}

/// The status line of the pager: the command line, then the keys.
pub open spec fn spec_status_line(arguments: Seq<Seq<char>>) -> Seq<char> {
    spec_join(arguments, " "@) + " | Q: quit | /: Search | n: next result | p: previous result"@
}

/// The parts in one text, with the separator between them.
pub fn join(parts: &Vec<String>, separator: &str) -> (text: String)
    ensures
        text@ == spec_join(strs(parts@), separator@),
{
    if parts.len() == 0 {
        return String::new();
    }
    let mut text = parts[0].clone();
    let mut i: usize = 1;
    assert(strs(parts@).take(1)[0] == parts@[0]@);
    while i < parts.len()
        invariant
            1 <= i <= parts.len(),
            text@ == spec_join(strs(parts@).take(i as int), separator@),
        decreases parts.len() - i,
    {
        proof {
            lemma_strs_take(parts@, i as int);
            assert(strs(parts@).take(i + 1).drop_last() =~= strs(parts@).take(i as int));
        }
        text.append(separator);
        text.append(parts[i].as_str());
        i += 1;
    }
    assert(strs(parts@).take(parts.len() as int) =~= strs(parts@));
    text
}

/// The status line under which the pager shows a text: the command line of
/// the program, then the keys of the pager.
pub fn page_string(arguments: &Vec<String>) -> (status: String)
    ensures
        status@ == spec_status_line(strs(arguments@)),
{
    join(arguments, " ").concat(" | Q: quit | /: Search | n: next result | p: previous result")
}

} // verus!
