//! Lists of names: membership, copies and lists without repetition; and the
//! lines of a text.

use vstd::prelude::*;
use vstd::string::*;

verus! {

/// The names of a list, each as its sequence of characters.
pub open spec fn strs(list: Seq<String>) -> Seq<Seq<char>> {
    list.map_values(|s: String| s@)
}

/// The list without repetition: each name where it first occurs.
pub open spec fn unique(names: Seq<Seq<char>>) -> Seq<Seq<char>>
    decreases names.len(),
{
    if names.len() == 0 {
        Seq::empty()
    } else {
        let front = unique(names.drop_last());
        if front.contains(names.last()) {
            front
        } else {
            front.push(names.last())
        }
    }
}

/// `unique` keeps exactly the names of the list, each once.
pub proof fn lemma_unique(names: Seq<Seq<char>>)
    ensures
        unique(names).no_duplicates(),
        unique(names).len() <= names.len(),
        forall|n: Seq<char>| unique(names).contains(n) <==> names.contains(n),
    decreases names.len(),
{
    if names.len() > 0 {
        let front = names.drop_last();
        lemma_unique(front);
        let u = unique(front);
        let r = unique(names);
        assert forall|n: Seq<char>| r.contains(n) <==> names.contains(n) by {
            if names.contains(n) {
                let i = choose|i: int| 0 <= i < names.len() && names[i] == n;
                if i < names.len() - 1 {
                    assert(front[i] == n);
                    assert(front.contains(n));
                    assert(u.contains(n));
                    let k = choose|k: int| 0 <= k < u.len() && u[k] == n;
                    assert(r[k] == n);
                } else if !u.contains(n) {
                    assert(r[u.len() as int] == n);
                }
            }
            if r.contains(n) {
                let k = choose|k: int| 0 <= k < r.len() && r[k] == n;
                if k < u.len() {
                    assert(u[k] == n);
                    assert(u.contains(n));
                    assert(front.contains(n));
                    let i = choose|i: int| 0 <= i < front.len() && front[i] == n;
                    assert(names[i] == n);
                } else {
                    assert(names[names.len() - 1] == n);
                }
            }
        }
    }
}

/// `unique` of a list with one more name at its end.
pub proof fn lemma_unique_push(names: Seq<Seq<char>>, n: Seq<char>)
    ensures
        unique(names.push(n)) == if unique(names).contains(n) {
            unique(names)
        } else {
            unique(names).push(n)
        },
{
    assert(names.push(n).drop_last() =~= names);
}

/// A filtered list with one more name at its end.
pub proof fn lemma_filter_push(names: Seq<Seq<char>>, pred: spec_fn(Seq<char>) -> bool, n: Seq<char>)
    ensures
        names.push(n).filter(pred) == if pred(n) {
            names.filter(pred).push(n)
        } else {
            names.filter(pred)
        },
{
    reveal(Seq::filter);
    assert(names.push(n).drop_last() =~= names);
}

/// The names of a list with one more name at its end.
pub proof fn lemma_strs_push(list: Seq<String>, s: String)
    ensures
        strs(list.push(s)) == strs(list).push(s@),
{
    assert(strs(list.push(s)) =~= strs(list).push(s@));
}

/// The names of the first `i + 1` entries of a list.
pub proof fn lemma_strs_take(list: Seq<String>, i: int)
    requires
        0 <= i < list.len(),
    ensures
        strs(list).take(i + 1) == strs(list).take(i).push(list[i]@),
{
    assert(strs(list).take(i + 1) =~= strs(list).take(i).push(list[i]@));
}

/// Whether `name` stands in `list`.
pub fn contains(list: &Vec<String>, name: &String) -> (found: bool)
    ensures
        found == strs(list@).contains(name@),
{
    let mut i: usize = 0;
    while i < list.len()
        invariant
            i <= list.len(),
            forall|j: int| 0 <= j < i ==> strs(list@)[j] != name@,
        decreases list.len() - i,
    {
        if list[i] == *name {
            assert(strs(list@)[i as int] == name@);
            return true;
        }
        i += 1;
    }
    false
}

/// A copy of the list.
pub fn copy_names(list: &Vec<String>) -> (copy: Vec<String>)
    ensures
        strs(copy@) == strs(list@),
{
    let mut copy: Vec<String> = Vec::new();
    let mut i: usize = 0;
    while i < list.len()
        invariant
            i <= list.len(),
            copy.len() == i,
            forall|j: int| 0 <= j < i ==> copy@[j]@ == list@[j]@,
        decreases list.len() - i,
    {
        copy.push(list[i].clone());
        i += 1;
    }
    assert(strs(copy@) =~= strs(list@));
    copy
}

/// Appends a copy of each name of `more` to `list`.
pub fn append_names(list: &mut Vec<String>, more: &Vec<String>)
    ensures
        strs(final(list)@) == strs(old(list)@) + strs(more@),
{
    let ghost start = strs(list@);
    let mut i: usize = 0;
    assert(strs(list@) =~= start + strs(more@).take(0));
    while i < more.len()
        invariant
            i <= more.len(),
            strs(list@) == start + strs(more@).take(i as int),
        decreases more.len() - i,
    {
        proof {
            lemma_strs_push(list@, more@[i as int]);
            lemma_strs_take(more@, i as int);
            assert((start + strs(more@).take(i as int)).push(more@[i as int]@) =~= start + strs(
                more@,
            ).take(i + 1));
        }
        list.push(more[i].clone());
        i += 1;
    }
    assert(strs(more@).take(more.len() as int) =~= strs(more@));
}

/// Appends `name` unless the list holds it already.
pub fn push_unique(list: &mut Vec<String>, name: String)
    ensures
        strs(final(list)@) == if strs(old(list)@).contains(name@) {
            strs(old(list)@)
        } else {
            strs(old(list)@).push(name@)
        },
{
    if !contains(list, &name) {
        proof {
            lemma_strs_push(list@, name);
        }
        list.push(name);
    }
}

/// The first position at or after `i` that holds a line break, or the
/// length of `s`.
pub open spec fn break_from(s: Seq<char>, i: int) -> int
    decreases s.len() - i,
{
    if i >= s.len() {
        s.len() as int
    } else if s[i] == '\n' {
        i
    } else {
        break_from(s, i + 1)
    }
}

/// The lines of `s` from position `i` on that are not empty.
pub open spec fn lines_from(s: Seq<char>, i: int) -> Seq<Seq<char>>
    decreases s.len() - i,
{
    if i < 0 || i >= s.len() {
        Seq::empty()
    } else {
        let k = break_from(s, i);
        if k < i || k > s.len() {
            Seq::empty()
        } else {
            let line = if k > i {
                seq![s.subrange(i, k)]
            } else {
                Seq::empty()
            };
            if k == s.len() {
                line
            } else {
                line + lines_from(s, k + 1)
            }
        }
    }
}

/// The lines of `s` that are not empty.
pub open spec fn spec_lines(s: Seq<char>) -> Seq<Seq<char>> {
    lines_from(s, 0)
}

/// The lines of a text that are not empty.
pub fn lines(output: &str) -> (files: Vec<String>)
    ensures
        strs(files@) == spec_lines(output@),
{
    let ghost s = output@;
    let n = output.unicode_len();
    let mut files: Vec<String> = Vec::new();
    let mut i: usize = 0;
    assert(strs(files@) + lines_from(s, 0) =~= spec_lines(s));
    while i < n
        invariant
            s == output@,
            n == s.len(),
            i <= n,
            strs(files@) + lines_from(s, i as int) == spec_lines(s),
        decreases n - i,
    {
        let mut k: usize = i;
        while k < n && output.get_char(k) != '\n'
            invariant
                s == output@,
                n == s.len(),
                i <= k <= n,
                break_from(s, k as int) == break_from(s, i as int),
            decreases n - k,
        {
            k += 1;
        }
        let ghost before = strs(files@);
        let ghost line = if k > i {
            seq![s.subrange(i as int, k as int)]
        } else {
            Seq::empty()
        };
        assert(k == break_from(s, i as int));
        if k > i {
            files.push(output.substring_char(i, k).to_owned());
        }
        assert(strs(files@) =~= before + line);
        if k == n {
            assert(lines_from(s, i as int) == line);
            assert(lines_from(s, n as int) =~= Seq::empty());
            assert((before + line) + lines_from(s, n as int) =~= before + line);
            i = n;
        } else {
            assert(lines_from(s, i as int) == line + lines_from(s, k + 1));
            assert((before + line) + lines_from(s, k + 1) =~= before + (line + lines_from(
                s,
                k + 1,
            )));
            i = k + 1;
        }
    }
    assert(lines_from(s, n as int) =~= Seq::empty());
    assert(strs(files@) + Seq::<Seq<char>>::empty() =~= strs(files@));
    files
}

} // verus!
