//! Sorting the requested packages by their source.
//!
//! Each name is looked up without its version constraint. A package of the
//! repositories keeps the name as the user wrote it, constraint included,
//! since the native manager understands it. An AUR package goes by its bare
//! name.

use crate::known::{Known, KnownView};
use crate::names::{bare_name, spec_bare_name, spec_bare_names};
use crate::package::PackageClass;
use crate::text::{lemma_filter_push, lemma_strs_push, lemma_strs_take, strs};
use vstd::prelude::*;

verus! {

/// The requested packages by source, each list in the order of the request.
#[derive(Debug)]
pub struct SortedPackages {
    /// The packages of the repositories, as the user wrote them.
    pub repo: Vec<String>,
    /// The packages of the AUR, without version constraints.
    pub aur: Vec<String>,
}

/// How far the sorting got.
#[derive(Debug)]
pub enum Sort {
    /// The source of this name is not known yet: it has to be asked for.
    Ask(String),
    /// Every requested package has its source.
    Done(SortedPackages),
}

/// The test that picks the names whose bare name is of one class.
pub open spec fn bare_in_class(known: KnownView, class: PackageClass) -> spec_fn(Seq<char>) -> bool {
    |p: Seq<char>| known.class_of(spec_bare_name(p)) == class
}

/// The requested names that the repositories have, as they were written.
pub open spec fn spec_repo_names(requested: Seq<Seq<char>>, known: KnownView) -> Seq<Seq<char>> {
    requested.filter(bare_in_class(known, PackageClass::Repo))
}

/// The bare names of the requested packages that only the AUR has.
pub open spec fn spec_aur_names(requested: Seq<Seq<char>>, known: KnownView) -> Seq<Seq<char>> {
    spec_bare_names(requested.filter(bare_in_class(known, PackageClass::Aur)))
}

/// Position `i` holds the first requested name whose source is not known.
pub open spec fn is_first_unclassified(requested: Seq<Seq<char>>, known: KnownView, i: int) -> bool {
    &&& 0 <= i < requested.len()
    &&& known.class_of(spec_bare_name(requested[i])) == PackageClass::Unknown
    &&& forall|j: int|
        0 <= j < i ==> known.class_of(spec_bare_name(#[trigger] requested[j]))
            != PackageClass::Unknown
}

/// The source of every requested name is known.
pub open spec fn all_classified(requested: Seq<Seq<char>>, known: KnownView) -> bool {
    forall|i: int|
        0 <= i < requested.len() ==> known.class_of(spec_bare_name(#[trigger] requested[i]))
            != PackageClass::Unknown
}

/// Once every requested name has its source, each stands in exactly one of
/// the two lists: as written among the repository packages, or by its bare
/// name among the AUR packages.
pub proof fn lemma_sorted_exactly_once(requested: Seq<Seq<char>>, known: KnownView, p: Seq<char>)
    requires
        requested.contains(p),
        all_classified(requested, known),
    ensures
        spec_repo_names(requested, known).contains(p) != spec_aur_names(requested, known).contains(
            spec_bare_name(p),
        ),
        spec_repo_names(requested, known).contains(p) <==> known.class_of(spec_bare_name(p))
            == PackageClass::Repo,
{
    let repo = bare_in_class(known, PackageClass::Repo);
    let aur = bare_in_class(known, PackageClass::Aur);
    let i = choose|i: int| 0 <= i < requested.len() && requested[i] == p;
    assert(known.class_of(spec_bare_name(requested[i])) != PackageClass::Unknown);
    let kept = requested.filter(aur);
    if spec_repo_names(requested, known).contains(p) {
        requested.lemma_filter_contains_rev(repo, p);
    }
    if spec_aur_names(requested, known).contains(spec_bare_name(p)) {
        let k = choose|k: int|
            0 <= k < spec_bare_names(kept).len() && spec_bare_names(kept)[k] == spec_bare_name(p);
        assert(kept.contains(kept[k]));
        requested.lemma_filter_contains_rev(aur, kept[k]);
    }
    if known.class_of(spec_bare_name(p)) == PackageClass::Repo {
        requested.lemma_filter_contains(repo, i);
    } else {
        requested.lemma_filter_contains(aur, i);
        let k = choose|k: int| 0 <= k < kept.len() && kept[k] == p;
        assert(spec_bare_names(kept)[k] == spec_bare_name(p));
    }
}

/// A name whose source is unknown stands in neither list.
pub proof fn lemma_unknown_in_neither(requested: Seq<Seq<char>>, known: KnownView, p: Seq<char>)
    requires
        known.class_of(spec_bare_name(p)) == PackageClass::Unknown,
    ensures
        !spec_repo_names(requested, known).contains(p),
        !spec_aur_names(requested, known).contains(spec_bare_name(p)),
{
    let repo = bare_in_class(known, PackageClass::Repo);
    let aur = bare_in_class(known, PackageClass::Aur);
    let kept = requested.filter(aur);
    if spec_repo_names(requested, known).contains(p) {
        requested.lemma_filter_contains_rev(repo, p);
    }
    if spec_aur_names(requested, known).contains(spec_bare_name(p)) {
        let k = choose|k: int|
            0 <= k < spec_bare_names(kept).len() && spec_bare_names(kept)[k] == spec_bare_name(p);
        assert(kept.contains(kept[k]));
        requested.lemma_filter_contains_rev(aur, kept[k]);
    }
}

/// Sorts the requested packages by their source, as far as it is known.
///
/// The result is `Ask` with the bare name of the first requested package
/// whose source is not known, if there is one. Otherwise it is `Done` with
/// the two lists, each in the order of the request.
pub fn inssort(requested: &Vec<String>, known: &Known) -> (sort: Sort)
    ensures
        match sort {
            Sort::Ask(n) => exists|i: int|
                is_first_unclassified(strs(requested@), known@, i) && n@ == spec_bare_name(
                    strs(requested@)[i],
                ),
            Sort::Done(s) => {
                &&& all_classified(strs(requested@), known@)
                &&& strs(s.repo@) == spec_repo_names(strs(requested@), known@)
                &&& strs(s.aur@) == spec_aur_names(strs(requested@), known@)
            },
        },
{
    let ghost all = strs(requested@);
    let ghost in_repo = bare_in_class(known@, PackageClass::Repo);
    let ghost in_aur = bare_in_class(known@, PackageClass::Aur);
    let mut repo: Vec<String> = Vec::new();
    let mut aur: Vec<String> = Vec::new();
    let mut i: usize = 0;
    proof {
        reveal(Seq::filter);
        assert(strs(repo@) =~= all.take(0).filter(in_repo));
        assert(strs(aur@) =~= spec_bare_names(all.take(0).filter(in_aur)));
    }
    while i < requested.len()
        invariant
            i <= requested.len(),
            all == strs(requested@),
            in_repo == bare_in_class(known@, PackageClass::Repo),
            in_aur == bare_in_class(known@, PackageClass::Aur),
            forall|j: int|
                0 <= j < i ==> known@.class_of(spec_bare_name(#[trigger] all[j]))
                    != PackageClass::Unknown,
            strs(repo@) == all.take(i as int).filter(in_repo),
            strs(aur@) == spec_bare_names(all.take(i as int).filter(in_aur)),
        decreases requested.len() - i,
    {
        let bare = bare_name(requested[i].as_str());
        proof {
            let before = all.take(i as int);
            lemma_strs_take(requested@, i as int);
            lemma_filter_push(before, in_repo, all[i as int]);
            lemma_filter_push(before, in_aur, all[i as int]);
            assert(spec_bare_names(before.filter(in_aur).push(all[i as int])) =~= spec_bare_names(
                before.filter(in_aur),
            ).push(bare@));
        }
        match known.class_of(&bare) {
            PackageClass::Repo => {
                proof {
                    lemma_strs_push(repo@, requested@[i as int]);
                }
                repo.push(requested[i].clone());
            },
            PackageClass::Aur => {
                proof {
                    lemma_strs_push(aur@, bare);
                }
                aur.push(bare);
            },
            PackageClass::Unknown => {
                assert(is_first_unclassified(all, known@, i as int));
                return Sort::Ask(bare);
            },
        }
        i += 1;
    }
    assert(all.take(requested.len() as int) =~= all);
    Sort::Done(SortedPackages { repo, aur })
}

} // verus!
