//! What the run has learnt so far of where packages come from.

use crate::names::{bare_name, spec_bare_name, spec_bare_names};
use crate::package::{metadata_views, AurMetadata, MetadataView, PackageClass};
use crate::text::{
    contains, lemma_filter_push, lemma_strs_push, lemma_strs_take, lemma_unique_push, push_unique,
    strs, unique,
};
use vstd::prelude::*;

verus! {

/// The packages whose source is known: the names that the binary
/// repositories have, and the metadata of those that only the AUR has.
///
/// Both lists are in the order in which the names were learnt. A name that
/// the repositories have counts as a repository package whatever the AUR
/// says.
pub struct Known {
    repo: Vec<String>,
    aur: Vec<AurMetadata>,
}

/// A `Known` with its texts as sequences of characters.
pub struct KnownView {
    pub repo: Seq<Seq<char>>,
    pub aur: Seq<MetadataView>,
}

impl View for Known {
    type V = KnownView;

    closed spec fn view(&self) -> KnownView {
        KnownView { repo: strs(self.repo@), aur: metadata_views(self.aur@) }
    }
}

/// The position of the first entry of `names` that is `n`: `i` is that
/// position.
pub open spec fn is_first_index(names: Seq<Seq<char>>, n: Seq<char>, i: int) -> bool {
    &&& 0 <= i < names.len()
    &&& names[i] == n
    &&& forall|j: int| 0 <= j < i ==> names[j] != n
}

/// The position of the first entry of `names` that is `n`.
pub open spec fn first_index(names: Seq<Seq<char>>, n: Seq<char>) -> int {
    choose|i: int| is_first_index(names, n, i)
}

/// A name that stands in a list has a first position there, and only one.
pub proof fn lemma_first_index(names: Seq<Seq<char>>, n: Seq<char>)
    requires
        names.contains(n),
    ensures
        is_first_index(names, n, first_index(names, n)),
        forall|i: int| is_first_index(names, n, i) ==> i == first_index(names, n),
{
    lemma_has_first_index(names, n, names.len() as int);
    let f = first_index(names, n);
    assert forall|i: int| is_first_index(names, n, i) implies i == f by {
        if i < f {
            assert(names[i] != n);
        } else if f < i {
            assert(names[f] != n);
        }
    }
}

proof fn lemma_has_first_index(names: Seq<Seq<char>>, n: Seq<char>, bound: int)
    requires
        0 <= bound <= names.len(),
        exists|i: int| 0 <= i < bound && names[i] == n,
    ensures
        exists|i: int| is_first_index(names, n, i),
    decreases bound,
{
    if exists|i: int| 0 <= i < bound - 1 && names[i] == n {
        lemma_has_first_index(names, n, bound - 1);
    } else {
        assert(is_first_index(names, n, bound - 1));
    }
}

impl KnownView {
    /// The canonical names of the AUR packages, in the order in which they
    /// were learnt.
    pub open spec fn aur_names(self) -> Seq<Seq<char>> {
        self.aur.map_values(|m: MetadataView| m.name)
    }

    /// Where the package of that name comes from, as far as it is known.
    pub open spec fn class_of(self, n: Seq<char>) -> PackageClass {
        if self.repo.contains(n) {
            PackageClass::Repo
        } else if self.aur_names().contains(n) {
            PackageClass::Aur
        } else {
            PackageClass::Unknown
        }
    }

    /// What the registry says of the AUR package of that name.
    pub open spec fn metadata_of(self, n: Seq<char>) -> MetadataView {
        self.aur[first_index(self.aur_names(), n)]
    }

    /// Nothing known.
    pub open spec fn empty() -> KnownView {
        KnownView { repo: Seq::empty(), aur: Seq::empty() }
    }

    /// The knowledge with one more repository name.
    pub open spec fn with_repo(self, n: Seq<char>) -> KnownView {
        if self.class_of(n) == PackageClass::Unknown {
            KnownView { repo: self.repo.push(n), aur: self.aur }
        } else {
            self
        }
    }

    /// The knowledge with one more AUR package.
    pub open spec fn with_aur(self, m: MetadataView) -> KnownView {
        if self.class_of(m.name) == PackageClass::Unknown {
            KnownView { repo: self.repo, aur: self.aur.push(m) }
        } else {
            self
        }
    }
}

/// A name whose source is known keeps it when more is learnt.
pub proof fn lemma_class_kept(known: KnownView, n: Seq<char>)
    requires
        known.class_of(n) != PackageClass::Unknown,
    ensures
        forall|m: Seq<char>| (#[trigger] known.with_repo(m)).class_of(n) == known.class_of(n),
        forall|m: MetadataView| (#[trigger] known.with_aur(m)).class_of(n) == known.class_of(n),
{
    assert forall|m: Seq<char>| (#[trigger] known.with_repo(m)).class_of(n) == known.class_of(
        n,
    ) by {
        let more = known.with_repo(m);
        if known.class_of(m) == PackageClass::Unknown {
            assert(more.repo == known.repo.push(m));
            if known.repo.contains(n) {
                let i = choose|i: int| 0 <= i < known.repo.len() && known.repo[i] == n;
                assert(more.repo[i] == n);
            } else {
                assert(m != n);
                if more.repo.contains(n) {
                    let i = choose|i: int| 0 <= i < more.repo.len() && more.repo[i] == n;
                    assert(known.repo[i] == n);
                }
            }
        }
    }
    assert forall|m: MetadataView| (#[trigger] known.with_aur(m)).class_of(n) == known.class_of(
        n,
    ) by {
        let more = known.with_aur(m);
        if known.class_of(m.name) == PackageClass::Unknown {
            assert(more.aur_names() =~= known.aur_names().push(m.name));
            if known.aur_names().contains(n) {
                let i = choose|i: int| 0 <= i < known.aur_names().len() && known.aur_names()[i] == n;
                assert(more.aur_names()[i] == n);
            } else if more.aur_names().contains(n) {
                let i = choose|i: int| 0 <= i < more.aur_names().len() && more.aur_names()[i] == n;
                assert(m.name != n);
                assert(known.aur_names()[i] == n);
            }
        }
    }
}

/// The test that picks the names of one class that are not installed.
pub open spec fn wanted(
    installed: Seq<Seq<char>>,
    known: KnownView,
    class: PackageClass,
) -> spec_fn(Seq<char>) -> bool {
    |n: Seq<char>| !installed.contains(n) && known.class_of(n) == class
}

/// Of the names of a dependency list, those of one class that are not
/// installed: without their version constraints, each once, in the order in
/// which the list first names them.
pub open spec fn spec_select(
    names: Seq<Seq<char>>,
    installed: Seq<Seq<char>>,
    known: KnownView,
    class: PackageClass,
) -> Seq<Seq<char>> {
    unique(spec_bare_names(names).filter(wanted(installed, known, class)))
}

/// `spec_select` holds exactly the wanted names of the list.
pub proof fn lemma_select_contains(
    names: Seq<Seq<char>>,
    installed: Seq<Seq<char>>,
    known: KnownView,
    class: PackageClass,
    n: Seq<char>,
)
    ensures
        spec_select(names, installed, known, class).contains(n) <==> {
            &&& exists|i: int| 0 <= i < names.len() && spec_bare_name(names[i]) == n
            &&& !installed.contains(n)
            &&& known.class_of(n) == class
        },
{
    let bare = spec_bare_names(names);
    let pred = wanted(installed, known, class);
    crate::text::lemma_unique(bare.filter(pred));
    if bare.filter(pred).contains(n) {
        bare.lemma_filter_contains_rev(pred, n);
        let i = choose|i: int| 0 <= i < bare.len() && bare[i] == n;
        assert(spec_bare_name(names[i]) == n);
    }
    if (exists|i: int| 0 <= i < names.len() && spec_bare_name(names[i]) == n) && pred(n) {
        let i = choose|i: int| 0 <= i < names.len() && spec_bare_name(names[i]) == n;
        assert(bare[i] == n);
        bare.lemma_filter_contains(pred, i);
    }
}

impl Known {
    /// Nothing known yet.
    pub fn new() -> (known: Known)
        ensures
            known@ == KnownView::empty(),
    {
        let known = Known { repo: Vec::new(), aur: Vec::new() };
        assert(known@.repo =~= Seq::empty());
        assert(known@.aur =~= Seq::empty());
        known
    }

    /// The number of AUR packages known.
    pub fn aur_len(&self) -> (n: usize)
        ensures
            n == self@.aur.len(),
    {
        self.aur.len()
    }

    /// The AUR package at position `i`.
    pub fn aur_at(&self, i: usize) -> (m: &AurMetadata)
        requires
            i < self@.aur.len(),
        ensures
            m@ == self@.aur[i as int],
    {
        &self.aur[i]
    }

    /// The position of the AUR package of that name.
    pub fn aur_position(&self, name: &String) -> (at: Option<usize>)
        ensures
            at is Some <==> self@.aur_names().contains(name@),
            at matches Some(i) ==> is_first_index(self@.aur_names(), name@, i as int),
    {
        let mut i: usize = 0;
        while i < self.aur.len()
            invariant
                i <= self.aur.len(),
                forall|j: int| 0 <= j < i ==> self@.aur_names()[j] != name@,
            decreases self.aur.len() - i,
        {
            if self.aur[i].name == *name {
                assert(self@.aur_names()[i as int] == name@);
                return Some(i);
            }
            i += 1;
        }
        None
    }

    /// Where the package of that name comes from, as far as it is known.
    pub fn class_of(&self, name: &String) -> (class: PackageClass)
        ensures
            class == self@.class_of(name@),
    {
        if contains(&self.repo, name) {
            PackageClass::Repo
        } else if self.aur_position(name).is_some() {
            PackageClass::Aur
        } else {
            PackageClass::Unknown
        }
    }

    /// Records that the repositories have `name`, unless its source is known
    /// already.
    pub fn record_repo(&mut self, name: String)
        ensures
            final(self)@ == old(self)@.with_repo(name@),
    {
        if self.class_of(&name) == PackageClass::Unknown {
            proof {
                lemma_strs_push(self.repo@, name);
            }
            self.repo.push(name);
        }
    }

    /// Records an AUR package, unless the source of its name is known
    /// already.
    pub fn record_aur(&mut self, metadata: AurMetadata)
        ensures
            final(self)@ == old(self)@.with_aur(metadata@),
    {
        if self.class_of(&metadata.name) == PackageClass::Unknown {
            assert(metadata_views(self.aur@.push(metadata)) =~= metadata_views(self.aur@).push(
                metadata@,
            ));
            self.aur.push(metadata);
        }
    }

    /// Of the names of a dependency list, those of one class that are not
    /// installed: without their version constraints, each once, in the order
    /// in which the list first names them.
    pub fn select(&self, names: &Vec<String>, installed: &Vec<String>, class: PackageClass) -> (picked:
        Vec<String>)
        ensures
            strs(picked@) == spec_select(strs(names@), strs(installed@), self@, class),
    {
        let ghost all = strs(names@);
        let ghost pred = wanted(strs(installed@), self@, class);
        let mut picked: Vec<String> = Vec::new();
        let mut i: usize = 0;
        proof {
            reveal(Seq::filter);
            assert(spec_bare_names(all.take(0)) =~= Seq::empty());
            assert(strs(picked@) =~= Seq::empty());
        }
        while i < names.len()
            invariant
                i <= names.len(),
                all == strs(names@),
                pred == wanted(strs(installed@), self@, class),
                strs(picked@) == unique(spec_bare_names(all.take(i as int)).filter(pred)),
            decreases names.len() - i,
        {
            let bare = bare_name(names[i].as_str());
            proof {
                let before = spec_bare_names(all.take(i as int));
                lemma_strs_take(names@, i as int);
                assert(spec_bare_names(all.take(i + 1)) =~= before.push(bare@));
                lemma_filter_push(before, pred, bare@);
                lemma_unique_push(before.filter(pred), bare@);
            }
            if !contains(installed, &bare) && self.class_of(&bare) == class {
                push_unique(&mut picked, bare);
            }
            i += 1;
        }
        assert(all.take(names.len() as int) =~= all);
        picked
    }
}

} // verus!
