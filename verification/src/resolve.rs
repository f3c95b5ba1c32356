//! Resolving the dependencies of the AUR packages.
//!
//! Every AUR package that the run knows is to be built. A name that a
//! package depends on counts without its version constraint, and not at all
//! if the package of that name is installed already. Each other name must
//! have a source: the repositories, from which the native manager installs
//! it, or the AUR, where it is one more package to build, ahead of the
//! packages that depend on it.

use crate::graph::{
    build_order, is_build_order, is_cycle, lemma_build_order_is_permutation,
    lemma_build_order_is_topological, model, well_formed,
};
use crate::known::{
    first_index, is_first_index, lemma_first_index, lemma_select_contains, spec_select, Known,
    KnownView,
};
use crate::names::{bare_name, spec_bare_name};
use crate::package::{metadata_views, AurMetadata, MetadataView, PackageClass};
use crate::text::{contains, lemma_unique, lemma_unique_push, push_unique, strs, unique};
use vstd::prelude::*;

verus! {

/// The dependencies of one kind of a package, by source.
#[derive(Debug)]
pub struct DependencyList {
    /// The bare names that the repositories have.
    pub repo: Vec<String>,
    /// The packages that only the AUR has.
    pub aur: Vec<AurMetadata>,
}

/// A `DependencyList` with its texts as sequences of characters.
pub struct DependencyListView {
    pub repo: Seq<Seq<char>>,
    pub aur: Seq<MetadataView>,
}

impl View for DependencyList {
    type V = DependencyListView;

    open spec fn view(&self) -> DependencyListView {
        DependencyListView { repo: strs(self.repo@), aur: metadata_views(self.aur@) }
    }
}

impl DependencyListView {
    /// The canonical names of the AUR packages of the list.
    pub open spec fn aur_names(self) -> Seq<Seq<char>> {
        self.aur.map_values(|m: MetadataView| m.name)
    }
}

/// The dependencies of one AUR package that are not installed yet, by kind
/// and by source.
#[derive(Debug)]
pub struct DependencyInformation {
    pub metadata: AurMetadata,
    pub depends: DependencyList,
    pub make_depends: DependencyList,
    pub check_depends: DependencyList,
}

/// A `DependencyInformation` with its texts as sequences of characters.
pub struct DependencyInformationView {
    pub metadata: MetadataView,
    pub depends: DependencyListView,
    pub make_depends: DependencyListView,
    pub check_depends: DependencyListView,
}

impl View for DependencyInformation {
    type V = DependencyInformationView;

    open spec fn view(&self) -> DependencyInformationView {
        DependencyInformationView {
            metadata: self.metadata@,
            depends: self.depends@,
            make_depends: self.make_depends@,
            check_depends: self.check_depends@,
        }
    }
}

/// The views of a list of dependency records.
pub open spec fn information_views(list: Seq<DependencyInformation>) -> Seq<
    DependencyInformationView,
> {
    list.map_values(|d: DependencyInformation| d@)
}

/// The function that gives the metadata of a known AUR package by name.
pub open spec fn metadata_by_name(known: KnownView) -> spec_fn(Seq<char>) -> MetadataView {
    |n: Seq<char>| known.metadata_of(n)
}

/// The function that gives the position of a known AUR package by name.
pub open spec fn position_by_name(known: KnownView) -> spec_fn(Seq<char>) -> usize {
    |n: Seq<char>| first_index(known.aur_names(), n) as usize
}

/// The names of a dependency list that are not installed, by source.
pub open spec fn spec_list(
    names: Seq<Seq<char>>,
    installed: Seq<Seq<char>>,
    known: KnownView,
) -> DependencyListView {
    DependencyListView {
        repo: spec_select(names, installed, known, PackageClass::Repo),
        aur: spec_select(names, installed, known, PackageClass::Aur).map_values(
            metadata_by_name(known),
        ),
    }
}

/// The dependency record of a package.
pub open spec fn spec_information(
    metadata: MetadataView,
    installed: Seq<Seq<char>>,
    known: KnownView,
) -> DependencyInformationView {
    DependencyInformationView {
        metadata,
        depends: spec_list(metadata.depends, installed, known),
        make_depends: spec_list(metadata.make_depends, installed, known),
        check_depends: spec_list(metadata.check_depends, installed, known),
    }
}

/// The package of that name is installed, or its source is known.
pub open spec fn satisfied(installed: Seq<Seq<char>>, known: KnownView, n: Seq<char>) -> bool {
    installed.contains(n) || known.class_of(n) != PackageClass::Unknown
}

/// Position `j` holds the first name of the list that is neither installed
/// nor of a known source.
pub open spec fn is_first_missing(
    names: Seq<Seq<char>>,
    installed: Seq<Seq<char>>,
    known: KnownView,
    j: int,
) -> bool {
    &&& 0 <= j < names.len()
    &&& !satisfied(installed, known, spec_bare_name(names[j]))
    &&& forall|k: int| 0 <= k < j ==> satisfied(installed, known, spec_bare_name(#[trigger] names[k]))
}

/// Every name of the list is installed or of a known source.
pub open spec fn all_satisfied(
    names: Seq<Seq<char>>,
    installed: Seq<Seq<char>>,
    known: KnownView,
) -> bool {
    forall|k: int|
        0 <= k < names.len() ==> satisfied(installed, known, spec_bare_name(#[trigger] names[k]))
}

/// Every dependency of every known AUR package is installed or of a known
/// source.
pub open spec fn closed(known: KnownView, installed: Seq<Seq<char>>) -> bool {
    forall|h: int|
        0 <= h < known.aur.len() ==> all_satisfied(
            (#[trigger] known.aur[h]).all_depends(),
            installed,
            known,
        )
}

/// Package `h` is the first with a dependency that is neither installed nor
/// of a known source, and position `j` of its dependencies holds the first
/// such name.
pub open spec fn is_first_open(known: KnownView, installed: Seq<Seq<char>>, h: int, j: int) -> bool {
    &&& 0 <= h < known.aur.len()
    &&& is_first_missing(known.aur[h].all_depends(), installed, known, j)
    &&& forall|g: int|
        0 <= g < h ==> all_satisfied((#[trigger] known.aur[g]).all_depends(), installed, known)
}

/// The AUR packages that package `h` waits for, by position.
pub open spec fn spec_edges(known: KnownView, installed: Seq<Seq<char>>, h: int) -> Seq<usize> {
    spec_select(known.aur[h].all_depends(), installed, known, PackageClass::Aur).map_values(
        position_by_name(known),
    )
}

/// The dependency graph of the known AUR packages: node `h` is the package
/// at position `h`, and it waits for the AUR packages among its
/// dependencies that are not installed.
pub open spec fn spec_graph(known: KnownView, installed: Seq<Seq<char>>) -> Seq<Seq<usize>> {
    Seq::new(known.aur.len(), |h: int| spec_edges(known, installed, h))
}

/// The repository names that the first `h` packages depend on.
pub open spec fn repo_names_upto(known: KnownView, installed: Seq<Seq<char>>, h: int) -> Seq<
    Seq<char>,
>
    decreases h,
{
    if h <= 0 {
        Seq::empty()
    } else {
        repo_names_upto(known, installed, h - 1) + spec_select(
            known.aur[h - 1].all_depends(),
            installed,
            known,
            PackageClass::Repo,
        )
    }
}

/// The repository packages that the AUR packages depend on and that are not
/// installed: each once, in the order in which the packages name them.
pub open spec fn spec_repo_dependencies(known: KnownView, installed: Seq<Seq<char>>) -> Seq<
    Seq<char>,
> {
    unique(repo_names_upto(known, installed, known.aur.len() as int))
}

/// The outcome of a resolution that succeeded.
#[derive(Debug)]
pub struct Resolution {
    /// The positions of the AUR packages, in build order.
    pub order: Vec<usize>,
    /// The dependency records of the AUR packages, in build order.
    pub dependencies: Vec<DependencyInformation>,
    /// The repository packages to install before anything is built.
    pub repo_dependencies: Vec<String>,
}

/// A `Resolution` with its texts as sequences of characters.
pub struct ResolutionView {
    pub order: Seq<usize>,
    pub dependencies: Seq<DependencyInformationView>,
    pub repo_dependencies: Seq<Seq<char>>,
}

impl View for Resolution {
    type V = ResolutionView;

    open spec fn view(&self) -> ResolutionView {
        ResolutionView {
            order: self.order@,
            dependencies: information_views(self.dependencies@),
            repo_dependencies: strs(self.repo_dependencies@),
        }
    }
}

/// How far the resolution got.
#[derive(Debug)]
pub enum Resolve {
    /// The source of this name is not known yet: it has to be asked for.
    Ask(String),
    /// The named packages depend on each other in a circle.
    Cyclic(Vec<String>),
    /// Everything is resolved.
    Done(Resolution),
}

/// `r` is the resolution of what is known: the build order of the dependency
/// graph, the record of each package in that order, and the repository
/// packages they need.
pub open spec fn is_resolution(known: KnownView, installed: Seq<Seq<char>>, r: ResolutionView) -> bool {
    &&& known.aur.len() <= usize::MAX
    &&& closed(known, installed)
    &&& is_build_order(spec_graph(known, installed), r.order)
    &&& r.dependencies.len() == r.order.len()
    &&& forall|p: int|
        0 <= p < r.order.len() ==> #[trigger] r.dependencies[p] == spec_information(
            known.aur[r.order[p] as int],
            installed,
            known,
        )
    &&& r.repo_dependencies == spec_repo_dependencies(known, installed)
}

/// `path` names the packages of the dependency cycle `c`, in the order of
/// the cycle.
pub open spec fn names_cycle(
    known: KnownView,
    installed: Seq<Seq<char>>,
    path: Seq<Seq<char>>,
    c: Seq<usize>,
) -> bool {
    &&& is_cycle(spec_graph(known, installed), c)
    &&& path.len() == c.len()
    &&& forall|k: int| 0 <= k < c.len() ==> #[trigger] path[k] == known.aur[c[k] as int].name
}

/// `path` names the packages of a dependency cycle, in the order of the
/// cycle.
pub open spec fn is_cycle_path(known: KnownView, installed: Seq<Seq<char>>, path: Seq<Seq<char>>) -> bool {
    exists|c: Seq<usize>| names_cycle(known, installed, path, c)
}

/// The AUR packages of a dependency list go by the names that were picked
/// for them.
pub proof fn lemma_list_aur_names(
    names: Seq<Seq<char>>,
    installed: Seq<Seq<char>>,
    known: KnownView,
)
    ensures
        spec_list(names, installed, known).aur_names() == spec_select(
            names,
            installed,
            known,
            PackageClass::Aur,
        ),
{
    let picked = spec_select(names, installed, known, PackageClass::Aur);
    let list = spec_list(names, installed, known);
    assert forall|k: int| 0 <= k < picked.len() implies list.aur_names()[k] == picked[k] by {
        assert(picked.contains(picked[k]));
        lemma_select_contains(names, installed, known, PackageClass::Aur, picked[k]);
        lemma_first_index(known.aur_names(), picked[k]);
    }
    assert(list.aur_names() =~= picked);
}

/// A dependency list is split in two: a name of the list whose package is
/// not installed and whose source is known stands, without its version
/// constraint, in exactly one of the two parts.
pub proof fn lemma_list_is_partition(
    names: Seq<Seq<char>>,
    installed: Seq<Seq<char>>,
    known: KnownView,
    name: Seq<char>,
)
    requires
        names.contains(name),
        !installed.contains(spec_bare_name(name)),
        known.class_of(spec_bare_name(name)) != PackageClass::Unknown,
    ensures
        spec_list(names, installed, known).repo.contains(spec_bare_name(name)) != spec_list(
            names,
            installed,
            known,
        ).aur_names().contains(spec_bare_name(name)),
{
    let n = spec_bare_name(name);
    let i = choose|i: int| 0 <= i < names.len() && names[i] == name;
    assert(spec_bare_name(names[i]) == n);
    lemma_list_aur_names(names, installed, known);
    lemma_select_contains(names, installed, known, PackageClass::Repo, n);
    lemma_select_contains(names, installed, known, PackageClass::Aur, n);
}

/// The dependency graph names only known packages.
pub proof fn lemma_graph_well_formed(known: KnownView, installed: Seq<Seq<char>>)
    ensures
        well_formed(spec_graph(known, installed)),
{
    let g = spec_graph(known, installed);
    assert forall|i: int, k: int| 0 <= i < g.len() && 0 <= k < g[i].len() implies (#[trigger] g[i][k])
        < g.len() by {
        let picked = spec_select(known.aur[i].all_depends(), installed, known, PackageClass::Aur);
        let n = picked[k];
        assert(picked.contains(n));
        lemma_select_contains(known.aur[i].all_depends(), installed, known, PackageClass::Aur, n);
        lemma_first_index(known.aur_names(), n);
    }
}

/// A repository name that one of the first `bound` packages depends on is
/// among the names gathered from them.
proof fn lemma_upto_contains(
    known: KnownView,
    installed: Seq<Seq<char>>,
    bound: int,
    h: int,
    n: Seq<char>,
)
    requires
        0 <= h < bound,
        spec_select(known.aur[h].all_depends(), installed, known, PackageClass::Repo).contains(n),
    ensures
        repo_names_upto(known, installed, bound).contains(n),
    decreases bound,
{
    let front = repo_names_upto(known, installed, bound - 1);
    let last = spec_select(known.aur[bound - 1].all_depends(), installed, known, PackageClass::Repo);
    if h == bound - 1 {
        let k = choose|k: int| 0 <= k < last.len() && last[k] == n;
        assert((front + last)[front.len() + k] == n);
    } else {
        lemma_upto_contains(known, installed, bound - 1, h, n);
        let k = choose|k: int| 0 <= k < front.len() && front[k] == n;
        assert((front + last)[k] == n);
    }
}

/// Every name that a resolved package depends on is accounted for: the
/// package of that name is installed already, or it is among the repository
/// packages to install, or it is an AUR package that stands earlier in the
/// build order.
pub proof fn lemma_dependencies_accounted(
    known: KnownView,
    installed: Seq<Seq<char>>,
    r: ResolutionView,
    p: int,
    name: Seq<char>,
)
    requires
        is_resolution(known, installed, r),
        0 <= p < r.dependencies.len(),
        r.dependencies[p].metadata.all_depends().contains(name),
    ensures
        ({
            let n = spec_bare_name(name);
            ||| installed.contains(n)
            ||| r.repo_dependencies.contains(n)
            ||| exists|q: int| 0 <= q < p && r.dependencies[q].metadata.name == n
        }),
{
    let n = spec_bare_name(name);
    let g = spec_graph(known, installed);
    lemma_build_order_is_permutation(g, r.order);
    let h = r.order[p] as int;
    let all = known.aur[h].all_depends();
    assert(r.dependencies[p] == spec_information(known.aur[h], installed, known));
    let j = choose|j: int| 0 <= j < all.len() && all[j] == name;
    assert(all_satisfied(known.aur[h].all_depends(), installed, known));
    assert(satisfied(installed, known, spec_bare_name(all[j])));
    if !installed.contains(n) {
        if known.class_of(n) == PackageClass::Repo {
            lemma_select_contains(all, installed, known, PackageClass::Repo, n);
            lemma_upto_contains(known, installed, known.aur.len() as int, h, n);
            lemma_unique(repo_names_upto(known, installed, known.aur.len() as int));
        } else {
            let picked = spec_select(all, installed, known, PackageClass::Aur);
            lemma_select_contains(all, installed, known, PackageClass::Aur, n);
            let e = choose|e: int| 0 <= e < picked.len() && picked[e] == n;
            lemma_first_index(known.aur_names(), n);
            let k = first_index(known.aur_names(), n);
            assert(g[h][e] == k as usize);
            lemma_build_order_is_topological(g, r.order, p, e);
            let q = choose|q: int| 0 <= q < p && r.order[q] == g[h][e];
            assert(r.order[q] as int == k);
            assert(r.dependencies[q] == spec_information(
                known.aur[r.order[q] as int],
                installed,
                known,
            ));
            assert(known.aur_names()[k] == n);
        }
    }
}

/// What is known has one resolution only.
pub proof fn lemma_resolution_is_unique(
    known: KnownView,
    installed: Seq<Seq<char>>,
    r: ResolutionView,
    s: ResolutionView,
)
    requires
        is_resolution(known, installed, r),
        is_resolution(known, installed, s),
    ensures
        r == s,
{
    crate::graph::lemma_build_order_is_unique(spec_graph(known, installed), r.order, s.order);
    assert forall|p: int| 0 <= p < r.dependencies.len() implies r.dependencies[p]
        == s.dependencies[p] by {
        assert(r.dependencies[p] == spec_information(
            known.aur[r.order[p] as int],
            installed,
            known,
        ));
        assert(s.dependencies[p] == spec_information(
            known.aur[s.order[p] as int],
            installed,
            known,
        ));
    }
    assert(r.dependencies =~= s.dependencies);
}

/// Of a list whose packages are all installed nothing is picked.
pub proof fn lemma_installed_are_passed_over(
    names: Seq<Seq<char>>,
    installed: Seq<Seq<char>>,
    known: KnownView,
    class: PackageClass,
)
    requires
        forall|k: int| 0 <= k < names.len() ==> installed.contains(spec_bare_name(#[trigger] names[k])),
    ensures
        spec_select(names, installed, known, class).len() == 0,
{
    let bare = crate::names::spec_bare_names(names);
    let pred = crate::known::wanted(installed, known, class);
    let kept = bare.filter(pred);
    if kept.len() > 0 {
        bare.lemma_filter_pred(pred, 0);
        assert(kept.contains(kept[0]));
        bare.lemma_filter_contains_rev(pred, kept[0]);
        let k = choose|k: int| 0 <= k < bare.len() && bare[k] == kept[0];
        assert(installed.contains(spec_bare_name(names[k])));
        assert(pred(kept[0]));
    }
    lemma_unique(kept);
}

/// Where every package that the AUR packages depend on is installed
/// already, nothing is left to ask for or to install for them, and no
/// package waits for another. This is how a run finds a system that an
/// earlier run has served.
pub proof fn lemma_installed_dependencies_need_nothing(
    known: KnownView,
    installed: Seq<Seq<char>>,
    h: int,
)
    requires
        forall|g: int, k: int|
            0 <= g < known.aur.len() && 0 <= k < known.aur[g].all_depends().len()
                ==> installed.contains(spec_bare_name(#[trigger] known.aur[g].all_depends()[k])),
        0 <= h < known.aur.len(),
    ensures
        closed(known, installed),
        spec_repo_dependencies(known, installed).len() == 0,
        spec_edges(known, installed, h).len() == 0,
{
    assert forall|g: int| 0 <= g < known.aur.len() implies all_satisfied(
        (#[trigger] known.aur[g]).all_depends(),
        installed,
        known,
    ) by {
        let all = known.aur[g].all_depends();
        assert forall|k: int| 0 <= k < all.len() implies satisfied(
            installed,
            known,
            spec_bare_name(#[trigger] all[k]),
        ) by {
            assert(installed.contains(spec_bare_name(known.aur[g].all_depends()[k])));
        }
    }
    lemma_installed_are_passed_over(
        known.aur[h].all_depends(),
        installed,
        known,
        PackageClass::Aur,
    );
    lemma_no_repo_names(known, installed, known.aur.len() as int);
    lemma_unique(repo_names_upto(known, installed, known.aur.len() as int));
}

proof fn lemma_no_repo_names(known: KnownView, installed: Seq<Seq<char>>, bound: int)
    requires
        forall|g: int, k: int|
            0 <= g < known.aur.len() && 0 <= k < known.aur[g].all_depends().len()
                ==> installed.contains(spec_bare_name(#[trigger] known.aur[g].all_depends()[k])),
        0 <= bound <= known.aur.len(),
    ensures
        repo_names_upto(known, installed, bound).len() == 0,
    decreases bound,
{
    if bound > 0 {
        lemma_no_repo_names(known, installed, bound - 1);
        lemma_installed_are_passed_over(
            known.aur[bound - 1].all_depends(),
            installed,
            known,
            PackageClass::Repo,
        );
    }
}

/// The resolved packages are the known AUR packages, each once.
pub proof fn lemma_resolution_is_permutation(
    known: KnownView,
    installed: Seq<Seq<char>>,
    r: ResolutionView,
)
    requires
        is_resolution(known, installed, r),
    ensures
        r.order.len() == known.aur.len(),
        r.order.no_duplicates(),
        forall|p: int| 0 <= p < r.order.len() ==> (#[trigger] r.order[p]) < known.aur.len(),
        forall|h: usize| h < known.aur.len() ==> r.order.contains(h),
{
    lemma_build_order_is_permutation(spec_graph(known, installed), r.order);
}

/// The build order is a topological order of the dependency graph: the
/// package at position `p` stands behind each AUR package it waits for.
pub proof fn lemma_resolution_is_topological(
    known: KnownView,
    installed: Seq<Seq<char>>,
    r: ResolutionView,
    p: int,
    e: int,
)
    requires
        is_resolution(known, installed, r),
        0 <= p < r.order.len(),
        0 <= e < spec_edges(known, installed, r.order[p] as int).len(),
    ensures
        exists|q: int|
            0 <= q < p && r.order[q] == spec_edges(known, installed, r.order[p] as int)[e],
{
    let g = spec_graph(known, installed);
    lemma_build_order_is_permutation(g, r.order);
    assert(r.order[p] < g.len());
    assert(g[r.order[p] as int] == spec_edges(known, installed, r.order[p] as int));
    lemma_build_order_is_topological(g, r.order, p, e);
}

/// The names of a dependency list that are not installed, by source.
pub fn dependency_list(names: &Vec<String>, installed: &Vec<String>, known: &Known) -> (list:
    DependencyList)
    ensures
        list@ == spec_list(strs(names@), strs(installed@), known@),
{
    let repo = known.select(names, installed, PackageClass::Repo);
    let picked = known.select(names, installed, PackageClass::Aur);
    let ghost want = spec_select(strs(names@), strs(installed@), known@, PackageClass::Aur);
    let mut aur: Vec<AurMetadata> = Vec::new();
    let mut i: usize = 0;
    while i < picked.len()
        invariant
            i <= picked.len(),
            strs(picked@) == want,
            want == spec_select(strs(names@), strs(installed@), known@, PackageClass::Aur),
            aur.len() == i,
            forall|k: int| 0 <= k < i ==> (#[trigger] aur@[k])@ == known@.metadata_of(want[k]),
        decreases picked.len() - i,
    {
        proof {
            assert(want[i as int] == picked@[i as int]@);
            assert(want.contains(want[i as int]));
            lemma_select_contains(
                strs(names@),
                strs(installed@),
                known@,
                PackageClass::Aur,
                want[i as int],
            );
            lemma_first_index(known@.aur_names(), want[i as int]);
        }
        let at = known.aur_position(&picked[i]).unwrap();
        aur.push(known.aur_at(at).duplicate());
        i += 1;
    }
    assert(metadata_views(aur@) =~= want.map_values(metadata_by_name(known@)));
    DependencyList { repo, aur }
}

impl DependencyInformation {
    /// The dependency record of a package.
    pub fn new(metadata: &AurMetadata, installed: &Vec<String>, known: &Known) -> (info:
        DependencyInformation)
        ensures
            info@ == spec_information(metadata@, strs(installed@), known@),
    {
        DependencyInformation {
            metadata: metadata.duplicate(),
            depends: dependency_list(&metadata.depends, installed, known),
            make_depends: dependency_list(&metadata.make_depends, installed, known),
            check_depends: dependency_list(&metadata.check_depends, installed, known),
        }
    }
}

/// The first name of the list that is neither installed nor of a known
/// source, without its version constraint.
pub fn first_missing(names: &Vec<String>, installed: &Vec<String>, known: &Known) -> (missing:
    Option<String>)
    ensures
        missing matches Some(n) ==> exists|j: int|
            is_first_missing(strs(names@), strs(installed@), known@, j) && n@ == spec_bare_name(
                strs(names@)[j],
            ),
        missing is None ==> all_satisfied(strs(names@), strs(installed@), known@),
{
    let mut j: usize = 0;
    while j < names.len()
        invariant
            j <= names.len(),
            forall|k: int|
                0 <= k < j ==> satisfied(
                    strs(installed@),
                    known@,
                    spec_bare_name(#[trigger] strs(names@)[k]),
                ),
        decreases names.len() - j,
    {
        let bare = bare_name(names[j].as_str());
        if !contains(installed, &bare) && known.class_of(&bare) == PackageClass::Unknown {
            assert(is_first_missing(strs(names@), strs(installed@), known@, j as int));
            return Some(bare);
        }
        j += 1;
    }
    None
}

/// The dependency graph of the known AUR packages.
pub fn dependency_graph(known: &Known, installed: &Vec<String>) -> (graph: Vec<Vec<usize>>)
    ensures
        model(graph@) == spec_graph(known@, strs(installed@)),
        well_formed(model(graph@)),
{
    let n = known.aur_len();
    let mut graph: Vec<Vec<usize>> = Vec::new();
    let mut h: usize = 0;
    while h < n
        invariant
            n == known@.aur.len(),
            h <= n,
            graph.len() == h,
            forall|i: int|
                0 <= i < h ==> (#[trigger] graph@[i])@ == spec_edges(known@, strs(installed@), i),
        decreases n - h,
    {
        let all = known.aur_at(h).all_depends();
        let picked = known.select(&all, installed, PackageClass::Aur);
        let ghost want = spec_select(
            known@.aur[h as int].all_depends(),
            strs(installed@),
            known@,
            PackageClass::Aur,
        );
        let mut edges: Vec<usize> = Vec::new();
        let mut e: usize = 0;
        while e < picked.len()
            invariant
                e <= picked.len(),
                strs(picked@) == want,
                h < known@.aur.len(),
                want == spec_select(
                    known@.aur[h as int].all_depends(),
                    strs(installed@),
                    known@,
                    PackageClass::Aur,
                ),
                edges.len() == e,
                forall|k: int|
                    0 <= k < e ==> (#[trigger] edges@[k]) == first_index(
                        known@.aur_names(),
                        want[k],
                    ),
            decreases picked.len() - e,
        {
            proof {
                assert(want[e as int] == picked@[e as int]@);
                assert(want.contains(want[e as int]));
                lemma_select_contains(
                    known@.aur[h as int].all_depends(),
                    strs(installed@),
                    known@,
                    PackageClass::Aur,
                    want[e as int],
                );
                lemma_first_index(known@.aur_names(), want[e as int]);
            }
            let at = known.aur_position(&picked[e]).unwrap();
            edges.push(at);
            e += 1;
        }
        assert(edges@ =~= spec_edges(known@, strs(installed@), h as int));
        graph.push(edges);
        h += 1;
    }
    proof {
        assert(model(graph@) =~= spec_graph(known@, strs(installed@)));
        lemma_graph_well_formed(known@, strs(installed@));
    }
    graph
}

/// The repository packages that the AUR packages depend on and that are not
/// installed.
pub fn repo_dependencies(known: &Known, installed: &Vec<String>) -> (names: Vec<String>)
    ensures
        strs(names@) == spec_repo_dependencies(known@, strs(installed@)),
{
    let n = known.aur_len();
    let mut names: Vec<String> = Vec::new();
    let mut h: usize = 0;
    assert(strs(names@) =~= unique(repo_names_upto(known@, strs(installed@), 0)));
    while h < n
        invariant
            n == known@.aur.len(),
            h <= n,
            strs(names@) == unique(repo_names_upto(known@, strs(installed@), h as int)),
        decreases n - h,
    {
        let all = known.aur_at(h).all_depends();
        let picked = known.select(&all, installed, PackageClass::Repo);
        let ghost front = repo_names_upto(known@, strs(installed@), h as int);
        let mut j: usize = 0;
        assert(front + strs(picked@).take(0) =~= front);
        while j < picked.len()
            invariant
                j <= picked.len(),
                strs(names@) == unique(front + strs(picked@).take(j as int)),
            decreases picked.len() - j,
        {
            proof {
                crate::text::lemma_strs_take(picked@, j as int);
                assert(front + strs(picked@).take(j + 1) =~= (front + strs(picked@).take(
                    j as int,
                )).push(picked@[j as int]@));
                lemma_unique_push(front + strs(picked@).take(j as int), picked@[j as int]@);
            }
            push_unique(&mut names, picked[j].clone());
            j += 1;
        }
        assert(strs(picked@).take(picked.len() as int) =~= strs(picked@));
        h += 1;
    }
    names
}

/// Resolves the dependencies of the known AUR packages, as far as the
/// sources of their names are known.
///
/// The result is `Ask` with the first dependency, without its version
/// constraint, that is neither installed nor of a known source, if there is
/// one. Otherwise it is `Cyclic` if packages depend on each other in a
/// circle, and `Done` with the resolution if none do.
pub fn resolve(known: &Known, installed: &Vec<String>) -> (outcome: Resolve)
    ensures
        match outcome {
            Resolve::Ask(n) => exists|h: int, j: int|
                is_first_open(known@, strs(installed@), h, j) && n@ == spec_bare_name(
                    known@.aur[h].all_depends()[j],
                ),
            Resolve::Cyclic(path) => closed(known@, strs(installed@)) && is_cycle_path(
                known@,
                strs(installed@),
                strs(path@),
            ),
            Resolve::Done(r) => is_resolution(known@, strs(installed@), r@),
        },
{
    let n = known.aur_len();
    let mut h: usize = 0;
    while h < n
        invariant
            n == known@.aur.len(),
            h <= n,
            forall|g: int|
                0 <= g < h ==> all_satisfied(
                    (#[trigger] known@.aur[g]).all_depends(),
                    strs(installed@),
                    known@,
                ),
        decreases n - h,
    {
        let all = known.aur_at(h).all_depends();
        match first_missing(&all, installed, known) {
            Some(name) => {
                proof {
                    let j = choose|j: int|
                        is_first_missing(strs(all@), strs(installed@), known@, j) && name@
                            == spec_bare_name(strs(all@)[j]);
                    assert(is_first_open(known@, strs(installed@), h as int, j));
                }
                return Resolve::Ask(name);
            },
            None => {},
        }
        h += 1;
    }
    let graph = dependency_graph(known, installed);
    match build_order(&graph) {
        Err(cycle) => {
            let mut path: Vec<String> = Vec::new();
            let mut k: usize = 0;
            while k < cycle.len()
                invariant
                    k <= cycle.len(),
                    is_cycle(model(graph@), cycle@),
                    model(graph@).len() == known@.aur.len(),
                    path.len() == k,
                    forall|i: int|
                        0 <= i < k ==> (#[trigger] path@[i])@ == known@.aur[cycle@[i] as int].name,
                decreases cycle.len() - k,
            {
                assert(cycle@[k as int] < model(graph@).len());
                path.push(known.aur_at(cycle[k]).name.clone());
                k += 1;
            }
            proof {
                let c = cycle@;
                assert forall|i: int| 0 <= i < c.len() implies #[trigger] strs(path@)[i]
                    == known@.aur[c[i] as int].name by {
                    assert(strs(path@)[i] == path@[i]@);
                }
                assert(names_cycle(known@, strs(installed@), strs(path@), c));
            }
            Resolve::Cyclic(path)
        },
        Ok(order) => {
            proof {
                lemma_build_order_is_permutation(model(graph@), order@);
            }
            let mut dependencies: Vec<DependencyInformation> = Vec::new();
            let mut p: usize = 0;
            while p < order.len()
                invariant
                    p <= order.len(),
                    forall|q: int| 0 <= q < order.len() ==> (#[trigger] order@[q]) < known@.aur.len(),
                    dependencies.len() == p,
                    forall|q: int|
                        0 <= q < p ==> (#[trigger] dependencies@[q])@ == spec_information(
                            known@.aur[order@[q] as int],
                            strs(installed@),
                            known@,
                        ),
                decreases order.len() - p,
            {
                assert(order@[p as int] < known@.aur.len());
                dependencies.push(DependencyInformation::new(known.aur_at(order[p]), installed, known));
                p += 1;
            }
            let repo_dependencies = repo_dependencies(known, installed);
            let resolution = Resolution { order, dependencies, repo_dependencies };
            proof {
                let r = resolution@;
                assert forall|q: int| 0 <= q < r.order.len() implies #[trigger] r.dependencies[q]
                    == spec_information(
                    known@.aur[r.order[q] as int],
                    strs(installed@),
                    known@,
                ) by {
                    assert(r.dependencies[q] == resolution.dependencies@[q]@);
                }
            }
            Resolve::Done(resolution)
        },
    }
}

} // verus!
