//! The removal of the make dependencies after the builds.

use crate::install::{spec_uninstall_arguments, uninstall_arguments, UninstallCommand};
use crate::names::{bare_names, spec_bare_names};
use crate::package::Options;
use crate::resolve::{
    information_views, DependencyInformation, DependencyInformationView, DependencyList,
    DependencyListView,
};
use crate::text::{
    append_names, contains, copy_names, lemma_filter_push, lemma_strs_push, lemma_strs_take,
    lemma_unique_push, push_unique, strs, unique,
};
use vstd::prelude::*;

verus! {

/// The stage that removes the make dependencies.
#[derive(Debug)]
pub struct MakeDependencyRemoval {
    pub options: Options,
    pub dependencies: Vec<DependencyInformation>,
    /// The packages that the user asked for.
    pub packages: Vec<String>,
}

/// The names of a dependency list: the repository packages, then the AUR
/// packages.
pub open spec fn spec_list_names(list: DependencyListView) -> Seq<Seq<char>> {
    list.repo + list.aur_names()
}

/// What the first `k` packages need only while they are built.
pub open spec fn make_names_upto(deps: Seq<DependencyInformationView>, k: int) -> Seq<Seq<char>>
    decreases k,
{
    if k <= 0 {
        Seq::empty()
    } else {
        make_names_upto(deps, k - 1) + spec_list_names(deps[k - 1].make_depends)
    }
}

/// What the first `k` packages need to run.
pub open spec fn runtime_names_upto(deps: Seq<DependencyInformationView>, k: int) -> Seq<Seq<char>>
    decreases k,
{
    if k <= 0 {
        Seq::empty()
    } else {
        runtime_names_upto(deps, k - 1) + spec_list_names(deps[k - 1].depends)
    }
}

/// The test that picks the names that no package needs to run and that the
/// user did not ask for.
pub open spec fn only_for_build(
    deps: Seq<DependencyInformationView>,
    requested: Seq<Seq<char>>,
) -> spec_fn(Seq<char>) -> bool {
    |n: Seq<char>|
        !runtime_names_upto(deps, deps.len() as int).contains(n) && !spec_bare_names(
            requested,
        ).contains(n)
}

/// The make dependencies that can go after the builds: what some package
/// needed to be built, but no package needs to run, and the user did not
/// ask for. Each name once, in the order in which the packages name them.
pub open spec fn spec_make_dependencies(
    deps: Seq<DependencyInformationView>,
    requested: Seq<Seq<char>>,
) -> Seq<Seq<char>> {
    unique(make_names_upto(deps, deps.len() as int).filter(only_for_build(deps, requested)))
}

/// Whether the user is asked about the removal: not with `noconfirm`, and
/// not when there is nothing to remove.
pub open spec fn spec_removal_asked(
    options: Options,
    deps: Seq<DependencyInformationView>,
    requested: Seq<Seq<char>>,
) -> bool {
    !options.noconfirm && spec_make_dependencies(deps, requested).len() > 0
}

/// A make dependency that can go is needed by no package to run, and was
/// not asked for by the user.
pub proof fn lemma_removed_is_unneeded(
    deps: Seq<DependencyInformationView>,
    requested: Seq<Seq<char>>,
    n: Seq<char>,
)
    requires
        spec_make_dependencies(deps, requested).contains(n),
    ensures
        make_names_upto(deps, deps.len() as int).contains(n),
        !runtime_names_upto(deps, deps.len() as int).contains(n),
        !spec_bare_names(requested).contains(n),
{
    let all = make_names_upto(deps, deps.len() as int);
    let pred = only_for_build(deps, requested);
    crate::text::lemma_unique(all.filter(pred));
    assert(all.filter(pred).contains(n));
    all.lemma_filter_contains_rev(pred, n);
    assert(pred(n));
}

/// The names of a dependency list: the repository packages, then the AUR
/// packages.
pub fn list_names(list: &DependencyList) -> (names: Vec<String>)
    ensures
        strs(names@) == spec_list_names(list@),
{
    let mut names = copy_names(&list.repo);
    let ghost start = strs(names@);
    let mut i: usize = 0;
    assert(strs(names@) =~= start + list@.aur_names().take(0));
    while i < list.aur.len()
        invariant
            i <= list.aur.len(),
            start == list@.repo,
            strs(names@) == start + list@.aur_names().take(i as int),
        decreases list.aur.len() - i,
    {
        proof {
            lemma_strs_push(names@, list.aur@[i as int].name);
            assert((start + list@.aur_names().take(i as int)).push(list.aur@[i as int].name@)
                =~= start + list@.aur_names().take(i + 1));
        }
        names.push(list.aur[i].name.clone());
        i += 1;
    }
    assert(list@.aur_names().take(list.aur.len() as int) =~= list@.aur_names());
    names
}

/// What the packages need to run.
fn runtime_names(dependencies: &Vec<DependencyInformation>) -> (names: Vec<String>)
    ensures
        strs(names@) == runtime_names_upto(
            information_views(dependencies@),
            dependencies.len() as int,
        ),
{
    let ghost deps = information_views(dependencies@);
    let mut names: Vec<String> = Vec::new();
    let mut k: usize = 0;
    assert(strs(names@) =~= runtime_names_upto(deps, 0));
    while k < dependencies.len()
        invariant
            k <= dependencies.len(),
            deps == information_views(dependencies@),
            strs(names@) == runtime_names_upto(deps, k as int),
        decreases dependencies.len() - k,
    {
        let more = list_names(&dependencies[k].depends);
        assert(deps[k as int].depends == dependencies@[k as int].depends@);
        append_names(&mut names, &more);
        k += 1;
    }
    names
}

/// The make dependencies that can go after the builds.
pub fn make_dependencies(dependencies: &Vec<DependencyInformation>, requested: &Vec<String>) -> (names:
    Vec<String>)
    ensures
        strs(names@) == spec_make_dependencies(information_views(dependencies@), strs(requested@)),
{
    let ghost deps = information_views(dependencies@);
    let ghost pred = only_for_build(deps, strs(requested@));
    let runtime = runtime_names(dependencies);
    let asked = bare_names(requested);
    let mut names: Vec<String> = Vec::new();
    let mut k: usize = 0;
    proof {
        reveal(Seq::filter);
        assert(strs(names@) =~= unique(make_names_upto(deps, 0).filter(pred)));
    }
    while k < dependencies.len()
        invariant
            k <= dependencies.len(),
            deps == information_views(dependencies@),
            pred == only_for_build(deps, strs(requested@)),
            strs(runtime@) == runtime_names_upto(deps, deps.len() as int),
            strs(asked@) == spec_bare_names(strs(requested@)),
            strs(names@) == unique(make_names_upto(deps, k as int).filter(pred)),
        decreases dependencies.len() - k,
    {
        let more = list_names(&dependencies[k].make_depends);
        assert(deps[k as int].make_depends == dependencies@[k as int].make_depends@);
        let ghost front = make_names_upto(deps, k as int);
        let mut j: usize = 0;
        assert(front + strs(more@).take(0) =~= front);
        while j < more.len()
            invariant
                j <= more.len(),
                pred == only_for_build(deps, strs(requested@)),
                strs(runtime@) == runtime_names_upto(deps, deps.len() as int),
                strs(asked@) == spec_bare_names(strs(requested@)),
                strs(names@) == unique((front + strs(more@).take(j as int)).filter(pred)),
            decreases more.len() - j,
        {
            proof {
                let so_far = front + strs(more@).take(j as int);
                lemma_strs_take(more@, j as int);
                assert(front + strs(more@).take(j + 1) =~= so_far.push(more@[j as int]@));
                lemma_filter_push(so_far, pred, more@[j as int]@);
                lemma_unique_push(so_far.filter(pred), more@[j as int]@);
            }
            if !contains(&runtime, &more[j]) && !contains(&asked, &more[j]) {
                push_unique(&mut names, more[j].clone());
            }
            j += 1;
        }
        assert(strs(more@).take(more.len() as int) =~= strs(more@));
        k += 1;
    }
    names
}

impl MakeDependencyRemoval {
    /// Whether the user is asked about the removal.
    pub fn is_asked(&self) -> (asked: bool)
        ensures
            asked == spec_removal_asked(
                self.options,
                information_views(self.dependencies@),
                strs(self.packages@),
            ),
    {
        if self.options.noconfirm {
            return false;
        }
        let names = make_dependencies(&self.dependencies, &self.packages);
        names.len() > 0
    }

    /// The removal of the make dependencies, if it takes place: where the
    /// user was asked and `answer`, the answer given, is yes.
    pub fn remove_make_deps(&self, answer: bool) -> (command: Option<UninstallCommand>)
        ensures
            command is Some <==> answer && spec_removal_asked(
                self.options,
                information_views(self.dependencies@),
                strs(self.packages@),
            ),
            command matches Some(c) ==> {
                &&& c@.packages == spec_make_dependencies(
                    information_views(self.dependencies@),
                    strs(self.packages@),
                )
                &&& c@.arguments == spec_uninstall_arguments()
            },
    {
        if self.options.noconfirm || !answer {
            return None;
        }
        let packages = make_dependencies(&self.dependencies, &self.packages);
        if packages.len() == 0 {
            return None;
        }
        Some(UninstallCommand { packages, arguments: uninstall_arguments() })
    }
}

} // verus!
