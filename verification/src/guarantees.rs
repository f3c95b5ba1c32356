//! What holds of every run of the machine.

use crate::error::ErrorView;
use crate::install::{installs, lemma_install_covers};
use crate::known::lemma_class_kept;
use crate::names::spec_bare_name;
use crate::package::{MetadataView, PackageClass};
use crate::pipeline::{settled, transition, ActionView, EventView, PipelineView, Stage};
use crate::fetch::spec_package_path;
use crate::resolve::{lemma_dependencies_accounted, lemma_resolution_is_topological, spec_edges};
use crate::sort::{all_classified, lemma_sorted_exactly_once, lemma_unknown_in_neither};
use vstd::prelude::*;

verus! {

/// Learning the source of one more name leaves every requested name sorted
/// that was.
proof fn lemma_stays_classified(a: PipelineView)
    requires
        all_classified(a.requested, a.known),
    ensures
        forall|n: Seq<char>| all_classified(a.requested, #[trigger] a.known.with_repo(n)),
        forall|m: MetadataView| all_classified(a.requested, #[trigger] a.known.with_aur(m)),
{
    assert forall|n: Seq<char>| all_classified(a.requested, #[trigger] a.known.with_repo(n)) by {
        assert forall|i: int| 0 <= i < a.requested.len() implies a.known.with_repo(n).class_of(
            spec_bare_name(#[trigger] a.requested[i]),
        ) != PackageClass::Unknown by {
            lemma_class_kept(a.known, spec_bare_name(a.requested[i]));
        }
    }
    assert forall|m: MetadataView| all_classified(a.requested, #[trigger] a.known.with_aur(m)) by {
        assert forall|i: int| 0 <= i < a.requested.len() implies a.known.with_aur(m).class_of(
            spec_bare_name(#[trigger] a.requested[i]),
        ) != PackageClass::Unknown by {
            lemma_class_kept(a.known, spec_bare_name(a.requested[i]));
        }
    }
}

/// What a state settles to is in a stage of resolving or later, once every
/// requested name is sorted.
proof fn lemma_settled_rank(a: PipelineView, b: PipelineView)
    requires
        settled(a, b),
    ensures
        b.stage.rank() >= 1,
        all_classified(a.requested, a.known) ==> b.stage.rank() >= 2,
{
}

/// What a state settles to keeps the invariant of the machine.
proof fn lemma_settled_keeps_invariant(a: PipelineView, b: PipelineView)
    requires
        a.failure is None,
        settled(a, b),
    ensures
        b.wf(),
        b.requested == a.requested,
        b.options == a.options,
        b.root == a.root,
{
    if !all_classified(a.requested, a.known) {
        let i = choose|i: int|
            #![trigger crate::sort::is_first_unclassified(a.requested, a.known, i)]
            crate::sort::is_first_unclassified(a.requested, a.known, i) && b == (PipelineView {
                stage: Stage::Sort,
                asking: spec_bare_name(a.requested[i]),
                ..a
            });
        assert(b.asks_requested(i));
    } else if a.known.aur.len() > 0 && !a.installed_known {
    } else if !crate::resolve::closed(a.known, a.installed) {
        let (h, j) = choose|h: int, j: int|
            #![trigger crate::resolve::is_first_open(a.known, a.installed, h, j)]
            crate::resolve::is_first_open(a.known, a.installed, h, j) && b == (PipelineView {
                stage: Stage::Resolve,
                asking: spec_bare_name(a.known.aur[h].all_depends()[j]),
                ..a
            });
        assert(b.asks_dependency(h, j));
    } else if crate::graph::has_cycle(crate::resolve::spec_graph(a.known, a.installed)) {
    } else {
    }
}

/// An answer of the native manager about a name keeps the invariant.
proof fn lemma_answer_from_repositories_keeps_invariant(
    a: PipelineView,
    code: Option<i32>,
    b: PipelineView,
)
    requires
        a.wf(),
        transition(a, EventView::RepoExit(code), b),
    ensures
        b.wf(),
        b.requested == a.requested,
        b.options == a.options,
        b.root == a.root,
{
    if a.stage == Stage::Sort || a.stage == Stage::Resolve {
        if code == Some(0i32) {
            lemma_settled_keeps_invariant(
                PipelineView { known: a.known.with_repo(a.asking), ..a },
                b,
            );
        } else if code == Some(1i32) {
            if a.stage == Stage::Sort {
                let i = choose|i: int| a.asks_requested(i);
                assert(b.asks_requested(i));
            } else {
                let (h, j) = choose|h: int, j: int| a.asks_dependency(h, j);
                assert(b.asks_dependency(h, j));
            }
        }
    }
}

/// An answer of the registry keeps the invariant.
proof fn lemma_answer_from_registry_keeps_invariant(
    a: PipelineView,
    candidates: Seq<MetadataView>,
    b: PipelineView,
)
    requires
        a.wf(),
        transition(a, EventView::AurResults(candidates), b),
    ensures
        b.wf(),
        b.requested == a.requested,
        b.options == a.options,
        b.root == a.root,
{
    if (a.stage == Stage::SortAur || a.stage == Stage::ResolveAur) && exists|i: int|
        crate::package::is_first_match(candidates, a.asking, i) {
        let i = choose|i: int|
            crate::package::is_first_match(candidates, a.asking, i) && settled(
                PipelineView { known: a.known.with_aur(candidates[i]), ..a },
                b,
            );
        lemma_settled_keeps_invariant(
            PipelineView { known: a.known.with_aur(candidates[i]), ..a },
            b,
        );
    }
}

/// The list of the installed packages keeps the invariant.
proof fn lemma_installed_keeps_invariant(a: PipelineView, names: Seq<Seq<char>>, b: PipelineView)
    requires
        a.wf(),
        transition(a, EventView::Installed(names), b),
    ensures
        b.wf(),
        b.requested == a.requested,
        b.options == a.options,
        b.root == a.root,
{
    if a.stage == Stage::Installed {
        lemma_settled_keeps_invariant(
            PipelineView { installed: names, installed_known: true, ..a },
            b,
        );
    }
}

/// The end of a fetch keeps the invariant.
proof fn lemma_fetched_keeps_invariant(a: PipelineView, failure: Option<Seq<char>>, b: PipelineView)
    requires
        a.wf(),
        transition(a, EventView::Fetched(failure), b),
    ensures
        b.wf(),
        b.requested == a.requested,
        b.options == a.options,
        b.root == a.root,
{
}

/// A selection keeps the invariant.
proof fn lemma_selected_keeps_invariant(a: PipelineView, numbers: Seq<usize>, b: PipelineView)
    requires
        a.wf(),
        transition(a, EventView::Selected(numbers), b),
    ensures
        b.wf(),
        b.requested == a.requested,
        b.options == a.options,
        b.root == a.root,
{
    if a.stage == Stage::Select {
        let valid = crate::review::spec_valid_selection(numbers, a.contexts.len());
        assert forall|k: int| 0 <= k < valid.len() implies (#[trigger] valid[k])
            < a.contexts.len() by {
            numbers.lemma_filter_pred(crate::review::below(a.contexts.len()), k);
        }
    }
}

/// An answer of the user keeps the invariant.
proof fn lemma_answer_keeps_invariant(a: PipelineView, yes: bool, b: PipelineView)
    requires
        a.wf(),
        transition(a, EventView::Answer(yes), b),
    ensures
        b.wf(),
        b.requested == a.requested,
        b.options == a.options,
        b.root == a.root,
{
}

/// The end of a command keeps the invariant.
proof fn lemma_exit_keeps_invariant(a: PipelineView, code: Option<i32>, b: PipelineView)
    requires
        a.wf(),
        transition(a, EventView::Exit(code), b),
    ensures
        b.wf(),
        b.requested == a.requested,
        b.options == a.options,
        b.root == a.root,
{
}

/// An event that carries nothing keeps the invariant.
proof fn lemma_plain_event_keeps_invariant(a: PipelineView, e: EventView, b: PipelineView)
    requires
        a.wf(),
        e is AurFailed || e is Cache || e is Done || e is Interrupt,
        transition(a, e, b),
    ensures
        b.wf(),
        b.requested == a.requested,
        b.options == a.options,
        b.root == a.root,
{
}

/// Every move of the machine keeps its invariant, and leaves the request,
/// the options and the cache root as they are.
pub proof fn lemma_transition_keeps_invariant(a: PipelineView, e: EventView, b: PipelineView)
    requires
        a.wf(),
        transition(a, e, b),
    ensures
        b.wf(),
        b.requested == a.requested,
        b.options == a.options,
        b.root == a.root,
{
    match e {
        EventView::RepoExit(code) => lemma_answer_from_repositories_keeps_invariant(a, code, b),
        EventView::AurResults(candidates) => lemma_answer_from_registry_keeps_invariant(
            a,
            candidates,
            b,
        ),
        EventView::Installed(names) => lemma_installed_keeps_invariant(a, names, b),
        EventView::Fetched(failure) => lemma_fetched_keeps_invariant(a, failure, b),
        EventView::Selected(numbers) => lemma_selected_keeps_invariant(a, numbers, b),
        EventView::Answer(yes) => lemma_answer_keeps_invariant(a, yes, b),
        EventView::Exit(code) => lemma_exit_keeps_invariant(a, code, b),
        _ => lemma_plain_event_keeps_invariant(a, e, b),
    }
}

/// The states of a run: the first is what the start settles to, and each
/// event takes one state to the next.
pub open spec fn is_run(
    requested: Seq<Seq<char>>,
    options: crate::package::Options,
    root: Seq<char>,
    events: Seq<EventView>,
    states: Seq<PipelineView>,
) -> bool {
    &&& states.len() == events.len() + 1
    &&& settled(PipelineView::initial(requested, options, root), states[0])
    &&& forall|k: int|
        0 <= k < events.len() ==> transition(#[trigger] states[k], events[k], states[k + 1])
}

/// Every state of a run keeps the invariant of the machine and the options
/// of the run, and the stages of a run never go back.
pub proof fn lemma_run_keeps_invariant(
    requested: Seq<Seq<char>>,
    options: crate::package::Options,
    root: Seq<char>,
    events: Seq<EventView>,
    states: Seq<PipelineView>,
    k: int,
)
    requires
        is_run(requested, options, root, events, states),
        0 <= k < states.len(),
    ensures
        states[k].wf(),
        states[k].requested == requested,
        states[k].options == options,
        states[k].root == root,
        forall|j: int| 0 <= j <= k ==> (#[trigger] states[j]).stage.rank() <= states[k].stage.rank(),
    decreases k,
{
    if k == 0 {
        lemma_settled_keeps_invariant(PipelineView::initial(requested, options, root), states[0]);
    } else {
        lemma_run_keeps_invariant(requested, options, root, events, states, k - 1);
        assert(transition(states[k - 1], events[k - 1], states[k]));
        lemma_transition_keeps_invariant(states[k - 1], events[k - 1], states[k]);
        lemma_stages_advance(states[k - 1], events[k - 1], states[k]);
    }
}

/// In a run with `noconfirm` the user is never asked anything.
pub proof fn lemma_noconfirm_run_never_prompts(
    requested: Seq<Seq<char>>,
    options: crate::package::Options,
    root: Seq<char>,
    events: Seq<EventView>,
    states: Seq<PipelineView>,
    k: int,
)
    requires
        is_run(requested, options, root, events, states),
        options.noconfirm,
        0 <= k < states.len(),
    ensures
        !(states[k].action() is Confirm),
        !(states[k].action() is SelectReview),
        !(states[k].action() is Page),
{
    lemma_run_keeps_invariant(requested, options, root, events, states, k);
    lemma_noconfirm_never_prompts(states[k]);
}

/// In a run in which the user declines at the end of the review, nothing is
/// installed, built or removed: not before the answer, and not after it.
pub proof fn lemma_declined_run_installs_nothing(
    requested: Seq<Seq<char>>,
    options: crate::package::Options,
    root: Seq<char>,
    events: Seq<EventView>,
    states: Seq<PipelineView>,
    declined: int,
    k: int,
)
    requires
        is_run(requested, options, root, events, states),
        0 <= declined < events.len(),
        states[declined].stage == Stage::Confirm,
        events[declined] == EventView::Answer(false),
        0 <= k < states.len(),
    ensures
        !(states[k].action() is Install),
        !(states[k].action() is Build),
        !(states[k].action() is Uninstall),
{
    assert(transition(states[declined], events[declined], states[declined + 1]));
    if k <= declined {
        lemma_run_keeps_invariant(requested, options, root, events, states, declined);
        lemma_nothing_installed_before_review(states[k]);
    } else {
        lemma_run_keeps_invariant(requested, options, root, events, states, k);
        assert(states[declined + 1].stage.rank() <= states[k].stage.rank());
    }
}

/// After the build at place `i` comes the build at place `i + 1`, or no
/// build at all: the packages are built one at a time, in build order.
pub proof fn lemma_builds_follow_each_other(
    a: PipelineView,
    e: EventView,
    b: PipelineView,
    i: usize,
)
    requires
        a.wf(),
        a.stage == Stage::Build(i),
        transition(a, e, b),
        b.stage is Build,
    ensures
        b.stage == Stage::Build(i) || b.stage == Stage::Build((i + 1) as usize),
{
}

/// The stages follow each other in their order: no event takes the run back
/// to an earlier stage. Sorting comes before resolving, resolving before
/// the fetches, those before the review, the review before the installation
/// of the repository packages, that before the builds, and the builds
/// before the removal of the make dependencies.
pub proof fn lemma_stages_advance(a: PipelineView, e: EventView, b: PipelineView)
    requires
        a.wf(),
        transition(a, e, b),
    ensures
        b.stage.rank() >= a.stage.rank(),
{
    if a.stage.rank() == 2 {
        lemma_stays_classified(a);
    }
    match e {
        EventView::RepoExit(code) => {
            if (a.stage == Stage::Sort || a.stage == Stage::Resolve) && code == Some(0i32) {
                lemma_settled_rank(PipelineView { known: a.known.with_repo(a.asking), ..a }, b);
            }
        },
        EventView::AurResults(candidates) => {
            if (a.stage == Stage::SortAur || a.stage == Stage::ResolveAur) && exists|i: int|
                crate::package::is_first_match(candidates, a.asking, i) {
                let i = choose|i: int|
                    crate::package::is_first_match(candidates, a.asking, i) && settled(
                        PipelineView { known: a.known.with_aur(candidates[i]), ..a },
                        b,
                    );
                lemma_settled_rank(PipelineView { known: a.known.with_aur(candidates[i]), ..a }, b);
            }
        },
        EventView::Installed(names) => {
            if a.stage == Stage::Installed {
                lemma_settled_rank(
                    PipelineView { installed: names, installed_known: true, ..a },
                    b,
                );
            }
        },
        _ => {},
    }
}

/// An interrupt ends a run that has not ended yet as cancelled by the user,
/// after the remains of a clone that it cut short are removed.
pub proof fn lemma_interrupt_cancels(a: PipelineView, b: PipelineView)
    requires
        a.stage != Stage::Done,
        a.stage != Stage::Aborted,
        transition(a, EventView::Interrupt, b),
    ensures
        b.action() == ActionView::Finish(Some(ErrorView::UserCancellation)) || (b.stage
            == Stage::Discard && b.cancelled),
        forall|c: PipelineView|
            b.stage == Stage::Discard && transition(b, EventView::Done, c) ==> c.action()
                == ActionView::Finish(Some(ErrorView::UserCancellation)),
{
}

/// A run that has ended stays as it is, whatever is reported to it, and
/// asks for nothing but to finish.
pub proof fn lemma_finished_is_final(a: PipelineView, e: EventView, b: PipelineView)
    requires
        a.stage == Stage::Done || a.stage == Stage::Aborted,
        transition(a, e, b),
    ensures
        b == a,
        a.action() is Finish,
{
}

/// With `noconfirm` the user is never asked anything: no question, no
/// selection, no recipe to read.
pub proof fn lemma_noconfirm_never_prompts(a: PipelineView)
    requires
        a.wf(),
        a.options.noconfirm,
    ensures
        !(a.action() is Confirm),
        !(a.action() is SelectReview),
        !(a.action() is Page),
{
}

/// Up to the end of the review nothing is installed, built or removed.
pub proof fn lemma_nothing_installed_before_review(a: PipelineView)
    requires
        a.stage.rank() <= 4,
    ensures
        !(a.action() is Install),
        !(a.action() is Build),
        !(a.action() is Uninstall),
{
}

/// When the user declines at the end of the review, the run ends as
/// cancelled by the user. Nothing was installed before, and by
/// `lemma_finished_is_final` nothing is afterwards.
pub proof fn lemma_declined_review_ends_run(a: PipelineView, b: PipelineView)
    requires
        a.stage == Stage::Confirm,
        transition(a, EventView::Answer(false), b),
    ensures
        b.stage == Stage::Aborted,
        b.action() == ActionView::Finish(Some(ErrorView::UserCancellation)),
{
}

/// Once the run is planned, each requested package stands in exactly one of
/// the two lists: as written among the repository packages, or by its bare
/// name among the AUR packages.
pub proof fn lemma_requested_sorted_once(a: PipelineView, p: Seq<char>)
    requires
        a.wf(),
        a.planned(),
        a.requested.contains(p),
    ensures
        a.repo_names.contains(p) != a.aur_names.contains(spec_bare_name(p)),
{
    lemma_sorted_exactly_once(a.requested, a.known, p);
}

/// A run fails in sorting with an unknown package only for the bare name of
/// a requested package that neither source has: no requested package of
/// that bare name is among the repository packages, and the name is not
/// among the AUR packages.
pub proof fn lemma_unknown_package_is_unsorted(
    a: PipelineView,
    e: EventView,
    b: PipelineView,
    n: Seq<char>,
)
    requires
        a.wf(),
        a.stage == Stage::SortAur,
        transition(a, e, b),
        b.failure == Some(ErrorView::UnknownPackage(n)),
    ensures
        exists|i: int| 0 <= i < a.requested.len() && spec_bare_name(a.requested[i]) == n,
        b.known.class_of(n) == PackageClass::Unknown,
        !crate::sort::spec_aur_names(b.requested, b.known).contains(n),
        forall|p: Seq<char>|
            spec_bare_name(p) == n ==> !(#[trigger] crate::sort::spec_repo_names(
                b.requested,
                b.known,
            ).contains(p)),
{
    assert(a.failure is None);
    let i = choose|i: int| a.asks_requested(i);
    match e {
        EventView::AurResults(candidates) => {
            if exists|k: int| crate::package::is_first_match(candidates, a.asking, k) {
                let k = choose|k: int|
                    crate::package::is_first_match(candidates, a.asking, k) && settled(
                        PipelineView { known: a.known.with_aur(candidates[k]), ..a },
                        b,
                    );
                assert(false);
            }
            assert(b == a.aborted(crate::package::no_match_error(candidates, a.asking)));
            assert(n == a.asking);
        },
        _ => {
            assert(b == a);
        },
    }
    lemma_unknown_in_neither(b.requested, b.known, a.requested[i]);
    assert forall|p: Seq<char>| spec_bare_name(p) == n implies !(
    #[trigger] crate::sort::spec_repo_names(b.requested, b.known).contains(p)) by {
        lemma_unknown_in_neither(b.requested, b.known, p);
    }
}

/// Once the run is planned, every name that a package to build depends on
/// is accounted for: the package of that name was installed before the run,
/// or it is among the packages that the native manager is told to install,
/// or it is an AUR package that stands earlier in the build order.
pub proof fn lemma_plan_accounts_for_dependencies(a: PipelineView, p: int, name: Seq<char>)
    requires
        a.wf(),
        a.planned(),
        0 <= p < a.resolution.dependencies.len(),
        a.resolution.dependencies[p].metadata.all_depends().contains(name),
    ensures
        ({
            let n = spec_bare_name(name);
            let command = a.install_command();
            ||| a.installed.contains(n)
            ||| installs(command, n)
            ||| exists|q: int| 0 <= q < p && a.resolution.dependencies[q].metadata.name == n
        }),
{
    let n = spec_bare_name(name);
    lemma_dependencies_accounted(a.known, a.installed, a.resolution, p, name);
    if a.resolution.repo_dependencies.contains(n) {
        lemma_install_covers(a.repo_names, a.resolution.repo_dependencies, a.options.asdeps, n);
    }
}

/// Once the run is planned, the build order is a topological order of the
/// dependency graph: the package at place `p` stands behind every AUR
/// package it waits for.
pub proof fn lemma_plan_is_topological(a: PipelineView, p: int, e: int)
    requires
        a.wf(),
        a.planned(),
        0 <= p < a.resolution.order.len(),
        0 <= e < spec_edges(a.known, a.installed, a.resolution.order[p] as int).len(),
    ensures
        exists|q: int|
            0 <= q < p && a.resolution.order[q] == spec_edges(
                a.known,
                a.installed,
                a.resolution.order[p] as int,
            )[e],
{
    lemma_resolution_is_topological(a.known, a.installed, a.resolution, p, e);
}

/// The builds take place in build order, each in the directory of its
/// package in the cache.
pub proof fn lemma_build_runs_in_cache(a: PipelineView, i: usize)
    requires
        a.wf(),
        a.stage == Stage::Build(i),
    ensures
        a.action() is Build,
        a.action()->Build_0.directory == spec_package_path(
            a.root,
            a.resolution.dependencies[i as int].metadata.name,
        ),
{
    assert(a.contexts[i as int].metadata == a.resolution.dependencies[i as int].metadata);
}

} // verus!
