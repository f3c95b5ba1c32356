//! The installation as a state machine.
//!
//! The machine holds what the run has learnt and the stage it is in. Its
//! state says what has to be done next outside the library: a question to
//! the native manager or to the registry, a fetch, a prompt, a command. The
//! program does that and hands the outcome back as an event, on which the
//! machine moves on. An event that does not answer the pending action is
//! passed over.
//!
//! The stages follow each other in a fixed order: sorting the requested
//! packages by source, resolving the dependencies of the AUR packages,
//! fetching the recipes, the review, the installation of the repository
//! packages, the builds, and the removal of the make dependencies.

use crate::cleanup::{make_dependencies, spec_make_dependencies, spec_removal_asked};
use crate::error::{ErrorView, PipelineError};
use crate::fetch::{
    clone, context_views, is_fresh, package_path, recipe_file, spec_is_fresh, spec_package_path,
    spec_plan, spec_recipe_file, BuildContext, BuildContextView, CacheState, FetchPlan,
    FetchPlanView,
};
use crate::graph::{has_cycle, is_cycle, lemma_build_order_excludes_cycle};
use crate::install::{
    build_arguments, install, spec_build_arguments, spec_install, spec_uninstall_arguments,
    uninstall_arguments, BuildCommand, BuildView, InstallCommand, InstallView, UninstallCommand,
    UninstallView,
};
use crate::known::{Known, KnownView};
use crate::names::spec_bare_name;
use crate::package::{
    is_first_match, metadata_views, no_match_error, select_candidate, AurMetadata, MetadataView,
    Options, PackageClass,
};
use crate::prompt::Question;
use crate::resolve::{
    closed, information_views, is_cycle_path, is_first_missing, is_first_open, is_resolution,
    resolve, spec_graph, Resolution, ResolutionView, Resolve,
};
use crate::review::{spec_review_skipped, spec_valid_selection, valid_selection};
use crate::sort::{
    all_classified, inssort, is_first_unclassified, spec_aur_names, spec_repo_names, Sort,
    SortedPackages,
};
use crate::text::{contains, copy_names, strs};
use vstd::prelude::*;

verus! {

/// Where the run stands.
#[derive(Clone, Copy, Debug, PartialEq, Eq, Structural)]
pub enum Stage {
    /// Sorting: the native manager is asked for a requested name.
    Sort,
    /// Sorting: the registry is asked for a name the repositories lack.
    SortAur,
    /// Resolving: the native manager is asked for the installed packages.
    Installed,
    /// Resolving: the native manager is asked for the name of a dependency.
    Resolve,
    /// Resolving: the registry is asked for the name of a dependency.
    ResolveAur,
    /// Fetching: the cache is looked at for the next package.
    Probe,
    /// Fetching: the recipe of the next package is fetched.
    Fetch(CacheState),
    /// Fetching: what a failed clone left behind is removed.
    Discard,
    /// Review: the user selects the recipes to read.
    Select,
    /// Review: the selected recipe of that number is shown.
    Page(usize),
    /// Review: the user confirms the installation.
    Confirm,
    /// The repository packages are installed.
    Install,
    /// The package at that place of the build order is built.
    Build(usize),
    /// The user is asked whether the make dependencies shall go.
    AskCleanup,
    /// The make dependencies are removed.
    Cleanup,
    /// The failed removal is reported.
    Warn,
    /// The run has succeeded.
    Done,
    /// The run has failed.
    Aborted,
}

/// What the program reports back to the machine.
#[derive(Debug)]
pub enum Event {
    /// The exit code of the native manager's search for an exact name, if
    /// it exited.
    RepoExit(Option<i32>),
    /// The packages that the registry offers for a name.
    AurResults(Vec<AurMetadata>),
    /// The registry gave no answer.
    AurFailed,
    /// The names of the installed packages.
    Installed(Vec<String>),
    /// What stands at the place of a package's directory in the cache.
    Cache(CacheState),
    /// The end of a fetch: nothing if it succeeded, else the cause.
    Fetched(Option<String>),
    /// The numbers that the user selected.
    Selected(Vec<usize>),
    /// The answer to a question.
    Answer(bool),
    /// The exit code of a command, if it exited.
    Exit(Option<i32>),
    /// An action without an outcome of its own is done.
    Done,
    /// The user has interrupted the run; the pending action was dropped or
    /// cut short.
    Interrupt,
}

/// An `Event` with its texts as sequences of characters.
pub enum EventView {
    RepoExit(Option<i32>),
    AurResults(Seq<MetadataView>),
    AurFailed,
    Installed(Seq<Seq<char>>),
    Cache(CacheState),
    Fetched(Option<Seq<char>>),
    Selected(Seq<usize>),
    Answer(bool),
    Exit(Option<i32>),
    Done,
    Interrupt,
}

impl View for Event {
    type V = EventView;

    open spec fn view(&self) -> EventView {
        match self {
            Event::RepoExit(code) => EventView::RepoExit(*code),
            Event::AurResults(list) => EventView::AurResults(metadata_views(list@)),
            Event::AurFailed => EventView::AurFailed,
            Event::Installed(names) => EventView::Installed(strs(names@)),
            Event::Cache(found) => EventView::Cache(*found),
            Event::Fetched(None) => EventView::Fetched(None),
            Event::Fetched(Some(cause)) => EventView::Fetched(Some(cause@)),
            Event::Selected(numbers) => EventView::Selected(numbers@),
            Event::Answer(yes) => EventView::Answer(*yes),
            Event::Exit(code) => EventView::Exit(*code),
            Event::Done => EventView::Done,
            Event::Interrupt => EventView::Interrupt,
        }
    }
}

/// What the program has to do next.
#[derive(Debug)]
pub enum Action {
    /// Ask the native manager whether the repositories have exactly this
    /// name. Answered by `Event::RepoExit`.
    QueryRepo(String),
    /// Ask the registry for this name. Answered by `Event::AurResults`, or
    /// by `Event::AurFailed`.
    QueryAur(String),
    /// Ask the native manager for the installed packages. Answered by
    /// `Event::Installed`.
    QueryInstalled,
    /// Look at what stands at this path. Answered by `Event::Cache`.
    ProbeCache(String),
    /// Fetch a recipe. Answered by `Event::Fetched`.
    Fetch(FetchPlan),
    /// Remove what stands at this path. Answered by `Event::Done`.
    Discard(String),
    /// Let the user select among these packages. Answered by
    /// `Event::Selected`.
    SelectReview(Vec<String>),
    /// Show this file in the pager. Answered by `Event::Done`.
    Page(String),
    /// Put a question to the user. Answered by `Event::Answer`.
    Confirm(Question),
    /// Install repository packages. Answered by `Event::Exit`.
    Install(InstallCommand),
    /// Build and install an AUR package. Answered by `Event::Exit`.
    Build(BuildCommand),
    /// Remove packages. Answered by `Event::Exit`.
    Uninstall(UninstallCommand),
    /// Report a warning. Answered by `Event::Done`.
    Warn(PipelineError),
    /// End the run: with success, or with this error.
    Finish(Option<PipelineError>),
}

/// An `Action` with its texts as sequences of characters.
pub enum ActionView {
    QueryRepo(Seq<char>),
    QueryAur(Seq<char>),
    QueryInstalled,
    ProbeCache(Seq<char>),
    Fetch(FetchPlanView),
    Discard(Seq<char>),
    SelectReview(Seq<Seq<char>>),
    Page(Seq<char>),
    Confirm(Question),
    Install(InstallView),
    Build(BuildView),
    Uninstall(UninstallView),
    Warn(ErrorView),
    Finish(Option<ErrorView>),
}

impl View for Action {
    type V = ActionView;

    open spec fn view(&self) -> ActionView {
        match self {
            Action::QueryRepo(name) => ActionView::QueryRepo(name@),
            Action::QueryAur(name) => ActionView::QueryAur(name@),
            Action::QueryInstalled => ActionView::QueryInstalled,
            Action::ProbeCache(path) => ActionView::ProbeCache(path@),
            Action::Fetch(plan) => ActionView::Fetch(plan@),
            Action::Discard(path) => ActionView::Discard(path@),
            Action::SelectReview(names) => ActionView::SelectReview(strs(names@)),
            Action::Page(file) => ActionView::Page(file@),
            Action::Confirm(question) => ActionView::Confirm(*question),
            Action::Install(command) => ActionView::Install(command@),
            Action::Build(command) => ActionView::Build(command@),
            Action::Uninstall(command) => ActionView::Uninstall(command@),
            Action::Warn(error) => ActionView::Warn(error@),
            Action::Finish(None) => ActionView::Finish(None),
            Action::Finish(Some(error)) => ActionView::Finish(Some(error@)),
        }
    }
}

impl ActionView {
    /// Whether the action takes over the terminal, so that progress output
    /// has to pause while it runs: the pager and the build tool do.
    pub open spec fn suspends_output(self) -> bool {
        self is Page || self is Build
    }

    /// Whether the action needs the rights of the administrator: only what
    /// the native manager installs or removes does. The builds and all the
    /// rest run as the user, so that the cache stays the user's.
    pub open spec fn elevated(self) -> bool {
        self is Install || self is Uninstall
    }
}

impl Action {
    /// Whether the action takes over the terminal, so that progress output
    /// has to pause while it runs.
    pub fn suspends_output(&self) -> (suspends: bool)
        ensures
            suspends == self@.suspends_output(),
    {
        match self {
            Action::Page(_) => true,
            Action::Build(_) => true,
            _ => false,
        }
    }

    /// Whether the action needs the rights of the administrator.
    pub fn elevated(&self) -> (elevated: bool)
        ensures
            elevated == self@.elevated(),
    {
        match self {
            Action::Install(_) => true,
            Action::Uninstall(_) => true,
            _ => false,
        }
    }
}

/// The state of an installation.
pub struct Pipeline {
    requested: Vec<String>,
    options: Options,
    root: String,
    known: Known,
    installed: Vec<String>,
    installed_known: bool,
    asking: String,
    sorted: SortedPackages,
    resolution: Resolution,
    contexts: Vec<BuildContext>,
    selection: Vec<usize>,
    cause: String,
    cancelled: bool,
    failure: Option<PipelineError>,
    stage: Stage,
}

/// The state of an installation, with its texts as sequences of characters.
pub struct PipelineView {
    /// The packages that the user asked for, as written.
    pub requested: Seq<Seq<char>>,
    pub options: Options,
    /// The cache root.
    pub root: Seq<char>,
    /// The packages whose source is known.
    pub known: KnownView,
    /// The installed packages, once they are known.
    pub installed: Seq<Seq<char>>,
    pub installed_known: bool,
    /// The name that the pending question is about.
    pub asking: Seq<char>,
    /// The requested repository packages, once everything is resolved.
    pub repo_names: Seq<Seq<char>>,
    /// The requested AUR packages, once everything is resolved.
    pub aur_names: Seq<Seq<char>>,
    /// The build order and what goes with it, once everything is resolved.
    pub resolution: ResolutionView,
    /// The packages whose recipes are fetched, in build order.
    pub contexts: Seq<BuildContextView>,
    /// The recipes selected for review.
    pub selection: Seq<usize>,
    /// The cause of the fetch that failed.
    pub cause: Seq<char>,
    /// Whether the user interrupted the fetch whose remains are removed.
    pub cancelled: bool,
    /// Why the run failed, if it did.
    pub failure: Option<ErrorView>,
    pub stage: Stage,
}

impl View for Pipeline {
    type V = PipelineView;

    closed spec fn view(&self) -> PipelineView {
        PipelineView {
            requested: strs(self.requested@),
            options: self.options,
            root: self.root@,
            known: self.known@,
            installed: strs(self.installed@),
            installed_known: self.installed_known,
            asking: self.asking@,
            repo_names: strs(self.sorted.repo@),
            aur_names: strs(self.sorted.aur@),
            resolution: self.resolution@,
            contexts: context_views(self.contexts@),
            selection: self.selection@,
            cause: self.cause@,
            cancelled: self.cancelled,
            failure: match self.failure {
                Some(error) => Some(error@),
                None => None,
            },
            stage: self.stage,
        }
    }
}

impl Stage {
    /// The place of the stage in the order of the run.
    pub open spec fn rank(self) -> int {
        match self {
            Stage::Sort | Stage::SortAur => 1,
            Stage::Installed | Stage::Resolve | Stage::ResolveAur => 2,
            Stage::Probe | Stage::Fetch(_) | Stage::Discard => 3,
            Stage::Select | Stage::Page(_) | Stage::Confirm => 4,
            Stage::Install => 5,
            Stage::Build(_) => 6,
            Stage::AskCleanup | Stage::Cleanup | Stage::Warn => 7,
            Stage::Done => 8,
            Stage::Aborted => 9,
        }
    }
}

impl PipelineView {
    /// The state at the start of a run.
    pub open spec fn initial(requested: Seq<Seq<char>>, options: Options, root: Seq<char>) -> PipelineView {
        PipelineView {
            requested,
            options,
            root,
            known: KnownView::empty(),
            installed: Seq::empty(),
            installed_known: false,
            asking: Seq::empty(),
            repo_names: Seq::empty(),
            aur_names: Seq::empty(),
            resolution: ResolutionView {
                order: Seq::empty(),
                dependencies: Seq::empty(),
                repo_dependencies: Seq::empty(),
            },
            contexts: Seq::empty(),
            selection: Seq::empty(),
            cause: Seq::empty(),
            cancelled: false,
            failure: None,
            stage: Stage::Sort,
        }
    }

    /// Why the run fails once the remains of a clone are removed: the user
    /// interrupted it, or it failed by itself.
    pub open spec fn fetch_error(self) -> ErrorView {
        if self.cancelled {
            ErrorView::UserCancellation
        } else {
            ErrorView::FetchFailed(self.fetching(), self.cause)
        }
    }

    /// The same state in another stage.
    pub open spec fn with_stage(self, stage: Stage) -> PipelineView {
        PipelineView { stage, ..self }
    }

    /// The state after the run has failed with `error`.
    pub open spec fn aborted(self, error: ErrorView) -> PipelineView {
        PipelineView { stage: Stage::Aborted, failure: Some(error), ..self }
    }

    /// Whether everything is resolved and the run is under way.
    pub open spec fn planned(self) -> bool {
        3 <= self.stage.rank() <= 8
    }

    /// The name of the package whose recipe is fetched next.
    pub open spec fn fetching(self) -> Seq<char> {
        self.resolution.dependencies[self.contexts.len() as int].metadata.name
    }

    /// The build context of the package whose recipe is fetched next.
    pub open spec fn next_context(self, found: CacheState) -> BuildContextView {
        BuildContextView {
            metadata: self.resolution.dependencies[self.contexts.len() as int].metadata,
            path: spec_package_path(self.root, self.fetching()),
            fresh: spec_is_fresh(found),
            ordinal: self.contexts.len() as usize,
        }
    }

    /// The names of the packages whose recipes are fetched.
    pub open spec fn context_names(self) -> Seq<Seq<char>> {
        self.contexts.map_values(|c: BuildContextView| c.metadata.name)
    }

    /// Whether the package at place `i` of the build order is installed as
    /// a dependency: when everything is, or when the user did not ask for
    /// it.
    pub open spec fn as_dependency(self, i: int) -> bool {
        self.options.asdeps || !self.aur_names.contains(self.contexts[i].metadata.name)
    }

    /// The installation of the repository packages.
    pub open spec fn install_command(self) -> InstallView {
        spec_install(self.repo_names, self.resolution.repo_dependencies, self.options.asdeps)
    }

    /// The stage after a fetch: the next fetch, or what follows the
    /// fetches.
    pub open spec fn next_fetch(self) -> Stage {
        if self.contexts.len() < self.resolution.dependencies.len() {
            Stage::Probe
        } else {
            self.enter_review()
        }
    }

    /// The stage after the fetches: the review, unless it is left out or
    /// there is nothing to review.
    pub open spec fn enter_review(self) -> Stage {
        if spec_review_skipped(self.options) || self.contexts.len() == 0 {
            self.enter_install()
        } else {
            Stage::Select
        }
    }

    /// The stage after the selected recipe of number `j - 1`: the next
    /// recipe, or the confirmation.
    pub open spec fn next_page(self, j: int) -> Stage {
        if j < self.selection.len() {
            Stage::Page(j as usize)
        } else {
            Stage::Confirm
        }
    }

    /// The stage after the review: the installation of the repository
    /// packages, unless there are none.
    pub open spec fn enter_install(self) -> Stage {
        let command = self.install_command();
        if command.explicit.len() == 0 && command.asdeps.len() == 0 {
            self.next_build(0)
        } else {
            Stage::Install
        }
    }

    /// The stage after the build at place `i - 1`: the next build, or what
    /// follows the builds.
    pub open spec fn next_build(self, i: int) -> Stage {
        if i < self.contexts.len() {
            Stage::Build(i as usize)
        } else {
            self.enter_cleanup()
        }
    }

    /// The stage after the builds: the question about the make
    /// dependencies, where it is asked.
    pub open spec fn enter_cleanup(self) -> Stage {
        if spec_removal_asked(self.options, self.resolution.dependencies, self.requested) {
            Stage::AskCleanup
        } else {
            Stage::Done
        }
    }

    /// The pending question is about the requested name at position `i`,
    /// the first whose source is not known.
    pub open spec fn asks_requested(self, i: int) -> bool {
        &&& is_first_unclassified(self.requested, self.known, i)
        &&& self.asking == spec_bare_name(self.requested[i])
    }

    /// The pending question is about the dependency at position `j` of the
    /// package at position `h`, the first that is neither installed nor of
    /// a known source.
    pub open spec fn asks_dependency(self, h: int, j: int) -> bool {
        &&& is_first_open(self.known, self.installed, h, j)
        &&& self.asking == spec_bare_name(self.known.aur[h].all_depends()[j])
    }

    /// Every context belongs to the package at its place of the build
    /// order and names its directory in the cache.
    pub open spec fn contexts_match(self) -> bool {
        forall|i: int|
            0 <= i < self.contexts.len() ==> {
                &&& (#[trigger] self.contexts[i]).metadata
                    == self.resolution.dependencies[i].metadata
                &&& self.contexts[i].path == spec_package_path(
                    self.root,
                    self.contexts[i].metadata.name,
                )
                &&& self.contexts[i].ordinal == i
            }
    }

    /// Every selected number names a fetched package.
    pub open spec fn selection_valid(self) -> bool {
        forall|k: int|
            0 <= k < self.selection.len() ==> (#[trigger] self.selection[k]) < self.contexts.len()
    }

    /// What holds once everything is resolved.
    pub open spec fn plan_wf(self) -> bool {
        &&& all_classified(self.requested, self.known)
        &&& self.repo_names == spec_repo_names(self.requested, self.known)
        &&& self.aur_names == spec_aur_names(self.requested, self.known)
        &&& is_resolution(self.known, self.installed, self.resolution)
        &&& self.contexts.len() <= self.resolution.dependencies.len()
        &&& self.contexts_match()
        &&& (self.stage.rank() == 3 ==> self.contexts.len() < self.resolution.dependencies.len())
        &&& (self.stage.rank() >= 4 ==> self.contexts.len() == self.resolution.dependencies.len())
        &&& (self.stage is Page ==> self.stage->Page_0 < self.selection.len()
            && self.selection_valid())
        &&& (self.stage is Build ==> self.stage->Build_0 < self.contexts.len())
    }

    /// The invariant of the machine.
    pub open spec fn wf(self) -> bool {
        &&& self.stage is Aborted <==> self.failure is Some
        &&& self.stage.rank() == 1 ==> exists|i: int| self.asks_requested(i)
        &&& self.stage.rank() == 2 ==> all_classified(self.requested, self.known)
        &&& (self.stage == Stage::Resolve || self.stage == Stage::ResolveAur) ==> exists|
            h: int,
            j: int,
        | self.asks_dependency(h, j)
        &&& self.planned() ==> self.plan_wf()
        &&& self.options.noconfirm ==> self.stage.rank() != 4 && self.stage != Stage::AskCleanup
        &&& self.options.skip_review ==> self.stage.rank() != 4
    }

    /// What the program has to do next.
    pub open spec fn action(self) -> ActionView {
        match self.stage {
            Stage::Sort | Stage::Resolve => ActionView::QueryRepo(self.asking),
            Stage::SortAur | Stage::ResolveAur => ActionView::QueryAur(self.asking),
            Stage::Installed => ActionView::QueryInstalled,
            Stage::Probe => ActionView::ProbeCache(spec_package_path(self.root, self.fetching())),
            Stage::Fetch(found) => ActionView::Fetch(spec_plan(self.root, self.fetching(), found)),
            Stage::Discard => ActionView::Discard(spec_package_path(self.root, self.fetching())),
            Stage::Select => ActionView::SelectReview(self.context_names()),
            Stage::Page(j) => ActionView::Page(
                spec_recipe_file(self.contexts[self.selection[j as int] as int].path),
            ),
            Stage::Confirm => ActionView::Confirm(Question::InstallReviewed),
            Stage::Install => ActionView::Install(self.install_command()),
            Stage::Build(i) => ActionView::Build(
                BuildView {
                    directory: self.contexts[i as int].path,
                    arguments: spec_build_arguments(
                        self.options.noconfirm,
                        self.as_dependency(i as int),
                    ),
                },
            ),
            Stage::AskCleanup => ActionView::Confirm(Question::RemoveMakeDependencies),
            Stage::Cleanup => ActionView::Uninstall(
                UninstallView {
                    packages: spec_make_dependencies(self.resolution.dependencies, self.requested),
                    arguments: spec_uninstall_arguments(),
                },
            ),
            Stage::Warn => ActionView::Warn(ErrorView::CleanupFailed),
            Stage::Done => ActionView::Finish(None),
            Stage::Aborted => ActionView::Finish(self.failure),
        }
    }
}

/// `b` is what `a` comes to once the sources it knows are put to use: the
/// next name to ask for, the question for the installed packages, the
/// failure on a dependency cycle, or the plan of the run.
pub open spec fn settled(a: PipelineView, b: PipelineView) -> bool {
    if !all_classified(a.requested, a.known) {
        exists|i: int|
            #![trigger is_first_unclassified(a.requested, a.known, i)]
            is_first_unclassified(a.requested, a.known, i) && b == (PipelineView {
                stage: Stage::Sort,
                asking: spec_bare_name(a.requested[i]),
                ..a
            })
    } else if a.known.aur.len() > 0 && !a.installed_known {
        b == a.with_stage(Stage::Installed)
    } else if !closed(a.known, a.installed) {
        exists|h: int, j: int|
            #![trigger is_first_open(a.known, a.installed, h, j)]
            is_first_open(a.known, a.installed, h, j) && b == (PipelineView {
                stage: Stage::Resolve,
                asking: spec_bare_name(a.known.aur[h].all_depends()[j]),
                ..a
            })
    } else if has_cycle(spec_graph(a.known, a.installed)) {
        exists|path: Seq<Seq<char>>|
            is_cycle_path(a.known, a.installed, path) && b == a.aborted(
                ErrorView::CyclicDependency(path),
            )
    } else {
        let plan = PipelineView {
            repo_names: spec_repo_names(a.requested, a.known),
            aur_names: spec_aur_names(a.requested, a.known),
            resolution: b.resolution,
            contexts: Seq::empty(),
            ..a
        };
        is_resolution(a.known, a.installed, b.resolution) && b == plan.with_stage(plan.next_fetch())
    }
}

/// The move of the machine from `a` to `b` on the event `e`.
pub open spec fn transition(a: PipelineView, e: EventView, b: PipelineView) -> bool {
    match e {
        EventView::RepoExit(code) => {
            if a.stage == Stage::Sort || a.stage == Stage::Resolve {
                if code == Some(0i32) {
                    settled(PipelineView { known: a.known.with_repo(a.asking), ..a }, b)
                } else if code == Some(1i32) {
                    b == a.with_stage(
                        if a.stage == Stage::Sort {
                            Stage::SortAur
                        } else {
                            Stage::ResolveAur
                        },
                    )
                } else {
                    b == a.aborted(ErrorView::QueryFailed(a.asking))
                }
            } else {
                b == a
            }
        },
        EventView::AurResults(candidates) => {
            if a.stage == Stage::SortAur || a.stage == Stage::ResolveAur {
                if exists|i: int| is_first_match(candidates, a.asking, i) {
                    exists|i: int|
                        is_first_match(candidates, a.asking, i) && settled(
                            PipelineView { known: a.known.with_aur(candidates[i]), ..a },
                            b,
                        )
                } else {
                    b == a.aborted(no_match_error(candidates, a.asking))
                }
            } else {
                b == a
            }
        },
        EventView::AurFailed => {
            if a.stage == Stage::SortAur || a.stage == Stage::ResolveAur {
                b == a.aborted(ErrorView::QueryFailed(a.asking))
            } else {
                b == a
            }
        },
        EventView::Installed(names) => {
            if a.stage == Stage::Installed {
                settled(PipelineView { installed: names, installed_known: true, ..a }, b)
            } else {
                b == a
            }
        },
        EventView::Cache(found) => {
            if a.stage == Stage::Probe {
                b == a.with_stage(Stage::Fetch(found))
            } else {
                b == a
            }
        },
        EventView::Fetched(failure) => {
            match a.stage {
                Stage::Fetch(found) => match failure {
                    None => {
                        let next = PipelineView {
                            contexts: a.contexts.push(a.next_context(found)),
                            ..a
                        };
                        b == next.with_stage(next.next_fetch())
                    },
                    Some(cause) => {
                        if found == CacheState::Checkout {
                            b == a.aborted(ErrorView::FetchFailed(a.fetching(), cause))
                        } else {
                            b == (PipelineView { cause, stage: Stage::Discard, ..a })
                        }
                    },
                },
                _ => b == a,
            }
        },
        EventView::Selected(numbers) => {
            if a.stage == Stage::Select {
                let next = PipelineView {
                    selection: spec_valid_selection(numbers, a.contexts.len()),
                    ..a
                };
                b == next.with_stage(next.next_page(0))
            } else {
                b == a
            }
        },
        EventView::Answer(yes) => {
            if a.stage == Stage::Confirm {
                if yes {
                    b == a.with_stage(a.enter_install())
                } else {
                    b == a.aborted(ErrorView::UserCancellation)
                }
            } else if a.stage == Stage::AskCleanup {
                b == a.with_stage(
                    if yes {
                        Stage::Cleanup
                    } else {
                        Stage::Done
                    },
                )
            } else {
                b == a
            }
        },
        EventView::Exit(code) => {
            match a.stage {
                Stage::Install => {
                    if code == Some(0i32) {
                        b == a.with_stage(a.next_build(0))
                    } else {
                        b == a.aborted(ErrorView::RepoInstallFailed)
                    }
                },
                Stage::Build(i) => {
                    if code == Some(0i32) {
                        b == a.with_stage(a.next_build(i + 1))
                    } else {
                        b == a.aborted(
                            ErrorView::BuildFailed(a.contexts[i as int].metadata.name, code),
                        )
                    }
                },
                Stage::Cleanup => {
                    b == a.with_stage(
                        if code == Some(0i32) {
                            Stage::Done
                        } else {
                            Stage::Warn
                        },
                    )
                },
                _ => b == a,
            }
        },
        EventView::Interrupt => {
            match a.stage {
                Stage::Done | Stage::Aborted => b == a,
                Stage::Fetch(CacheState::Missing) | Stage::Fetch(CacheState::Invalid) | Stage::Discard => {
                    b == (PipelineView { cancelled: true, stage: Stage::Discard, ..a })
                },
                _ => b == a.aborted(ErrorView::UserCancellation),
            }
        },
        EventView::Done => {
            match a.stage {
                Stage::Discard => b == a.aborted(a.fetch_error()),
                Stage::Page(j) => b == a.with_stage(a.next_page(j + 1)),
                Stage::Warn => b == a.with_stage(Stage::Done),
                _ => b == a,
            }
        },
    }
}

/// Whether a command exited with `value`.
fn exited_with(code: Option<i32>, value: i32) -> (same: bool)
    ensures
        same == (code == Some(value)),
{
    match code {
        Some(c) => c == value,
        None => false,
    }
}

impl Pipeline {
    /// Starts a run for the packages that the user asked for, with the
    /// recipes kept under the cache root `root`.
    pub fn new(requested: Vec<String>, options: Options, root: String) -> (pipeline: Pipeline)
        ensures
            settled(PipelineView::initial(strs(requested@), options, root@), pipeline@),
            pipeline@.wf(),
    {
        let mut pipeline = Pipeline {
            requested,
            options,
            root,
            known: Known::new(),
            installed: Vec::new(),
            installed_known: false,
            asking: String::new(),
            sorted: SortedPackages { repo: Vec::new(), aur: Vec::new() },
            resolution: Resolution {
                order: Vec::new(),
                dependencies: Vec::new(),
                repo_dependencies: Vec::new(),
            },
            contexts: Vec::new(),
            selection: Vec::new(),
            cause: String::new(),
            cancelled: false,
            failure: None,
            stage: Stage::Sort,
        };
        proof {
            let v = pipeline@;
            let w = PipelineView::initial(strs(requested@), options, root@);
            assert(v.installed =~= w.installed);
            assert(v.repo_names =~= w.repo_names);
            assert(v.aur_names =~= w.aur_names);
            assert(v.resolution.order =~= w.resolution.order);
            assert(v.resolution.dependencies =~= w.resolution.dependencies);
            assert(v.resolution.repo_dependencies =~= w.resolution.repo_dependencies);
            assert(v.contexts =~= w.contexts);
            assert(v.selection =~= w.selection);
            assert(v == w);
        }
        pipeline.settle();
        pipeline
    }

    /// Where the run stands.
    pub fn stage(&self) -> (stage: Stage)
        ensures
            stage == self@.stage,
    {
        self.stage
    }

    /// Whether the run has come to its end, with success or without.
    pub fn is_finished(&self) -> (finished: bool)
        ensures
            finished == (self@.stage == Stage::Done || self@.stage == Stage::Aborted),
    {
        match self.stage {
            Stage::Done => true,
            Stage::Aborted => true,
            _ => false,
        }
    }

    fn abort(&mut self, error: PipelineError)
        ensures
            final(self)@ == old(self)@.aborted(error@),
    {
        self.failure = Some(error);
        self.stage = Stage::Aborted;
    }

    fn enter_cleanup(&self) -> (stage: Stage)
        ensures
            stage == self@.enter_cleanup(),
    {
        if self.options.noconfirm {
            return Stage::Done;
        }
        let names = make_dependencies(&self.resolution.dependencies, &self.requested);
        if names.len() > 0 {
            Stage::AskCleanup
        } else {
            Stage::Done
        }
    }

    fn next_build(&self, i: usize) -> (stage: Stage)
        ensures
            stage == self@.next_build(i as int),
    {
        if i < self.contexts.len() {
            Stage::Build(i)
        } else {
            self.enter_cleanup()
        }
    }

    fn enter_install(&self) -> (stage: Stage)
        ensures
            stage == self@.enter_install(),
    {
        match install(&self.sorted.repo, &self.resolution.repo_dependencies, self.options) {
            None => self.next_build(0),
            Some(_) => Stage::Install,
        }
    }

    fn enter_review(&self) -> (stage: Stage)
        ensures
            stage == self@.enter_review(),
    {
        if self.options.noconfirm || self.options.skip_review || self.contexts.len() == 0 {
            self.enter_install()
        } else {
            Stage::Select
        }
    }

    fn next_fetch(&self) -> (stage: Stage)
        ensures
            stage == self@.next_fetch(),
    {
        if self.contexts.len() < self.resolution.dependencies.len() {
            Stage::Probe
        } else {
            self.enter_review()
        }
    }

    fn next_page(&self, j: usize) -> (stage: Stage)
        ensures
            stage == self@.next_page(j as int),
    {
        if j < self.selection.len() {
            Stage::Page(j)
        } else {
            Stage::Confirm
        }
    }

    /// Puts the known sources to use: finds the next name to ask for, or
    /// plans the run.
    fn settle(&mut self)
        requires
            old(self)@.failure is None,
        ensures
            settled(old(self)@, final(self)@),
            final(self)@.wf(),
    {
        let ghost a = self@;
        match inssort(&self.requested, &self.known) {
            Sort::Ask(name) => {
                proof {
                    let i = choose|i: int|
                        is_first_unclassified(a.requested, a.known, i) && name@ == spec_bare_name(
                            a.requested[i],
                        );
                    assert(a.known.class_of(spec_bare_name(a.requested[i])) == PackageClass::Unknown);
                    assert(!all_classified(a.requested, a.known));
                }
                self.asking = name;
                self.stage = Stage::Sort;
                proof {
                    let i = choose|i: int|
                        is_first_unclassified(a.requested, a.known, i) && self.asking@
                            == spec_bare_name(a.requested[i]);
                    assert(self@.asks_requested(i));
                }
            },
            Sort::Done(sorted) => {
                if self.known.aur_len() > 0 && !self.installed_known {
                    self.stage = Stage::Installed;
                } else {
                    match resolve(&self.known, &self.installed) {
                        Resolve::Ask(name) => {
                            proof {
                                let (h, j) = choose|h: int, j: int|
                                    is_first_open(a.known, a.installed, h, j) && name@
                                        == spec_bare_name(a.known.aur[h].all_depends()[j]);
                                let all = a.known.aur[h].all_depends();
                                assert(is_first_missing(all, a.installed, a.known, j));
                                assert(!crate::resolve::satisfied(
                                    a.installed,
                                    a.known,
                                    spec_bare_name(all[j]),
                                ));
                                assert(!crate::resolve::all_satisfied(all, a.installed, a.known));
                                assert(!closed(a.known, a.installed));
                            }
                            self.asking = name;
                            self.stage = Stage::Resolve;
                            proof {
                                let (h, j) = choose|h: int, j: int|
                                    is_first_open(a.known, a.installed, h, j) && self.asking@
                                        == spec_bare_name(a.known.aur[h].all_depends()[j]);
                                assert(self@.asks_dependency(h, j));
                            }
                        },
                        Resolve::Cyclic(path) => {
                            proof {
                                let c = choose|c: Seq<usize>|
                                    crate::resolve::names_cycle(
                                        a.known,
                                        a.installed,
                                        strs(path@),
                                        c,
                                    );
                                assert(is_cycle(spec_graph(a.known, a.installed), c));
                            }
                            self.abort(PipelineError::CyclicDependency(path));
                        },
                        Resolve::Done(resolution) => {
                            proof {
                                assert forall|c: Seq<usize>| !is_cycle(
                                    spec_graph(a.known, a.installed),
                                    c,
                                ) by {
                                    lemma_build_order_excludes_cycle(
                                        spec_graph(a.known, a.installed),
                                        resolution@.order,
                                        c,
                                    );
                                }
                            }
                            self.sorted = sorted;
                            self.resolution = resolution;
                            self.contexts = Vec::new();
                            assert(context_views(self.contexts@) =~= Seq::empty());
                            self.stage = self.next_fetch();
                        },
                    }
                }
            },
        }
    }

    fn on_repo_exit(&mut self, code: Option<i32>)
        requires
            old(self)@.wf(),
        ensures
            transition(old(self)@, EventView::RepoExit(code), final(self)@),
            final(self)@.wf(),
    {
        match self.stage {
            Stage::Sort | Stage::Resolve => {
                if exited_with(code, 0) {
                    self.known.record_repo(self.asking.clone());
                    self.settle();
                } else if exited_with(code, 1) {
                    let ghost a = self@;
                    self.stage = match self.stage {
                        Stage::Sort => Stage::SortAur,
                        _ => Stage::ResolveAur,
                    };
                    proof {
                        if a.stage == Stage::Sort {
                            let i = choose|i: int| a.asks_requested(i);
                            assert(self@.asks_requested(i));
                        } else {
                            let (h, j) = choose|h: int, j: int| a.asks_dependency(h, j);
                            assert(self@.asks_dependency(h, j));
                        }
                    }
                } else {
                    let name = self.asking.clone();
                    self.abort(PipelineError::QueryFailed(name));
                }
            },
            _ => {},
        }
    }

    fn on_aur_results(&mut self, candidates: Vec<AurMetadata>)
        requires
            old(self)@.wf(),
        ensures
            transition(old(self)@, EventView::AurResults(metadata_views(candidates@)), final(self)@),
            final(self)@.wf(),
    {
        match self.stage {
            Stage::SortAur | Stage::ResolveAur => {
                match select_candidate(&self.asking, &candidates) {
                    Ok(metadata) => {
                        self.known.record_aur(metadata);
                        self.settle();
                    },
                    Err(error) => {
                        self.abort(error);
                    },
                }
            },
            _ => {},
        }
    }

    fn on_aur_failed(&mut self)
        requires
            old(self)@.wf(),
        ensures
            transition(old(self)@, EventView::AurFailed, final(self)@),
            final(self)@.wf(),
    {
        match self.stage {
            Stage::SortAur | Stage::ResolveAur => {
                let name = self.asking.clone();
                self.abort(PipelineError::QueryFailed(name));
            },
            _ => {},
        }
    }

    fn on_installed(&mut self, names: Vec<String>)
        requires
            old(self)@.wf(),
        ensures
            transition(old(self)@, EventView::Installed(strs(names@)), final(self)@),
            final(self)@.wf(),
    {
        match self.stage {
            Stage::Installed => {
                self.installed = names;
                self.installed_known = true;
                self.settle();
            },
            _ => {},
        }
    }

    fn on_cache(&mut self, found: CacheState)
        requires
            old(self)@.wf(),
        ensures
            transition(old(self)@, EventView::Cache(found), final(self)@),
            final(self)@.wf(),
    {
        match self.stage {
            Stage::Probe => {
                self.stage = Stage::Fetch(found);
            },
            _ => {},
        }
    }

    fn on_fetched(&mut self, failure: Option<String>)
        requires
            old(self)@.wf(),
        ensures
            transition(
                old(self)@,
                EventView::Fetched(
                    match failure {
                        Some(cause) => Some(cause@),
                        None => None,
                    },
                ),
                final(self)@,
            ),
            final(self)@.wf(),
    {
        match self.stage {
            Stage::Fetch(found) => {
                let at = self.contexts.len();
                assert(self@.resolution.dependencies[at as int]
                    == self.resolution.dependencies@[at as int]@);
                let metadata = self.resolution.dependencies[at].metadata.duplicate();
                match failure {
                    None => {
                        let ghost a = self@;
                        let context = BuildContext {
                            path: package_path(&self.root, &metadata.name),
                            metadata,
                            fresh: is_fresh(found),
                            ordinal: at,
                        };
                        assert(context@ == a.next_context(found));
                        assert(context_views(self.contexts@.push(context)) =~= context_views(
                            self.contexts@,
                        ).push(context@));
                        self.contexts.push(context);
                        self.stage = self.next_fetch();
                    },
                    Some(cause) => {
                        match found {
                            CacheState::Checkout => {
                                self.abort(PipelineError::FetchFailed(metadata.name, cause));
                            },
                            _ => {
                                self.cause = cause;
                                self.stage = Stage::Discard;
                            },
                        }
                    },
                }
            },
            _ => {},
        }
    }

    fn on_selected(&mut self, numbers: Vec<usize>)
        requires
            old(self)@.wf(),
        ensures
            transition(old(self)@, EventView::Selected(numbers@), final(self)@),
            final(self)@.wf(),
    {
        match self.stage {
            Stage::Select => {
                self.selection = valid_selection(&numbers, self.contexts.len());
                self.stage = self.next_page(0);
            },
            _ => {},
        }
    }

    fn on_answer(&mut self, yes: bool)
        requires
            old(self)@.wf(),
        ensures
            transition(old(self)@, EventView::Answer(yes), final(self)@),
            final(self)@.wf(),
    {
        match self.stage {
            Stage::Confirm => {
                if yes {
                    self.stage = self.enter_install();
                } else {
                    self.abort(PipelineError::UserCancellation);
                }
            },
            Stage::AskCleanup => {
                self.stage = if yes {
                    Stage::Cleanup
                } else {
                    Stage::Done
                };
            },
            _ => {},
        }
    }

    fn on_exit(&mut self, code: Option<i32>)
        requires
            old(self)@.wf(),
        ensures
            transition(old(self)@, EventView::Exit(code), final(self)@),
            final(self)@.wf(),
    {
        let success = exited_with(code, 0);
        match self.stage {
            Stage::Install => {
                if success {
                    self.stage = self.next_build(0);
                } else {
                    self.abort(PipelineError::RepoInstallFailed);
                }
            },
            Stage::Build(i) => {
                if success {
                    self.stage = self.next_build(i + 1);
                } else {
                    assert(self@.contexts[i as int] == self.contexts@[i as int]@);
                    let name = self.contexts[i].metadata.name.clone();
                    self.abort(PipelineError::BuildFailed(name, code));
                }
            },
            Stage::Cleanup => {
                self.stage = if success {
                    Stage::Done
                } else {
                    Stage::Warn
                };
            },
            _ => {},
        }
    }

    fn on_done(&mut self)
        requires
            old(self)@.wf(),
        ensures
            transition(old(self)@, EventView::Done, final(self)@),
            final(self)@.wf(),
    {
        match self.stage {
            Stage::Discard => {
                let at = self.contexts.len();
                assert(self@.resolution.dependencies[at as int]
                    == self.resolution.dependencies@[at as int]@);
                if self.cancelled {
                    self.abort(PipelineError::UserCancellation);
                } else {
                    let name = self.resolution.dependencies[at].metadata.name.clone();
                    let cause = self.cause.clone();
                    self.abort(PipelineError::FetchFailed(name, cause));
                }
            },
            Stage::Page(j) => {
                assert(j < self.selection.len());
                self.stage = self.next_page(j + 1);
            },
            Stage::Warn => {
                self.stage = Stage::Done;
            },
            _ => {},
        }
    }

    fn on_interrupt(&mut self)
        requires
            old(self)@.wf(),
        ensures
            transition(old(self)@, EventView::Interrupt, final(self)@),
            final(self)@.wf(),
    {
        match self.stage {
            Stage::Done => {},
            Stage::Aborted => {},
            Stage::Fetch(CacheState::Missing) | Stage::Fetch(CacheState::Invalid) | Stage::Discard => {
                self.cancelled = true;
                self.stage = Stage::Discard;
            },
            _ => {
                self.abort(PipelineError::UserCancellation);
            },
        }
    }

    /// Takes the outcome of the pending action and moves on. An event that
    /// does not answer the pending action changes nothing.
    pub fn step(&mut self, event: Event)
        requires
            old(self)@.wf(),
        ensures
            transition(old(self)@, event@, final(self)@),
            final(self)@.wf(),
    {
        match event {
            Event::RepoExit(code) => self.on_repo_exit(code),
            Event::AurResults(candidates) => self.on_aur_results(candidates),
            Event::AurFailed => self.on_aur_failed(),
            Event::Installed(names) => self.on_installed(names),
            Event::Cache(found) => self.on_cache(found),
            Event::Fetched(failure) => self.on_fetched(failure),
            Event::Selected(numbers) => self.on_selected(numbers),
            Event::Answer(yes) => self.on_answer(yes),
            Event::Exit(code) => self.on_exit(code),
            Event::Done => self.on_done(),
            Event::Interrupt => self.on_interrupt(),
        }
    }

    fn context_names(&self) -> (names: Vec<String>)
        ensures
            strs(names@) == self@.context_names(),
    {
        let mut names: Vec<String> = Vec::new();
        let mut i: usize = 0;
        while i < self.contexts.len()
            invariant
                i <= self.contexts.len(),
                names.len() == i,
                forall|k: int| 0 <= k < i ==> (#[trigger] names@[k])@ == self.contexts@[k].metadata.name@,
            decreases self.contexts.len() - i,
        {
            names.push(self.contexts[i].metadata.name.clone());
            i += 1;
        }
        assert(strs(names@) =~= self@.context_names());
        names
    }

    /// What the program has to do next.
    pub fn action(&self) -> (action: Action)
        requires
            self@.wf(),
        ensures
            action@ == self@.action(),
    {
        match self.stage {
            Stage::Sort | Stage::Resolve => Action::QueryRepo(self.asking.clone()),
            Stage::SortAur | Stage::ResolveAur => Action::QueryAur(self.asking.clone()),
            Stage::Installed => Action::QueryInstalled,
            Stage::Probe => {
                let at = self.contexts.len();
                assert(self@.resolution.dependencies[at as int]
                    == self.resolution.dependencies@[at as int]@);
                Action::ProbeCache(
                    package_path(&self.root, &self.resolution.dependencies[at].metadata.name),
                )
            },
            Stage::Fetch(found) => {
                let at = self.contexts.len();
                assert(self@.resolution.dependencies[at as int]
                    == self.resolution.dependencies@[at as int]@);
                Action::Fetch(
                    clone(&self.root, &self.resolution.dependencies[at].metadata.name, found),
                )
            },
            Stage::Discard => {
                let at = self.contexts.len();
                assert(self@.resolution.dependencies[at as int]
                    == self.resolution.dependencies@[at as int]@);
                Action::Discard(
                    package_path(&self.root, &self.resolution.dependencies[at].metadata.name),
                )
            },
            Stage::Select => Action::SelectReview(self.context_names()),
            Stage::Page(j) => {
                let at = self.selection[j];
                assert(self@.contexts[at as int] == self.contexts@[at as int]@);
                Action::Page(recipe_file(&self.contexts[at].path))
            },
            Stage::Confirm => Action::Confirm(Question::InstallReviewed),
            Stage::Install => {
                match install(&self.sorted.repo, &self.resolution.repo_dependencies, self.options) {
                    Some(command) => Action::Install(command),
                    None => {
                        let explicit: Vec<String> = Vec::new();
                        let asdeps: Vec<String> = Vec::new();
                        assert(strs(explicit@) =~= Seq::empty());
                        assert(strs(asdeps@) =~= Seq::empty());
                        assert(self@.install_command().explicit =~= Seq::empty());
                        assert(self@.install_command().asdeps =~= Seq::empty());
                        Action::Install(InstallCommand { explicit, asdeps })
                    },
                }
            },
            Stage::Build(i) => {
                assert(self@.contexts[i as int] == self.contexts@[i as int]@);
                let context = &self.contexts[i];
                let asdeps = self.options.asdeps || !contains(
                    &self.sorted.aur,
                    &context.metadata.name,
                );
                Action::Build(
                    BuildCommand {
                        directory: context.path.clone(),
                        arguments: build_arguments(self.options.noconfirm, asdeps),
                    },
                )
            },
            Stage::AskCleanup => Action::Confirm(Question::RemoveMakeDependencies),
            Stage::Cleanup => Action::Uninstall(
                UninstallCommand {
                    packages: make_dependencies(&self.resolution.dependencies, &self.requested),
                    arguments: uninstall_arguments(),
                },
            ),
            Stage::Warn => Action::Warn(PipelineError::CleanupFailed),
            Stage::Done => Action::Finish(None),
            Stage::Aborted => match &self.failure {
                Some(error) => Action::Finish(Some(error.duplicate())),
                None => Action::Finish(None),
            },
        }
    }
}

} // verus!
