//! What is known of a package: where it comes from and what the registry
//! says of it.

use crate::error::{ErrorView, PipelineError};
use crate::text::{append_names, copy_names, strs};
use vstd::prelude::*;

verus! {

/// Where a package comes from.
#[derive(Clone, Copy, Debug, PartialEq, Eq, Structural)]
pub enum PackageClass {
    /// The binary repositories have it.
    Repo,
    /// Only the AUR has it.
    Aur,
    /// Neither has it.
    Unknown,
}

/// How much the program says.
#[derive(Clone, Copy, Debug, PartialEq, Eq, Structural)]
pub enum Verbosity {
    Error,
    Warning,
    Info,
    Debug,
    Trace,
}

impl Verbosity {
    /// The place of the level, from the most quiet to the most talkative.
    pub open spec fn spec_rank(self) -> int {
        match self {
            Verbosity::Error => 0,
            Verbosity::Warning => 1,
            Verbosity::Info => 2,
            Verbosity::Debug => 3,
            Verbosity::Trace => 4,
        }
    }

    /// The place of the level, from the most quiet to the most talkative.
    pub fn rank(self) -> (rank: u8)
        ensures
            rank == self.spec_rank(),
    {
        match self {
            Verbosity::Error => 0,
            Verbosity::Warning => 1,
            Verbosity::Info => 2,
            Verbosity::Debug => 3,
            Verbosity::Trace => 4,
        }
    }

    /// Whether a message of `level` is shown when `self` is the level set.
    pub fn shows(self, level: Verbosity) -> (shown: bool)
        ensures
            shown == (level.spec_rank() <= self.spec_rank()),
    {
        level.rank() <= self.rank()
    }
}

/// The options of a run.
#[derive(Clone, Copy, Debug, PartialEq, Eq, Structural)]
pub struct Options {
    /// Ask nothing and take the affirmative answer everywhere.
    pub noconfirm: bool,
    /// Mark what is installed as a dependency, not as asked for.
    pub asdeps: bool,
    /// How much the program says.
    pub verbosity: Verbosity,
    /// Do not offer the recipes for review.
    pub skip_review: bool,
}

impl Default for Options {
    fn default() -> (options: Options)
        ensures
            !options.noconfirm,
            !options.asdeps,
            options.verbosity == Verbosity::Info,
            !options.skip_review,
    {
        Options { noconfirm: false, asdeps: false, verbosity: Verbosity::Info, skip_review: false }
    }
}

/// What the registry says of one package.
#[derive(Debug)]
pub struct AurMetadata {
    /// The canonical name.
    pub name: String,
    pub version: String,
    /// What the package needs to run.
    pub depends: Vec<String>,
    /// What it needs only while it is built.
    pub make_depends: Vec<String>,
    /// What it needs only while it is tested.
    pub check_depends: Vec<String>,
    /// The names under which it can stand in for another package.
    pub provides: Vec<String>,
}

/// An `AurMetadata` with its texts as sequences of characters.
pub struct MetadataView {
    pub name: Seq<char>,
    pub version: Seq<char>,
    pub depends: Seq<Seq<char>>,
    pub make_depends: Seq<Seq<char>>,
    pub check_depends: Seq<Seq<char>>,
    pub provides: Seq<Seq<char>>,
}

impl View for AurMetadata {
    type V = MetadataView;

    open spec fn view(&self) -> MetadataView {
        MetadataView {
            name: self.name@,
            version: self.version@,
            depends: strs(self.depends@),
            make_depends: strs(self.make_depends@),
            check_depends: strs(self.check_depends@),
            provides: strs(self.provides@),
        }
    }
}

impl MetadataView {
    /// All the names the package depends on, as the registry wrote them:
    /// first what it needs to run, then to be built, then to be tested.
    pub open spec fn all_depends(self) -> Seq<Seq<char>> {
        self.depends + self.make_depends + self.check_depends
    }
}

impl AurMetadata {
    /// All the names the package depends on, as the registry wrote them:
    /// first what it needs to run, then to be built, then to be tested.
    pub fn all_depends(&self) -> (all: Vec<String>)
        ensures
            strs(all@) == self@.all_depends(),
    {
        let mut all = copy_names(&self.depends);
        append_names(&mut all, &self.make_depends);
        append_names(&mut all, &self.check_depends);
        all
    }

    /// A copy of the metadata.
    pub fn duplicate(&self) -> (copy: AurMetadata)
        ensures
            copy@ == self@,
    {
        AurMetadata {
            name: self.name.clone(),
            version: self.version.clone(),
            depends: copy_names(&self.depends),
            make_depends: copy_names(&self.make_depends),
            check_depends: copy_names(&self.check_depends),
            provides: copy_names(&self.provides),
        }
    }
}

/// The views of a list of metadata.
pub open spec fn metadata_views(list: Seq<AurMetadata>) -> Seq<MetadataView> {
    list.map_values(|m: AurMetadata| m@)
}

/// The position of the first package of `candidates` whose canonical name is
/// `query`: `i` is that position.
pub open spec fn is_first_match(candidates: Seq<MetadataView>, query: Seq<char>, i: int) -> bool {
    &&& 0 <= i < candidates.len()
    &&& candidates[i].name == query
    &&& forall|j: int| 0 <= j < i ==> candidates[j].name != query
}

/// The error for a registry answer that holds no package named `query`:
/// with several packages to choose from the name is ambiguous, otherwise the
/// package is unknown.
pub open spec fn no_match_error(candidates: Seq<MetadataView>, query: Seq<char>) -> ErrorView {
    if candidates.len() >= 2 {
        ErrorView::Ambiguous(query)
    } else {
        ErrorView::UnknownPackage(query)
    }
}

/// Picks from a registry answer the package whose canonical name is `query`.
///
/// Where several carry the name, the first is taken. Where none does, the
/// name is ambiguous if the registry offered several packages, and unknown
/// otherwise.
pub fn select_candidate(query: &String, candidates: &Vec<AurMetadata>) -> (result: Result<
    AurMetadata,
    PipelineError,
>)
    ensures
        result matches Ok(m) ==> exists|i: int|
            is_first_match(metadata_views(candidates@), query@, i) && m@ == metadata_views(
                candidates@,
            )[i],
        result matches Err(e) ==> e@ == no_match_error(metadata_views(candidates@), query@),
        result is Err <==> forall|j: int|
            0 <= j < candidates.len() ==> (#[trigger] metadata_views(candidates@)[j]).name
                != query@,
{
    let mut i: usize = 0;
    while i < candidates.len()
        invariant
            i <= candidates.len(),
            forall|j: int| 0 <= j < i ==> (#[trigger] metadata_views(candidates@)[j]).name != query@,
        decreases candidates.len() - i,
    {
        if candidates[i].name == *query {
            let found = candidates[i].duplicate();
            assert(is_first_match(metadata_views(candidates@), query@, i as int));
            return Ok(found);
        }
        i += 1;
    }
    if candidates.len() >= 2 {
        Err(PipelineError::Ambiguous(query.clone()))
    } else {
        Err(PipelineError::UnknownPackage(query.clone()))
    }
}

} // verus!
