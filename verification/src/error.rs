//! The ways in which an installation ends early.

use crate::text::strs;
use vstd::prelude::*;

verus! {

/// Why the pipeline stopped, or, for `CleanupFailed`, what it warns of.
#[derive(Debug)]
pub enum PipelineError {
    /// The name is neither in the repositories nor in the AUR.
    UnknownPackage(String),
    /// The named packages depend on each other in a circle, each on the next
    /// and the last on the first.
    CyclicDependency(Vec<String>),
    /// The registry answered with several packages, none of them of that name.
    Ambiguous(String),
    /// The native manager or the registry could not answer for the name.
    QueryFailed(String),
    /// The recipe of the package could not be fetched; the second field is
    /// the cause.
    FetchFailed(String, String),
    /// The user declined, or interrupted the run.
    UserCancellation,
    /// The native manager failed to install the repository packages.
    RepoInstallFailed,
    /// The build tool failed on the package; the second field is its exit
    /// code, if it had one.
    BuildFailed(String, Option<i32>),
    /// The make dependencies could not be removed. A warning only.
    CleanupFailed,
}

/// A `PipelineError` with its texts as sequences of characters.
pub enum ErrorView {
    UnknownPackage(Seq<char>),
    CyclicDependency(Seq<Seq<char>>),
    Ambiguous(Seq<char>),
    QueryFailed(Seq<char>),
    FetchFailed(Seq<char>, Seq<char>),
    UserCancellation,
    RepoInstallFailed,
    BuildFailed(Seq<char>, Option<i32>),
    CleanupFailed,
}

impl View for PipelineError {
    type V = ErrorView;

    open spec fn view(&self) -> ErrorView {
        match self {
            PipelineError::UnknownPackage(n) => ErrorView::UnknownPackage(n@),
            PipelineError::CyclicDependency(p) => ErrorView::CyclicDependency(strs(p@)),
            PipelineError::Ambiguous(n) => ErrorView::Ambiguous(n@),
            PipelineError::QueryFailed(n) => ErrorView::QueryFailed(n@),
            PipelineError::FetchFailed(n, c) => ErrorView::FetchFailed(n@, c@),
            PipelineError::UserCancellation => ErrorView::UserCancellation,
            PipelineError::RepoInstallFailed => ErrorView::RepoInstallFailed,
            PipelineError::BuildFailed(n, e) => ErrorView::BuildFailed(n@, *e),
            PipelineError::CleanupFailed => ErrorView::CleanupFailed,
        }
    }
}

impl ErrorView {
    /// The exit code of the process for this kind of error.
    pub open spec fn exit_code(self) -> int {
        match self {
            ErrorView::UnknownPackage(_) => 2,
            ErrorView::CyclicDependency(_) => 3,
            ErrorView::Ambiguous(_) => 4,
            ErrorView::QueryFailed(_) => 5,
            ErrorView::FetchFailed(_, _) => 6,
            ErrorView::UserCancellation => 7,
            ErrorView::RepoInstallFailed => 8,
            ErrorView::BuildFailed(_, _) => 9,
            ErrorView::CleanupFailed => 10,
        }
    }

    /// Whether two errors are of the same kind, whatever they carry.
    pub open spec fn same_kind(self, other: ErrorView) -> bool {
        match (self, other) {
            (ErrorView::UnknownPackage(_), ErrorView::UnknownPackage(_)) => true,
            (ErrorView::CyclicDependency(_), ErrorView::CyclicDependency(_)) => true,
            (ErrorView::Ambiguous(_), ErrorView::Ambiguous(_)) => true,
            (ErrorView::QueryFailed(_), ErrorView::QueryFailed(_)) => true,
            (ErrorView::FetchFailed(_, _), ErrorView::FetchFailed(_, _)) => true,
            (ErrorView::UserCancellation, ErrorView::UserCancellation) => true,
            (ErrorView::RepoInstallFailed, ErrorView::RepoInstallFailed) => true,
            (ErrorView::BuildFailed(_, _), ErrorView::BuildFailed(_, _)) => true,
            (ErrorView::CleanupFailed, ErrorView::CleanupFailed) => true,
            _ => false,
        }
    }
}

/// Each kind of error has an exit code of its own, and none is zero.
pub proof fn lemma_exit_codes_distinct(a: ErrorView, b: ErrorView)
    ensures
        a.exit_code() != 0,
        a.exit_code() == b.exit_code() <==> a.same_kind(b),
{
}

impl PipelineError {
    /// The exit code of the process for this kind of error.
    pub fn exit_code(&self) -> (code: i32)
        ensures
            code == self@.exit_code(),
    {
        match self {
            PipelineError::UnknownPackage(_) => 2,
            PipelineError::CyclicDependency(_) => 3,
            PipelineError::Ambiguous(_) => 4,
            PipelineError::QueryFailed(_) => 5,
            PipelineError::FetchFailed(_, _) => 6,
            PipelineError::UserCancellation => 7,
            PipelineError::RepoInstallFailed => 8,
            PipelineError::BuildFailed(_, _) => 9,
            PipelineError::CleanupFailed => 10,
        }
    }

    /// Whether the error is a warning, after which the run still counts as
    /// a success.
    pub fn is_warning(&self) -> (warning: bool)
        ensures
            warning == (self@ is CleanupFailed),
    {
        match self {
            PipelineError::CleanupFailed => true,
            _ => false,
        }
    }

    /// A copy of the error.
    pub fn duplicate(&self) -> (copy: PipelineError)
        ensures
            copy@ == self@,
    {
        match self {
            PipelineError::UnknownPackage(n) => PipelineError::UnknownPackage(n.clone()),
            PipelineError::CyclicDependency(p) => PipelineError::CyclicDependency(
                crate::text::copy_names(p),
            ),
            PipelineError::Ambiguous(n) => PipelineError::Ambiguous(n.clone()),
            PipelineError::QueryFailed(n) => PipelineError::QueryFailed(n.clone()),
            PipelineError::FetchFailed(n, c) => PipelineError::FetchFailed(n.clone(), c.clone()),
            PipelineError::UserCancellation => PipelineError::UserCancellation,
            PipelineError::RepoInstallFailed => PipelineError::RepoInstallFailed,
            PipelineError::BuildFailed(n, e) => PipelineError::BuildFailed(n.clone(), *e),
            PipelineError::CleanupFailed => PipelineError::CleanupFailed,
        }
    }
}

} // verus!
