//! The review of the recipes before anything is installed.

use crate::error::{ErrorView, PipelineError};
use crate::fetch::{
    context_views, package_path, recipe_file, spec_package_path, spec_recipe_file, BuildContext,
};
use crate::package::Options;
use crate::resolve::{information_views, DependencyInformation};
use crate::text::strs;
use vstd::prelude::*;

verus! {

/// The stage that offers the recipes for review.
#[derive(Debug)]
pub struct AurReview {
    pub options: Options,
    /// The names of the fetched packages, as they are offered for selection.
    pub packages: Vec<String>,
    pub dependencies: Vec<DependencyInformation>,
    pub contexts: Vec<BuildContext>,
}

/// The stage that installs the repository packages.
#[derive(Debug)]
pub struct RepoDependencyInstallation {
    pub options: Options,
    pub dependencies: Vec<DependencyInformation>,
    pub contexts: Vec<BuildContext>,
}

/// The test that picks the numbers below `count`.
pub open spec fn below(count: nat) -> spec_fn(usize) -> bool {
    |i: usize| i < count
}

/// Whether the review is left out: with `noconfirm`, or when told so.
pub open spec fn spec_review_skipped(options: Options) -> bool {
    options.noconfirm || options.skip_review
}

/// Of a selection among `count` entries, the part that names an entry.
pub open spec fn spec_valid_selection(selection: Seq<usize>, count: nat) -> Seq<usize> {
    selection.filter(below(count))
}

/// The function that gives the recipe file of the package at a position.
pub open spec fn recipe_at(root: Seq<char>, packages: Seq<Seq<char>>) -> spec_fn(usize) -> Seq<
    char,
> {
    |i: usize| spec_recipe_file(spec_package_path(root, packages[i as int]))
}

/// The recipe files of the selected packages, in the order of the selection.
pub open spec fn spec_recipes(root: Seq<char>, packages: Seq<Seq<char>>, selection: Seq<usize>) -> Seq<
    Seq<char>,
> {
    spec_valid_selection(selection, packages.len()).map_values(recipe_at(root, packages))
}

/// Of a selection among `count` entries, the part that names an entry.
pub fn valid_selection(selection: &Vec<usize>, count: usize) -> (valid: Vec<usize>)
    ensures
        valid@ == spec_valid_selection(selection@, count as nat),
        forall|k: int| 0 <= k < valid.len() ==> (#[trigger] valid@[k]) < count,
{
    let ghost pred = below(count as nat);
    let mut valid: Vec<usize> = Vec::new();
    let mut i: usize = 0;
    proof {
        reveal(Seq::filter);
        assert(valid@ =~= selection@.take(0).filter(pred));
    }
    while i < selection.len()
        invariant
            i <= selection.len(),
            pred == below(count as nat),
            valid@ == selection@.take(i as int).filter(pred),
            forall|k: int| 0 <= k < valid.len() ==> (#[trigger] valid@[k]) < count,
        decreases selection.len() - i,
    {
        proof {
            reveal(Seq::filter);
            assert(selection@.take(i + 1).drop_last() =~= selection@.take(i as int));
        }
        if selection[i] < count {
            valid.push(selection[i]);
        }
        i += 1;
    }
    assert(selection@.take(selection.len() as int) =~= selection@);
    valid
}

impl AurReview {
    /// Whether the review is left out.
    pub fn is_skipped(&self) -> (skipped: bool)
        ensures
            skipped == spec_review_skipped(self.options),
    {
        self.options.noconfirm || self.options.skip_review
    }

    /// The recipe files to show for a selection among the packages, in the
    /// order of the selection. A number that names no package is passed
    /// over.
    pub fn recipes(&self, root: &String, selection: &Vec<usize>) -> (files: Vec<String>)
        ensures
            strs(files@) == spec_recipes(root@, strs(self.packages@), selection@),
    {
        let valid = valid_selection(selection, self.packages.len());
        let mut files: Vec<String> = Vec::new();
        let mut i: usize = 0;
        while i < valid.len()
            invariant
                i <= valid.len(),
                files.len() == i,
                forall|k: int| 0 <= k < valid.len() ==> (#[trigger] valid@[k]) < self.packages.len(),
                forall|k: int|
                    0 <= k < i ==> (#[trigger] files@[k])@ == recipe_at(
                        root@,
                        strs(self.packages@),
                    )(valid@[k]),
            decreases valid.len() - i,
        {
            let at = valid[i];
            files.push(recipe_file(&package_path(root, &self.packages[at])));
            i += 1;
        }
        assert(strs(files@) =~= valid@.map_values(recipe_at(root@, strs(self.packages@))));
        files
    }

    /// Closes the review. `confirmed` is the answer to the question whether
    /// the installation shall go on; it counts for nothing where the review
    /// is left out. A review that took place and was not confirmed ends the
    /// run as cancelled by the user; otherwise the next stage takes over
    /// what this one held.
    pub fn review_pkgbuild(self, confirmed: bool) -> (next: Result<
        RepoDependencyInstallation,
        PipelineError,
    >)
        ensures
            next is Err <==> !spec_review_skipped(self.options) && !confirmed,
            next matches Err(e) ==> e@ == ErrorView::UserCancellation,
            next matches Ok(stage) ==> {
                &&& stage.options == self.options
                &&& information_views(stage.dependencies@) == information_views(self.dependencies@)
                &&& context_views(stage.contexts@) == context_views(self.contexts@)
            },
    {
        if !self.is_skipped() && !confirmed {
            return Err(PipelineError::UserCancellation);
        }
        Ok(
            RepoDependencyInstallation {
                options: self.options,
                dependencies: self.dependencies,
                contexts: self.contexts,
            },
        )
    }
}

} // verus!
