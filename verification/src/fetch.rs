//! Fetching the recipe of an AUR package into the cache.
//!
//! Each package has a directory of its own under the cache root, which holds
//! a checkout of its recipe. What is done about the directory depends on what
//! stands there.

use crate::package::{AurMetadata, MetadataView};
use vstd::prelude::*;
use vstd::string::*;

verus! {

/// What stands at the place of a package's directory in the cache.
#[derive(Clone, Copy, Debug, PartialEq, Eq, Structural)]
pub enum CacheState {
    /// Nothing.
    Missing,
    /// A checkout of a recipe.
    Checkout,
    /// Something else.
    Invalid,
}

/// What to do to have the recipe of a package in the cache.
#[derive(Debug)]
pub enum FetchPlan {
    /// Make sure that the cache root exists, then clone the recipe.
    Clone { root: String, url: String, path: String },
    /// Fetch what is new and reset the checkout to the head of the remote.
    Refresh { path: String },
    /// Remove what stands at the path, then clone the recipe.
    Reclone { url: String, path: String },
}

/// A `FetchPlan` with its texts as sequences of characters.
pub enum FetchPlanView {
    Clone { root: Seq<char>, url: Seq<char>, path: Seq<char> },
    Refresh { path: Seq<char> },
    Reclone { url: Seq<char>, path: Seq<char> },
}

impl View for FetchPlan {
    type V = FetchPlanView;

    open spec fn view(&self) -> FetchPlanView {
        match self {
            FetchPlan::Clone { root, url, path } => FetchPlanView::Clone {
                root: root@,
                url: url@,
                path: path@,
            },
            FetchPlan::Refresh { path } => FetchPlanView::Refresh { path: path@ },
            FetchPlan::Reclone { url, path } => FetchPlanView::Reclone { url: url@, path: path@ },
        }
    }
}

/// The state of one AUR package on its way to being built.
#[derive(Debug)]
pub struct BuildContext {
    pub metadata: AurMetadata,
    /// The directory of the recipe.
    pub path: String,
    /// Whether the recipe was cloned in this run, not reused.
    pub fresh: bool,
    /// The place of the package in the build order, from zero.
    pub ordinal: usize,
}

/// A `BuildContext` with its texts as sequences of characters.
pub struct BuildContextView {
    pub metadata: MetadataView,
    pub path: Seq<char>,
    pub fresh: bool,
    pub ordinal: usize,
}

impl View for BuildContext {
    type V = BuildContextView;

    open spec fn view(&self) -> BuildContextView {
        BuildContextView {
            metadata: self.metadata@,
            path: self.path@,
            fresh: self.fresh,
            ordinal: self.ordinal,
        }
    }
}

/// The views of a list of build contexts.
pub open spec fn context_views(list: Seq<BuildContext>) -> Seq<BuildContextView> {
    list.map_values(|c: BuildContext| c@)
}

/// The cache root: under `$XDG_CACHE_HOME` if that is set and not empty,
/// else under `.cache` in the home directory.
pub open spec fn spec_cache_root(xdg_cache_home: Option<Seq<char>>, home: Seq<char>) -> Seq<char> {
    match xdg_cache_home {
        Some(dir) if dir.len() > 0 => dir + "/ame"@,
        _ => home + "/.cache/ame"@,
    }
}

/// The directory of a package under the cache root.
pub open spec fn spec_package_path(root: Seq<char>, name: Seq<char>) -> Seq<char> {
    root + "/"@ + name
}

/// The recipe file in the directory of a package.
pub open spec fn spec_recipe_file(path: Seq<char>) -> Seq<char> {
    path + "/PKGBUILD"@
}

/// The address of the recipe repository of a package.
pub open spec fn spec_recipe_url(name: Seq<char>) -> Seq<char> {
    "https://aur.archlinux.org/"@ + name + ".git"@
}

/// What to do to have the recipe of `name` in the cache under `root`, when
/// `found` stands at its place: a clone where nothing stands, a refresh of
/// a checkout, and a fresh clone in place of anything else.
pub open spec fn spec_plan(root: Seq<char>, name: Seq<char>, found: CacheState) -> FetchPlanView {
    match found {
        CacheState::Missing => FetchPlanView::Clone {
            root,
            url: spec_recipe_url(name),
            path: spec_package_path(root, name),
        },
        CacheState::Checkout => FetchPlanView::Refresh { path: spec_package_path(root, name) },
        CacheState::Invalid => FetchPlanView::Reclone {
            url: spec_recipe_url(name),
            path: spec_package_path(root, name),
        },
    }
}

/// Whether the plan leaves a recipe that was cloned in this run.
pub open spec fn spec_is_fresh(found: CacheState) -> bool {
    found != CacheState::Checkout
}

/// The cache root: under `$XDG_CACHE_HOME` if that is set and not empty,
/// else under `.cache` in the home directory.
pub fn cache_root(xdg_cache_home: Option<&String>, home: &String) -> (root: String)
    ensures
        root@ == spec_cache_root(
            match xdg_cache_home {
                Some(dir) => Some(dir@),
                None => None,
            },
            home@,
        ),
{
    match xdg_cache_home {
        Some(dir) => {
            if dir.as_str().is_empty() {
                home.clone().concat("/.cache/ame")
            } else {
                dir.clone().concat("/ame")
            }
        },
        None => home.clone().concat("/.cache/ame"),
    }
}

/// The directory of a package under the cache root.
pub fn package_path(root: &String, name: &String) -> (path: String)
    ensures
        path@ == spec_package_path(root@, name@),
{
    root.clone().concat("/").concat(name.as_str())
}

/// The recipe file in the directory of a package.
pub fn recipe_file(path: &String) -> (file: String)
    ensures
        file@ == spec_recipe_file(path@),
{
    path.clone().concat("/PKGBUILD")
}

/// The address of the recipe repository of a package.
pub fn recipe_url(name: &String) -> (url: String)
    ensures
        url@ == spec_recipe_url(name@),
{
    String::from_str("https://aur.archlinux.org/").concat(name.as_str()).concat(".git")
}

/// Plans the fetch of the recipe of `name` into the cache under `root`,
/// given what stands at the place of its directory.
pub fn clone(root: &String, name: &String, found: CacheState) -> (plan: FetchPlan)
    ensures
        plan@ == spec_plan(root@, name@, found),
{
    match found {
        CacheState::Missing => FetchPlan::Clone {
            root: root.clone(),
            url: recipe_url(name),
            path: package_path(root, name),
        },
        CacheState::Checkout => FetchPlan::Refresh { path: package_path(root, name) },
        CacheState::Invalid => FetchPlan::Reclone {
            url: recipe_url(name),
            path: package_path(root, name),
        },
    }
}

/// Whether a fetch that found `found` leaves a recipe cloned in this run.
pub fn is_fresh(found: CacheState) -> (fresh: bool)
    ensures
        fresh == spec_is_fresh(found),
{
    match found {
        CacheState::Checkout => false,
        _ => true,
    }
}

} // verus!
