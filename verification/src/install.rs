//! Commands for the native manager and for the build tool.

use crate::names::{bare_names, spec_bare_names};
use crate::package::Options;
use crate::text::{append_names, contains, copy_names, lemma_filter_push, lemma_strs_push, lemma_strs_take, strs};
use vstd::prelude::*;
use vstd::string::*;

verus! {

/// One installation by the native manager.
#[derive(Debug)]
pub struct InstallCommand {
    /// The packages to install as asked for by the user.
    pub explicit: Vec<String>,
    /// The packages to install marked as dependencies.
    pub asdeps: Vec<String>,
}

/// An `InstallCommand` with its texts as sequences of characters.
pub struct InstallView {
    pub explicit: Seq<Seq<char>>,
    pub asdeps: Seq<Seq<char>>,
}

impl View for InstallCommand {
    type V = InstallView;

    open spec fn view(&self) -> InstallView {
        InstallView { explicit: strs(self.explicit@), asdeps: strs(self.asdeps@) }
    }
}

/// One run of the build tool.
#[derive(Debug)]
pub struct BuildCommand {
    /// The recipe directory in which the tool runs.
    pub directory: String,
    pub arguments: Vec<String>,
}

/// A `BuildCommand` with its texts as sequences of characters.
pub struct BuildView {
    pub directory: Seq<char>,
    pub arguments: Seq<Seq<char>>,
}

impl View for BuildCommand {
    type V = BuildView;

    open spec fn view(&self) -> BuildView {
        BuildView { directory: self.directory@, arguments: strs(self.arguments@) }
    }
}

/// One removal by the native manager.
#[derive(Debug)]
pub struct UninstallCommand {
    pub packages: Vec<String>,
    pub arguments: Vec<String>,
}

/// An `UninstallCommand` with its texts as sequences of characters.
pub struct UninstallView {
    pub packages: Seq<Seq<char>>,
    pub arguments: Seq<Seq<char>>,
}

impl View for UninstallCommand {
    type V = UninstallView;

    open spec fn view(&self) -> UninstallView {
        UninstallView { packages: strs(self.packages@), arguments: strs(self.arguments@) }
    }
}

/// The test that picks the names that are not in `names`.
pub open spec fn not_among(names: Seq<Seq<char>>) -> spec_fn(Seq<char>) -> bool {
    |n: Seq<char>| !names.contains(n)
}

/// The installation of the repository packages: the packages that the user
/// asked for, and the dependencies that the user did not ask for. The
/// dependencies are marked as such. With `asdeps` all of them are.
pub open spec fn spec_install(
    packages: Seq<Seq<char>>,
    dependencies: Seq<Seq<char>>,
    asdeps: bool,
) -> InstallView {
    let extra = dependencies.filter(not_among(spec_bare_names(packages)));
    if asdeps {
        InstallView { explicit: Seq::empty(), asdeps: packages + extra }
    } else {
        InstallView { explicit: packages, asdeps: extra }
    }
}

/// The arguments of the build tool: it installs what it builds and the
/// repository packages it still misses; it asks nothing with `noconfirm`,
/// and marks the package as a dependency with `asdeps`.
pub open spec fn spec_build_arguments(noconfirm: bool, asdeps: bool) -> Seq<Seq<char>> {
    let base = seq!["--syncdeps"@, "--install"@];
    let quiet = if noconfirm {
        base.push("--noconfirm"@)
    } else {
        base
    };
    if asdeps {
        quiet.push("--asdeps"@)
    } else {
        quiet
    }
}

/// The arguments of the native manager for a removal: the packages go with
/// their configuration and with the dependencies nothing else needs, and
/// nothing is asked.
pub open spec fn spec_uninstall_arguments() -> Seq<Seq<char>> {
    seq!["-Rns"@, "--noconfirm"@]
}

/// Whether the installation brings the package of the bare name `n`: one of
/// its packages is `n`, with or without a version constraint.
pub open spec fn installs(command: InstallView, n: Seq<char>) -> bool {
    exists|k: int|
        0 <= k < (command.explicit + command.asdeps).len() && {
            let target = #[trigger] (command.explicit + command.asdeps)[k];
            target == n || crate::names::spec_bare_name(target) == n
        }
}

/// The installation brings every dependency.
pub proof fn lemma_install_covers(
    packages: Seq<Seq<char>>,
    dependencies: Seq<Seq<char>>,
    asdeps: bool,
    n: Seq<char>,
)
    requires
        dependencies.contains(n),
    ensures
        installs(spec_install(packages, dependencies, asdeps), n),
{
    let c = spec_install(packages, dependencies, asdeps);
    let all = c.explicit + c.asdeps;
    let pred = not_among(spec_bare_names(packages));
    let extra = dependencies.filter(pred);
    if spec_bare_names(packages).contains(n) {
        let k = choose|k: int|
            0 <= k < spec_bare_names(packages).len() && spec_bare_names(packages)[k] == n;
        assert(all[k] == packages[k]);
        assert(crate::names::spec_bare_name(all[k]) == n);
    } else {
        let i = choose|i: int| 0 <= i < dependencies.len() && dependencies[i] == n;
        assert(pred(dependencies[i]));
        dependencies.lemma_filter_contains(pred, i);
        let k = choose|k: int| 0 <= k < extra.len() && extra[k] == n;
        assert(all[packages.len() + k] == n);
    }
}

/// The dependencies that the user did not ask for.
fn unrequested(packages: &Vec<String>, dependencies: &Vec<String>) -> (extra: Vec<String>)
    ensures
        strs(extra@) == strs(dependencies@).filter(not_among(spec_bare_names(strs(packages@)))),
{
    let bare = bare_names(packages);
    let ghost pred = not_among(spec_bare_names(strs(packages@)));
    let ghost all = strs(dependencies@);
    let mut extra: Vec<String> = Vec::new();
    let mut i: usize = 0;
    proof {
        reveal(Seq::filter);
        assert(strs(extra@) =~= all.take(0).filter(pred));
    }
    while i < dependencies.len()
        invariant
            i <= dependencies.len(),
            all == strs(dependencies@),
            strs(bare@) == spec_bare_names(strs(packages@)),
            pred == not_among(spec_bare_names(strs(packages@))),
            strs(extra@) == all.take(i as int).filter(pred),
        decreases dependencies.len() - i,
    {
        proof {
            lemma_strs_take(dependencies@, i as int);
            lemma_filter_push(all.take(i as int), pred, all[i as int]);
        }
        if !contains(&bare, &dependencies[i]) {
            proof {
                lemma_strs_push(extra@, dependencies@[i as int]);
            }
            extra.push(dependencies[i].clone());
        }
        i += 1;
    }
    assert(all.take(dependencies.len() as int) =~= all);
    extra
}

/// The installation of the repository packages, if there is anything to
/// install: `packages` as the user wrote them, and of `dependencies` those
/// that the user did not ask for.
pub fn install(packages: &Vec<String>, dependencies: &Vec<String>, options: Options) -> (command:
    Option<InstallCommand>)
    ensures
        command matches Some(c) ==> c@ == spec_install(
            strs(packages@),
            strs(dependencies@),
            options.asdeps,
        ),
        command is None <==> {
            let c = spec_install(strs(packages@), strs(dependencies@), options.asdeps);
            c.explicit.len() == 0 && c.asdeps.len() == 0
        },
{
    let extra = unrequested(packages, dependencies);
    if packages.len() == 0 && extra.len() == 0 {
        return None;
    }
    if options.asdeps {
        let mut asdeps = copy_names(packages);
        append_names(&mut asdeps, &extra);
        let explicit: Vec<String> = Vec::new();
        assert(strs(explicit@) =~= Seq::empty());
        Some(InstallCommand { explicit, asdeps })
    } else {
        Some(InstallCommand { explicit: copy_names(packages), asdeps: extra })
    }
}

/// The arguments of the build tool.
pub fn build_arguments(noconfirm: bool, asdeps: bool) -> (arguments: Vec<String>)
    ensures
        strs(arguments@) == spec_build_arguments(noconfirm, asdeps),
{
    let mut arguments: Vec<String> = Vec::new();
    arguments.push(String::from_str("--syncdeps"));
    arguments.push(String::from_str("--install"));
    if noconfirm {
        arguments.push(String::from_str("--noconfirm"));
    }
    if asdeps {
        arguments.push(String::from_str("--asdeps"));
    }
    assert(strs(arguments@) =~= spec_build_arguments(noconfirm, asdeps));
    arguments
}

/// The arguments of the native manager for a removal.
pub fn uninstall_arguments() -> (arguments: Vec<String>)
    ensures
        strs(arguments@) == spec_uninstall_arguments(),
{
    let mut arguments: Vec<String> = Vec::new();
    arguments.push(String::from_str("-Rns"));
    arguments.push(String::from_str("--noconfirm"));
    assert(strs(arguments@) =~= spec_uninstall_arguments());
    arguments
}

} // verus!
