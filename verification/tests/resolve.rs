use ame::error::PipelineError;
use ame::known::Known;
use ame::package::{select_candidate, AurMetadata, PackageClass};
use ame::resolve::{
    dependency_graph, dependency_list, first_missing, repo_dependencies, resolve,
    DependencyInformation, Resolve,
};
use ame::sort::{inssort, Sort};

fn names(list: &[&str]) -> Vec<String> {
    list.iter().map(|n| n.to_string()).collect()
}

fn package(name: &str, depends: &[&str], make: &[&str], check: &[&str]) -> AurMetadata {
    AurMetadata {
        name: name.to_string(),
        version: "1.0-1".to_string(),
        depends: names(depends),
        make_depends: names(make),
        check_depends: names(check),
        provides: vec![],
    }
}

#[test]
fn select_candidate_takes_the_exact_name() {
    let offered = vec![package("yay-bin", &[], &[], &[]), package("yay", &["go"], &[], &[])];
    let picked = select_candidate(&"yay".to_string(), &offered).unwrap();
    assert_eq!(picked.name, "yay");
    assert_eq!(picked.depends, vec!["go"]);
}

#[test]
fn select_candidate_without_offer_is_unknown() {
    let result = select_candidate(&"nothing".to_string(), &vec![]);
    assert!(matches!(result, Err(PipelineError::UnknownPackage(n)) if n == "nothing"));
}

#[test]
fn select_candidate_with_one_other_name_is_unknown() {
    let offered = vec![package("yay-bin", &[], &[], &[])];
    let result = select_candidate(&"yay".to_string(), &offered);
    assert!(matches!(result, Err(PipelineError::UnknownPackage(n)) if n == "yay"));
}

#[test]
fn select_candidate_with_several_other_names_is_ambiguous() {
    let offered = vec![package("yay-bin", &[], &[], &[]), package("yay-git", &[], &[], &[])];
    let result = select_candidate(&"yay".to_string(), &offered);
    assert!(matches!(result, Err(PipelineError::Ambiguous(n)) if n == "yay"));
}

#[test]
fn known_prefers_the_repositories() {
    let mut known = Known::new();
    assert_eq!(known.class_of(&"vim".to_string()), PackageClass::Unknown);
    known.record_repo("vim".to_string());
    known.record_aur(package("vim", &[], &[], &[]));
    known.record_aur(package("yay", &[], &[], &[]));
    known.record_repo("yay".to_string());
    assert_eq!(known.class_of(&"vim".to_string()), PackageClass::Repo);
    assert_eq!(known.class_of(&"yay".to_string()), PackageClass::Aur);
    assert_eq!(known.aur_len(), 1);
    assert_eq!(known.aur_position(&"yay".to_string()), Some(0));
}

#[test]
fn known_select_filters_by_class_and_installed() {
    let mut known = Known::new();
    known.record_repo("go".to_string());
    known.record_repo("git".to_string());
    known.record_aur(package("bar", &[], &[], &[]));
    let list = names(&["go>=1.20", "bar", "git", "go", "glibc", "mystery"]);
    let installed = names(&["glibc", "git"]);
    assert_eq!(known.select(&list, &installed, PackageClass::Repo), vec!["go"]);
    assert_eq!(known.select(&list, &installed, PackageClass::Aur), vec!["bar"]);
    assert_eq!(known.select(&list, &installed, PackageClass::Unknown), vec!["mystery"]);
}

#[test]
fn inssort_asks_for_the_first_unknown_name() {
    let mut known = Known::new();
    known.record_repo("vim".to_string());
    let sort = inssort(&names(&["vim", "yay>=12", "zsh"]), &known);
    assert!(matches!(sort, Sort::Ask(n) if n == "yay"));
}

#[test]
fn inssort_keeps_the_order_and_the_constraints_of_repo_packages() {
    let mut known = Known::new();
    known.record_repo("vim".to_string());
    known.record_repo("zsh".to_string());
    known.record_aur(package("yay", &[], &[], &[]));
    known.record_aur(package("paru", &[], &[], &[]));
    let sort = inssort(&names(&["zsh>=5", "paru<=2", "vim", "yay"]), &known);
    match sort {
        Sort::Done(sorted) => {
            assert_eq!(sorted.repo, vec!["zsh>=5", "vim"]);
            assert_eq!(sorted.aur, vec!["paru", "yay"]);
        }
        Sort::Ask(n) => panic!("asked for {}", n),
    }
}

#[test]
fn inssort_puts_each_name_in_exactly_one_list() {
    let mut known = Known::new();
    known.record_repo("a".to_string());
    known.record_aur(package("b", &[], &[], &[]));
    let requested = names(&["a", "b>=1", "a<=2", "b"]);
    match inssort(&requested, &known) {
        Sort::Done(sorted) => {
            for name in &requested {
                let bare = ame::names::bare_name(name);
                assert_ne!(sorted.repo.contains(name), sorted.aur.contains(&bare));
            }
        }
        Sort::Ask(n) => panic!("asked for {}", n),
    }
}

#[test]
fn inssort_of_nothing_is_done() {
    let sort = inssort(&vec![], &Known::new());
    assert!(matches!(sort, Sort::Done(s) if s.repo.is_empty() && s.aur.is_empty()));
}

#[test]
fn first_missing_skips_installed_and_known_names() {
    let mut known = Known::new();
    known.record_repo("go".to_string());
    let list = names(&["go", "glibc>=2", "bar>=1", "baz"]);
    assert_eq!(first_missing(&list, &names(&["glibc"]), &known), Some("bar".to_string()));
    known.record_aur(package("bar", &[], &[], &[]));
    known.record_repo("baz".to_string());
    assert_eq!(first_missing(&list, &names(&["glibc"]), &known), None);
}

#[test]
fn dependency_information_splits_each_list_by_source() {
    let mut known = Known::new();
    known.record_repo("go".to_string());
    known.record_repo("git".to_string());
    known.record_repo("cmake".to_string());
    known.record_aur(package("bar", &[], &[], &[]));
    known.record_aur(package("testlib", &[], &[], &[]));
    let foo = package("foo", &["go>=1.2", "bar", "glibc"], &["cmake", "git", "cmake"], &["testlib"]);
    let info = DependencyInformation::new(&foo, &names(&["glibc"]), &known);
    assert_eq!(info.metadata.name, "foo");
    assert_eq!(info.depends.repo, vec!["go"]);
    assert_eq!(info.depends.aur.iter().map(|m| m.name.as_str()).collect::<Vec<_>>(), vec!["bar"]);
    assert_eq!(info.make_depends.repo, vec!["cmake", "git"]);
    assert!(info.make_depends.aur.is_empty());
    assert!(info.check_depends.repo.is_empty());
    assert_eq!(
        info.check_depends.aur.iter().map(|m| m.name.as_str()).collect::<Vec<_>>(),
        vec!["testlib"]
    );
}

#[test]
fn dependency_graph_links_aur_packages_by_position() {
    let mut known = Known::new();
    known.record_aur(package("foo", &["bar>=2", "go"], &["baz"], &[]));
    known.record_repo("go".to_string());
    known.record_aur(package("bar", &[], &[], &["baz"]));
    known.record_aur(package("baz", &[], &[], &[]));
    assert_eq!(dependency_graph(&known, &vec![]), vec![vec![1, 2], vec![2], vec![]]);
    assert_eq!(dependency_graph(&known, &names(&["baz"])), vec![vec![1], vec![], vec![]]);
}

#[test]
fn resolve_asks_for_the_first_open_dependency() {
    let mut known = Known::new();
    known.record_aur(package("yay", &["go", "git"], &[], &[]));
    assert!(matches!(resolve(&known, &vec![]), Resolve::Ask(n) if n == "go"));
    known.record_repo("go".to_string());
    assert!(matches!(resolve(&known, &vec![]), Resolve::Ask(n) if n == "git"));
    assert!(matches!(resolve(&known, &names(&["git"])), Resolve::Done(_)));
}

#[test]
fn resolve_orders_a_dependency_before_its_dependent() {
    let mut known = Known::new();
    known.record_aur(package("foo", &["bar", "go"], &["cmake"], &[]));
    known.record_repo("go".to_string());
    known.record_repo("cmake".to_string());
    known.record_aur(package("bar", &["go", "zlib"], &[], &[]));
    known.record_repo("zlib".to_string());
    match resolve(&known, &vec![]) {
        Resolve::Done(resolution) => {
            assert_eq!(resolution.order, vec![1, 0]);
            let built: Vec<&str> =
                resolution.dependencies.iter().map(|d| d.metadata.name.as_str()).collect();
            assert_eq!(built, vec!["bar", "foo"]);
            assert_eq!(resolution.repo_dependencies, vec!["go", "cmake", "zlib"]);
        }
        other => panic!("not resolved: {:?}", other),
    }
}

#[test]
fn resolve_accounts_for_every_dependency() {
    let mut known = Known::new();
    known.record_aur(package("top", &["mid>=1", "glibc", "go"], &["low"], &["git"]));
    known.record_repo("go".to_string());
    known.record_repo("git".to_string());
    known.record_aur(package("mid", &["low"], &[], &[]));
    known.record_aur(package("low", &[], &["go"], &[]));
    let installed = names(&["glibc"]);
    match resolve(&known, &installed) {
        Resolve::Done(resolution) => {
            for (place, info) in resolution.dependencies.iter().enumerate() {
                for name in info.metadata.all_depends() {
                    let bare = ame::names::bare_name(&name);
                    let earlier = resolution.dependencies[..place]
                        .iter()
                        .any(|d| d.metadata.name == bare);
                    assert!(
                        installed.contains(&bare)
                            || resolution.repo_dependencies.contains(&bare)
                            || earlier
                    );
                }
            }
        }
        other => panic!("not resolved: {:?}", other),
    }
}

#[test]
fn resolve_reports_a_cycle_by_name() {
    let mut known = Known::new();
    known.record_aur(package("a", &["b"], &[], &[]));
    known.record_aur(package("b", &[], &["a"], &[]));
    assert!(matches!(resolve(&known, &vec![]), Resolve::Cyclic(path) if path == vec!["a", "b"]));
}

#[test]
fn resolve_takes_no_cycle_through_an_installed_package() {
    let mut known = Known::new();
    known.record_aur(package("a", &["b"], &[], &[]));
    known.record_aur(package("b", &["a"], &[], &[]));
    match resolve(&known, &names(&["a"])) {
        Resolve::Done(resolution) => assert_eq!(resolution.order, vec![1, 0]),
        other => panic!("not resolved: {:?}", other),
    }
}

#[test]
fn resolve_of_a_package_that_provides_itself_is_no_cycle() {
    let mut known = Known::new();
    let mut own = package("tool", &[], &[], &[]);
    own.provides = names(&["tool"]);
    known.record_aur(own);
    assert!(matches!(resolve(&known, &vec![]), Resolve::Done(r) if r.order == vec![0]));
}

#[test]
fn resolve_of_nothing_is_empty() {
    match resolve(&Known::new(), &vec![]) {
        Resolve::Done(resolution) => {
            assert!(resolution.order.is_empty());
            assert!(resolution.dependencies.is_empty());
            assert!(resolution.repo_dependencies.is_empty());
        }
        other => panic!("not resolved: {:?}", other),
    }
}

#[test]
fn dependency_list_puts_each_name_in_one_part() {
    let mut known = Known::new();
    known.record_repo("go".to_string());
    known.record_aur(package("bar", &["x"], &[], &[]));
    let list = names(&["go>=1", "bar", "go", "bar<=3", "libc"]);
    let split = dependency_list(&list, &names(&["libc"]), &known);
    assert_eq!(split.repo, vec!["go"]);
    assert_eq!(split.aur.len(), 1);
    assert_eq!(split.aur[0].name, "bar");
    assert_eq!(split.aur[0].depends, vec!["x"]);
    for name in ["go>=1", "bar", "go", "bar<=3"] {
        let bare = ame::names::bare_name(name);
        assert_ne!(split.repo.contains(&bare), split.aur.iter().any(|m| m.name == bare));
    }
}

#[test]
fn repo_dependencies_gathers_each_name_once() {
    let mut known = Known::new();
    for name in ["go", "git", "cmake"] {
        known.record_repo(name.to_string());
    }
    known.record_aur(package("a", &["go", "b"], &["cmake"], &[]));
    known.record_aur(package("b", &["git", "go>=1"], &["cmake"], &["go"]));
    assert_eq!(repo_dependencies(&known, &vec![]), vec!["go", "cmake", "git"]);
    assert_eq!(repo_dependencies(&known, &names(&["go"])), vec!["cmake", "git"]);
    assert_eq!(repo_dependencies(&Known::new(), &vec![]), Vec::<String>::new());
}

#[test]
fn known_gives_the_packages_by_position() {
    let mut known = Known::new();
    known.record_aur(package("a", &[], &[], &[]));
    known.record_aur(package("b", &["a"], &[], &[]));
    assert_eq!(known.aur_len(), 2);
    assert_eq!(known.aur_at(1).name, "b");
    assert_eq!(known.aur_at(1).all_depends(), vec!["a"]);
    assert_eq!(known.aur_position(&"b".to_string()), Some(1));
    assert_eq!(known.aur_position(&"c".to_string()), None);
}

#[test]
fn resolve_on_a_served_system_asks_for_nothing() {
    let mut known = Known::new();
    known.record_aur(package("foo", &["bar>=1", "go"], &["cmake"], &["git"]));
    known.record_aur(package("bar", &["go"], &[], &[]));
    let installed = names(&["bar", "go", "cmake", "git"]);
    match resolve(&known, &installed) {
        Resolve::Done(resolution) => {
            assert_eq!(resolution.order, vec![0, 1]);
            assert!(resolution.repo_dependencies.is_empty());
            assert_eq!(dependency_graph(&known, &installed), vec![vec![], vec![]]);
        }
        other => panic!("not resolved: {:?}", other),
    }
}
