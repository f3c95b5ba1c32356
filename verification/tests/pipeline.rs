use ame::error::PipelineError;
use ame::fetch::{CacheState, FetchPlan};
use ame::package::{AurMetadata, Options, Verbosity};
use ame::pipeline::{Action, Event, Pipeline, Stage};
use ame::prompt::Question;

/// A system to run the machine against.
struct World {
    repo: Vec<&'static str>,
    aur: Vec<AurMetadata>,
    installed: Vec<&'static str>,
    checkouts: Vec<&'static str>,
    rubble: Vec<&'static str>,
    failing_fetch: Option<&'static str>,
    failing_query: Option<&'static str>,
    failing_build: Option<&'static str>,
    install_exit: i32,
    uninstall_exit: i32,
    selection: Vec<usize>,
    confirm: bool,
    cleanup: bool,
}

fn world() -> World {
    World {
        repo: vec![],
        aur: vec![],
        installed: vec![],
        checkouts: vec![],
        rubble: vec![],
        failing_fetch: None,
        failing_query: None,
        failing_build: None,
        install_exit: 0,
        uninstall_exit: 0,
        selection: vec![],
        confirm: true,
        cleanup: true,
    }
}

fn strings(list: &[&str]) -> Vec<String> {
    list.iter().map(|n| n.to_string()).collect()
}

fn aur(name: &str, depends: &[&str], make: &[&str]) -> AurMetadata {
    AurMetadata {
        name: name.to_string(),
        version: "1-1".to_string(),
        depends: strings(depends),
        make_depends: strings(make),
        check_depends: vec![],
        provides: vec![],
    }
}

fn quiet() -> Options {
    Options { noconfirm: true, asdeps: false, verbosity: Verbosity::Info, skip_review: false }
}

fn asking() -> Options {
    Options { noconfirm: false, asdeps: false, verbosity: Verbosity::Info, skip_review: false }
}

/// Runs the machine to its end and returns what it asked for, line by line.
fn run(requested: &[&str], options: Options, world: &World) -> (Vec<String>, Option<PipelineError>) {
    let mut pipeline = Pipeline::new(strings(requested), options, "/cache/ame".to_string());
    let mut log: Vec<String> = Vec::new();
    for _ in 0..500 {
        let event = match pipeline.action() {
            Action::QueryRepo(name) => {
                log.push(format!("repo? {}", name));
                if world.failing_query == Some(name.as_str()) {
                    Event::RepoExit(Some(2))
                } else if world.repo.contains(&name.as_str()) {
                    Event::RepoExit(Some(0))
                } else {
                    Event::RepoExit(Some(1))
                }
            }
            Action::QueryAur(name) => {
                log.push(format!("aur? {}", name));
                let prefix = name.clone();
                Event::AurResults(
                    world
                        .aur
                        .iter()
                        .filter(|m| m.name.starts_with(&prefix))
                        .map(|m| m.duplicate())
                        .collect(),
                )
            }
            Action::QueryInstalled => {
                log.push("installed?".to_string());
                Event::Installed(strings(&world.installed))
            }
            Action::ProbeCache(path) => {
                log.push(format!("probe {}", path));
                let name = path.rsplit('/').next().unwrap().to_string();
                if world.checkouts.contains(&name.as_str()) {
                    Event::Cache(CacheState::Checkout)
                } else if world.rubble.contains(&name.as_str()) {
                    Event::Cache(CacheState::Invalid)
                } else {
                    Event::Cache(CacheState::Missing)
                }
            }
            Action::Fetch(plan) => {
                let path = match plan {
                    FetchPlan::Clone { root, url, path } => {
                        log.push(format!("clone {} into {} under {}", url, path, root));
                        path
                    }
                    FetchPlan::Refresh { path } => {
                        log.push(format!("refresh {}", path));
                        path
                    }
                    FetchPlan::Reclone { url, path } => {
                        log.push(format!("reclone {} into {}", url, path));
                        path
                    }
                };
                let name = path.rsplit('/').next().unwrap().to_string();
                if world.failing_fetch == Some(name.as_str()) {
                    Event::Fetched(Some("connection reset".to_string()))
                } else {
                    Event::Fetched(None)
                }
            }
            Action::Discard(path) => {
                log.push(format!("discard {}", path));
                Event::Done
            }
            Action::SelectReview(names) => {
                log.push(format!("select among {}", names.join(" ")));
                Event::Selected(world.selection.clone())
            }
            Action::Page(file) => {
                log.push(format!("page {}", file));
                Event::Done
            }
            Action::Confirm(Question::InstallReviewed) => {
                log.push("confirm install".to_string());
                Event::Answer(world.confirm)
            }
            Action::Confirm(Question::RemoveMakeDependencies) => {
                log.push("confirm cleanup".to_string());
                Event::Answer(world.cleanup)
            }
            Action::Install(command) => {
                log.push(format!(
                    "install [{}] asdeps [{}]",
                    command.explicit.join(" "),
                    command.asdeps.join(" ")
                ));
                Event::Exit(Some(world.install_exit))
            }
            Action::Build(command) => {
                log.push(format!("build in {} {}", command.directory, command.arguments.join(" ")));
                let name = command.directory.rsplit('/').next().unwrap().to_string();
                if world.failing_build == Some(name.as_str()) {
                    Event::Exit(Some(4))
                } else {
                    Event::Exit(Some(0))
                }
            }
            Action::Uninstall(command) => {
                log.push(format!(
                    "uninstall {} {}",
                    command.arguments.join(" "),
                    command.packages.join(" ")
                ));
                Event::Exit(Some(world.uninstall_exit))
            }
            Action::Warn(error) => {
                log.push(format!("warn {:?}", error));
                Event::Done
            }
            Action::Finish(result) => {
                assert!(pipeline.is_finished());
                return (log, result);
            }
        };
        pipeline.step(event);
    }
    panic!("the run did not end: {:?}", log);
}

fn is_prompt(line: &str) -> bool {
    line.starts_with("confirm") || line.starts_with("select") || line.starts_with("page")
}

fn changes_the_system(line: &str) -> bool {
    line.starts_with("install [") || line.starts_with("build") || line.starts_with("uninstall")
}

#[test]
fn scenario_single_repo_package() {
    let mut system = world();
    system.repo = vec!["vim"];
    let (log, result) = run(&["vim"], quiet(), &system);
    assert_eq!(log, vec!["repo? vim", "install [vim] asdeps []"]);
    assert!(result.is_none());
}

#[test]
fn scenario_single_aur_package_with_repo_dependencies() {
    let mut system = world();
    system.repo = vec!["go", "git"];
    system.aur = vec![aur("yay", &["go", "git"], &[])];
    let (log, result) = run(&["yay"], quiet(), &system);
    assert_eq!(
        log,
        vec![
            "repo? yay",
            "aur? yay",
            "installed?",
            "repo? go",
            "repo? git",
            "probe /cache/ame/yay",
            "clone https://aur.archlinux.org/yay.git into /cache/ame/yay under /cache/ame",
            "install [] asdeps [go git]",
            "build in /cache/ame/yay --syncdeps --install --noconfirm",
        ]
    );
    assert!(result.is_none());
}

#[test]
fn scenario_aur_package_with_aur_dependency() {
    let mut system = world();
    system.aur = vec![aur("foo", &["bar"], &[]), aur("bar", &[], &[])];
    let (log, result) = run(&["foo"], quiet(), &system);
    let builds: Vec<&String> = log.iter().filter(|l| l.starts_with("build")).collect();
    assert_eq!(
        builds,
        vec![
            "build in /cache/ame/bar --syncdeps --install --noconfirm --asdeps",
            "build in /cache/ame/foo --syncdeps --install --noconfirm",
        ]
    );
    assert!(!log.iter().any(|l| l.starts_with("install [")));
    assert!(result.is_none());
}

#[test]
fn scenario_unknown_package() {
    let (log, result) = run(&["does-not-exist-xyz"], quiet(), &world());
    assert_eq!(log, vec!["repo? does-not-exist-xyz", "aur? does-not-exist-xyz"]);
    match result {
        Some(error) => {
            assert!(matches!(&error, PipelineError::UnknownPackage(n) if n == "does-not-exist-xyz"));
            assert_ne!(error.exit_code(), 0);
        }
        None => panic!("the run succeeded"),
    }
}

#[test]
fn scenario_user_declines_review() {
    let mut system = world();
    system.aur = vec![aur("foo", &[], &[])];
    system.confirm = false;
    let (log, result) = run(&["foo"], asking(), &system);
    assert!(log.contains(
        &"clone https://aur.archlinux.org/foo.git into /cache/ame/foo under /cache/ame".to_string()
    ));
    assert_eq!(log.last().unwrap(), "confirm install");
    assert!(!log.iter().any(|l| changes_the_system(l)));
    assert!(matches!(result, Some(PipelineError::UserCancellation)));
}

#[test]
fn scenario_build_failure_of_second_package() {
    let mut system = world();
    system.aur = vec![aur("c", &["b"], &[]), aur("b", &["a"], &[]), aur("a", &[], &[])];
    system.failing_build = Some("b");
    let (log, result) = run(&["c"], quiet(), &system);
    let builds: Vec<&String> = log.iter().filter(|l| l.starts_with("build")).collect();
    assert_eq!(
        builds,
        vec![
            "build in /cache/ame/a --syncdeps --install --noconfirm --asdeps",
            "build in /cache/ame/b --syncdeps --install --noconfirm --asdeps",
        ]
    );
    match result {
        Some(error) => {
            assert!(matches!(&error, PipelineError::BuildFailed(n, Some(4)) if n == "b"));
            assert_eq!(error.exit_code(), 9);
        }
        None => panic!("the run succeeded"),
    }
}

#[test]
fn noconfirm_never_prompts() {
    let mut system = world();
    system.repo = vec!["go", "cmake"];
    system.aur = vec![aur("foo", &["bar", "go"], &["cmake"]), aur("bar", &[], &["cmake"])];
    let (log, result) = run(&["foo", "go"], quiet(), &system);
    assert!(!log.iter().any(|l| is_prompt(l)));
    assert!(!log.iter().any(|l| l.starts_with("uninstall")));
    assert!(result.is_none());
}

#[test]
fn review_pages_the_selected_recipes_in_order() {
    let mut system = world();
    system.aur = vec![aur("foo", &["bar"], &[]), aur("bar", &[], &[])];
    system.selection = vec![1, 9, 0];
    let (log, result) = run(&["foo"], asking(), &system);
    let review: Vec<&String> = log.iter().filter(|l| is_prompt(l)).collect();
    assert_eq!(
        review,
        vec![
            "select among bar foo",
            "page /cache/ame/foo/PKGBUILD",
            "page /cache/ame/bar/PKGBUILD",
            "confirm install",
        ]
    );
    assert!(result.is_none());
}

#[test]
fn skip_review_leaves_the_review_out_but_asks_about_cleanup() {
    let mut system = world();
    system.repo = vec!["cmake"];
    system.aur = vec![aur("foo", &[], &["cmake"])];
    let options =
        Options { noconfirm: false, asdeps: false, verbosity: Verbosity::Info, skip_review: true };
    let (log, result) = run(&["foo"], options, &system);
    let prompts: Vec<&String> = log.iter().filter(|l| is_prompt(l)).collect();
    assert_eq!(prompts, vec!["confirm cleanup"]);
    assert_eq!(log.last().unwrap(), "uninstall -Rns --noconfirm cmake");
    assert!(result.is_none());
}

#[test]
fn cleanup_declined_removes_nothing() {
    let mut system = world();
    system.repo = vec!["cmake"];
    system.aur = vec![aur("foo", &[], &["cmake"])];
    system.cleanup = false;
    let (log, result) = run(&["foo"], asking(), &system);
    assert_eq!(log.last().unwrap(), "confirm cleanup");
    assert!(result.is_none());
}

#[test]
fn cleanup_failure_is_a_warning() {
    let mut system = world();
    system.repo = vec!["cmake"];
    system.aur = vec![aur("foo", &[], &["cmake"])];
    system.uninstall_exit = 1;
    let (log, result) = run(&["foo"], asking(), &system);
    assert_eq!(log.last().unwrap(), "warn CleanupFailed");
    assert!(result.is_none());
}

#[test]
fn repo_install_failure_stops_before_the_builds() {
    let mut system = world();
    system.repo = vec!["go"];
    system.aur = vec![aur("yay", &["go"], &[])];
    system.install_exit = 1;
    let (log, result) = run(&["yay"], quiet(), &system);
    assert_eq!(log.last().unwrap(), "install [] asdeps [go]");
    assert!(!log.iter().any(|l| l.starts_with("build")));
    assert!(matches!(result, Some(PipelineError::RepoInstallFailed)));
}

#[test]
fn failed_repo_query_is_fatal() {
    let mut system = world();
    system.failing_query = Some("vim");
    let (log, result) = run(&["vim"], quiet(), &system);
    assert_eq!(log, vec!["repo? vim"]);
    assert!(matches!(result, Some(PipelineError::QueryFailed(n)) if n == "vim"));
}

#[test]
fn ambiguous_registry_answer_is_fatal() {
    let mut system = world();
    system.aur = vec![aur("yay-bin", &[], &[]), aur("yay-git", &[], &[])];
    let (_, result) = run(&["yay"], quiet(), &system);
    assert!(matches!(result, Some(PipelineError::Ambiguous(n)) if n == "yay"));
}

#[test]
fn unknown_dependency_is_fatal() {
    let mut system = world();
    system.aur = vec![aur("foo", &["ghost>=2"], &[])];
    let (log, result) = run(&["foo"], quiet(), &system);
    assert!(!log.iter().any(|l| l.starts_with("probe")));
    assert!(matches!(result, Some(PipelineError::UnknownPackage(n)) if n == "ghost"));
}

#[test]
fn dependency_cycle_is_fatal() {
    let mut system = world();
    system.aur = vec![aur("ping", &["pong"], &[]), aur("pong", &["ping"], &[])];
    let (log, result) = run(&["ping"], quiet(), &system);
    assert!(!log.iter().any(|l| l.starts_with("probe")));
    assert!(matches!(result, Some(PipelineError::CyclicDependency(p)) if p == vec!["ping", "pong"]));
}

#[test]
fn installed_dependencies_are_passed_over() {
    let mut system = world();
    system.repo = vec!["go"];
    system.aur = vec![aur("yay", &["go", "git>=2", "bar"], &[])];
    system.installed = vec!["git", "bar"];
    let (log, result) = run(&["yay"], quiet(), &system);
    assert!(!log.contains(&"repo? git".to_string()));
    assert!(!log.contains(&"repo? bar".to_string()));
    assert!(log.contains(&"install [] asdeps [go]".to_string()));
    assert!(result.is_none());
}

#[test]
fn each_name_is_asked_for_once() {
    let mut system = world();
    system.repo = vec!["go"];
    system.aur = vec![aur("foo", &["go", "bar"], &["go"]), aur("bar", &["go>=1"], &[])];
    let (log, _) = run(&["foo", "go", "foo>=1"], quiet(), &system);
    assert_eq!(log.iter().filter(|l| *l == "repo? go").count(), 1);
    assert_eq!(log.iter().filter(|l| *l == "repo? foo").count(), 1);
    assert_eq!(log.iter().filter(|l| *l == "aur? bar").count(), 1);
    assert!(log.contains(&"install [go] asdeps []".to_string()));
}

#[test]
fn repo_packages_keep_their_constraints() {
    let mut system = world();
    system.repo = vec!["glibc", "vim"];
    let (log, result) = run(&["glibc>=2.38", "vim"], quiet(), &system);
    assert_eq!(log, vec!["repo? glibc", "repo? vim", "install [glibc>=2.38 vim] asdeps []"]);
    assert!(result.is_none());
}

#[test]
fn asdeps_marks_everything_as_dependency() {
    let mut system = world();
    system.repo = vec!["vim"];
    system.aur = vec![aur("yay", &[], &[])];
    let options =
        Options { noconfirm: true, asdeps: true, verbosity: Verbosity::Info, skip_review: false };
    let (log, _) = run(&["vim", "yay"], options, &system);
    assert!(log.contains(&"install [] asdeps [vim]".to_string()));
    assert!(log.contains(
        &"build in /cache/ame/yay --syncdeps --install --noconfirm --asdeps".to_string()
    ));
}

#[test]
fn checkout_in_the_cache_is_refreshed() {
    let mut system = world();
    system.aur = vec![aur("yay", &[], &[])];
    system.checkouts = vec!["yay"];
    let (log, result) = run(&["yay"], quiet(), &system);
    assert!(log.contains(&"refresh /cache/ame/yay".to_string()));
    assert!(result.is_none());
}

#[test]
fn rubble_in_the_cache_is_replaced() {
    let mut system = world();
    system.aur = vec![aur("yay", &[], &[])];
    system.rubble = vec!["yay"];
    let (log, result) = run(&["yay"], quiet(), &system);
    assert!(log
        .contains(&"reclone https://aur.archlinux.org/yay.git into /cache/ame/yay".to_string()));
    assert!(result.is_none());
}

#[test]
fn failed_clone_is_discarded_before_the_run_fails() {
    let mut system = world();
    system.aur = vec![aur("yay", &[], &[])];
    system.failing_fetch = Some("yay");
    let (log, result) = run(&["yay"], quiet(), &system);
    assert_eq!(log.last().unwrap(), "discard /cache/ame/yay");
    assert!(matches!(result, Some(PipelineError::FetchFailed(n, c))
        if n == "yay" && c == "connection reset"));
}

#[test]
fn failed_refresh_keeps_the_checkout() {
    let mut system = world();
    system.aur = vec![aur("yay", &[], &[])];
    system.checkouts = vec!["yay"];
    system.failing_fetch = Some("yay");
    let (log, result) = run(&["yay"], quiet(), &system);
    assert_eq!(log.last().unwrap(), "refresh /cache/ame/yay");
    assert!(matches!(result, Some(PipelineError::FetchFailed(n, _)) if n == "yay"));
}

#[test]
fn nothing_requested_ends_at_once() {
    let (log, result) = run(&[], asking(), &world());
    assert!(log.is_empty());
    assert!(result.is_none());
}

#[test]
fn event_that_answers_nothing_is_passed_over() {
    let mut pipeline = Pipeline::new(strings(&["vim"]), quiet(), "/cache/ame".to_string());
    assert_eq!(pipeline.stage(), Stage::Sort);
    pipeline.step(Event::Answer(true));
    pipeline.step(Event::Exit(Some(0)));
    pipeline.step(Event::Done);
    assert_eq!(pipeline.stage(), Stage::Sort);
    assert!(matches!(pipeline.action(), Action::QueryRepo(n) if n == "vim"));
}

#[test]
fn finished_run_stays_finished() {
    let mut pipeline = Pipeline::new(strings(&["nothing"]), quiet(), "/cache/ame".to_string());
    pipeline.step(Event::RepoExit(Some(1)));
    assert_eq!(pipeline.stage(), Stage::SortAur);
    pipeline.step(Event::AurResults(vec![]));
    assert_eq!(pipeline.stage(), Stage::Aborted);
    pipeline.step(Event::RepoExit(Some(0)));
    pipeline.step(Event::Answer(true));
    assert_eq!(pipeline.stage(), Stage::Aborted);
    assert!(matches!(pipeline.action(),
        Action::Finish(Some(PipelineError::UnknownPackage(n))) if n == "nothing"));
}

#[test]
fn same_answers_give_the_same_run() {
    let mut system = world();
    system.repo = vec!["go", "cmake"];
    system.aur = vec![aur("foo", &["bar", "go"], &["cmake"]), aur("bar", &[], &[])];
    let first = run(&["foo", "go"], asking(), &system).0;
    let second = run(&["foo", "go"], asking(), &system).0;
    assert_eq!(first, second);
}

#[test]
fn stages_never_go_back() {
    fn rank(stage: Stage) -> u8 {
        match stage {
            Stage::Sort | Stage::SortAur => 1,
            Stage::Installed | Stage::Resolve | Stage::ResolveAur => 2,
            Stage::Probe | Stage::Fetch(_) | Stage::Discard => 3,
            Stage::Select | Stage::Page(_) | Stage::Confirm => 4,
            Stage::Install => 5,
            Stage::Build(_) => 6,
            Stage::AskCleanup | Stage::Cleanup | Stage::Warn => 7,
            Stage::Done => 8,
            Stage::Aborted => 9,
        }
    }
    let mut pipeline = Pipeline::new(strings(&["foo", "vim"]), asking(), "/c".to_string());
    let events = vec![
        Event::RepoExit(Some(1)),
        Event::AurResults(vec![aur("foo", &["go"], &["cmake"])]),
        Event::RepoExit(Some(0)),
        Event::Installed(vec![]),
        Event::RepoExit(Some(0)),
        Event::RepoExit(Some(0)),
        Event::Cache(CacheState::Missing),
        Event::Fetched(None),
        Event::Selected(vec![0]),
        Event::Done,
        Event::Answer(true),
        Event::Exit(Some(0)),
        Event::Exit(Some(0)),
        Event::Answer(true),
        Event::Exit(Some(0)),
    ];
    let mut last = rank(pipeline.stage());
    for event in events {
        pipeline.step(event);
        let now = rank(pipeline.stage());
        assert!(now >= last);
        last = now;
    }
    assert_eq!(pipeline.stage(), Stage::Done);
}

#[test]
fn interrupt_cancels_the_run() {
    let mut pipeline = Pipeline::new(strings(&["vim"]), quiet(), "/cache/ame".to_string());
    pipeline.step(Event::Interrupt);
    assert_eq!(pipeline.stage(), Stage::Aborted);
    assert!(matches!(pipeline.action(), Action::Finish(Some(PipelineError::UserCancellation))));
}

#[test]
fn interrupted_clone_is_discarded_first() {
    let mut pipeline = Pipeline::new(strings(&["yay"]), quiet(), "/cache/ame".to_string());
    pipeline.step(Event::RepoExit(Some(1)));
    pipeline.step(Event::AurResults(vec![aur("yay", &[], &[])]));
    pipeline.step(Event::Installed(vec![]));
    assert_eq!(pipeline.stage(), Stage::Probe);
    pipeline.step(Event::Cache(CacheState::Missing));
    assert!(matches!(pipeline.action(), Action::Fetch(FetchPlan::Clone { .. })));
    pipeline.step(Event::Interrupt);
    assert!(matches!(pipeline.action(), Action::Discard(p) if p == "/cache/ame/yay"));
    pipeline.step(Event::Done);
    assert!(matches!(pipeline.action(), Action::Finish(Some(PipelineError::UserCancellation))));
}

#[test]
fn interrupted_refresh_keeps_the_checkout() {
    let mut pipeline = Pipeline::new(strings(&["yay"]), quiet(), "/cache/ame".to_string());
    pipeline.step(Event::RepoExit(Some(1)));
    pipeline.step(Event::AurResults(vec![aur("yay", &[], &[])]));
    pipeline.step(Event::Installed(vec![]));
    pipeline.step(Event::Cache(CacheState::Checkout));
    pipeline.step(Event::Interrupt);
    assert!(matches!(pipeline.action(), Action::Finish(Some(PipelineError::UserCancellation))));
}

#[test]
fn interrupt_after_the_end_changes_nothing() {
    let mut system = world();
    system.repo = vec!["vim"];
    let mut pipeline = Pipeline::new(strings(&["vim"]), quiet(), "/cache/ame".to_string());
    pipeline.step(Event::RepoExit(Some(0)));
    pipeline.step(Event::Exit(Some(0)));
    assert_eq!(pipeline.stage(), Stage::Done);
    pipeline.step(Event::Interrupt);
    assert_eq!(pipeline.stage(), Stage::Done);
    assert!(matches!(pipeline.action(), Action::Finish(None)));
}

#[test]
fn only_the_native_manager_runs_elevated() {
    let mut system = world();
    system.repo = vec!["cmake"];
    system.aur = vec![aur("foo", &[], &["cmake"])];
    let mut pipeline = Pipeline::new(strings(&["foo"]), asking(), "/cache/ame".to_string());
    let mut elevated: Vec<String> = Vec::new();
    let mut suspended: Vec<String> = Vec::new();
    for _ in 0..100 {
        let action = pipeline.action();
        let label = format!("{:?}", action).split(['(', ' ']).next().unwrap().to_string();
        if action.elevated() {
            elevated.push(label.clone());
        }
        if action.suspends_output() {
            suspended.push(label.clone());
        }
        let event = match action {
            Action::QueryRepo(name) => {
                Event::RepoExit(Some(if system.repo.contains(&name.as_str()) { 0 } else { 1 }))
            }
            Action::QueryAur(_) => Event::AurResults(vec![system.aur[0].duplicate()]),
            Action::QueryInstalled => Event::Installed(vec![]),
            Action::ProbeCache(_) => Event::Cache(CacheState::Missing),
            Action::Fetch(_) => Event::Fetched(None),
            Action::SelectReview(_) => Event::Selected(vec![0]),
            Action::Confirm(_) => Event::Answer(true),
            Action::Install(_) | Action::Build(_) | Action::Uninstall(_) => Event::Exit(Some(0)),
            Action::Finish(_) => break,
            _ => Event::Done,
        };
        pipeline.step(event);
    }
    assert_eq!(elevated, vec!["Install", "Uninstall"]);
    assert_eq!(suspended, vec!["Page", "Build"]);
}

#[test]
fn silent_registry_is_fatal() {
    let mut pipeline = Pipeline::new(strings(&["yay"]), quiet(), "/cache/ame".to_string());
    pipeline.step(Event::AurFailed);
    assert_eq!(pipeline.stage(), Stage::Sort);
    pipeline.step(Event::RepoExit(Some(1)));
    pipeline.step(Event::AurFailed);
    assert!(matches!(pipeline.action(),
        Action::Finish(Some(PipelineError::QueryFailed(n))) if n == "yay"));
}
