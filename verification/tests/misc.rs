use ame::detect::{detect, pacdiff, warning_wanted, Pacdiff};
use ame::error::PipelineError;
use ame::logging::{symbol, LogHandler, OutputType};
use ame::package::Verbosity;
use ame::paging::{join, page_string};
use ame::prompt::{PromptDefault, Question};
use ame::ver::{ver, BannerLine};

fn words(list: &[&str]) -> Vec<String> {
    list.iter().map(|n| n.to_string()).collect()
}

#[test]
fn exit_codes_differ_by_kind_and_are_not_zero() {
    let errors = vec![
        PipelineError::UnknownPackage("a".to_string()),
        PipelineError::CyclicDependency(words(&["a", "b"])),
        PipelineError::Ambiguous("a".to_string()),
        PipelineError::QueryFailed("a".to_string()),
        PipelineError::FetchFailed("a".to_string(), "no route".to_string()),
        PipelineError::UserCancellation,
        PipelineError::RepoInstallFailed,
        PipelineError::BuildFailed("a".to_string(), Some(2)),
        PipelineError::CleanupFailed,
    ];
    let codes: Vec<i32> = errors.iter().map(|e| e.exit_code()).collect();
    assert_eq!(codes, vec![2, 3, 4, 5, 6, 7, 8, 9, 10]);
    assert_eq!(
        PipelineError::BuildFailed("b".to_string(), None).exit_code(),
        PipelineError::BuildFailed("a".to_string(), Some(2)).exit_code()
    );
}

#[test]
fn only_the_failed_cleanup_is_a_warning() {
    assert!(PipelineError::CleanupFailed.is_warning());
    assert!(!PipelineError::UserCancellation.is_warning());
    assert!(!PipelineError::BuildFailed("a".to_string(), Some(1)).is_warning());
}

#[test]
fn duplicate_of_an_error_keeps_what_it_carries() {
    let copy = PipelineError::FetchFailed("yay".to_string(), "timeout".to_string()).duplicate();
    assert!(matches!(copy, PipelineError::FetchFailed(n, c) if n == "yay" && c == "timeout"));
    let copy = PipelineError::CyclicDependency(words(&["a", "b"])).duplicate();
    assert!(matches!(copy, PipelineError::CyclicDependency(p) if p == vec!["a", "b"]));
}

#[test]
fn verbosity_shows_its_own_level_and_the_quieter_ones() {
    assert!(Verbosity::Info.shows(Verbosity::Error));
    assert!(Verbosity::Info.shows(Verbosity::Warning));
    assert!(Verbosity::Info.shows(Verbosity::Info));
    assert!(!Verbosity::Info.shows(Verbosity::Debug));
    assert!(!Verbosity::Error.shows(Verbosity::Warning));
    assert!(Verbosity::Trace.shows(Verbosity::Trace));
    assert_eq!(Verbosity::Error.rank(), 0);
    assert_eq!(Verbosity::Trace.rank(), 4);
}

#[test]
fn default_handler_logs_information_to_stderr() {
    let handler = LogHandler::default();
    assert_eq!(handler.output_type(), OutputType::Stderr);
    assert!(!handler.uwu_enabled());
    let line = handler.log_info("ready".to_string()).unwrap();
    assert_eq!(line.level, Some(Verbosity::Info));
    assert_eq!(line.output, OutputType::Stderr);
    assert_eq!(line.message, "ready");
    assert!(handler.log_error("bad".to_string()).is_some());
    assert!(handler.log_warning("hm".to_string()).is_some());
    assert!(handler.log_debug("detail".to_string()).is_none());
    assert!(handler.log_trace("more".to_string()).is_none());
}

#[test]
fn handler_follows_the_level_set() {
    let mut handler = LogHandler::default();
    handler.set_verbosity(Verbosity::Error);
    assert!(handler.log_error("bad".to_string()).is_some());
    assert!(handler.log_warning("hm".to_string()).is_none());
    assert!(!handler.is_loggable(Verbosity::Info));
    handler.set_verbosity(Verbosity::Trace);
    let line = handler.log_trace("more".to_string()).unwrap();
    assert_eq!(line.level, Some(Verbosity::Trace));
    assert!(handler.log_debug("detail".to_string()).is_some());
}

#[test]
fn handler_switches_between_outputs() {
    let mut handler = LogHandler::default();
    assert!(!handler.new_progress_spinner());
    assert_eq!(handler.output_type(), OutputType::Progress);
    handler.new_multi_progress();
    assert_eq!(handler.output_type(), OutputType::MultiProgress);
    assert!(handler.new_progress_spinner());
    assert_eq!(handler.output_type(), OutputType::MultiProgress);
    handler.reset_output_type();
    assert_eq!(handler.output_type(), OutputType::Stdout);
    handler.set_output_type(OutputType::Stderr);
    assert_eq!(handler.log_error("bad".to_string()).unwrap().output, OutputType::Stderr);
    handler.set_uwu_enabled(true);
    assert!(handler.uwu_enabled());
}

#[test]
fn handler_prints_a_list_behind_separators() {
    let handler = LogHandler::default();
    let line = handler.print_list(&words(&["a", "b", "c"]), "\n  ");
    assert_eq!(line.message, "\n  a\n  b\n  c");
    assert_eq!(line.level, None);
    assert_eq!(handler.print_list(&vec![], ", ").message, "");
    assert_eq!(handler.print_newline().message, "\n");
}

#[test]
fn handler_prompt_carries_the_default() {
    let handler = LogHandler::default();
    let prompt = handler.prompt("Continue?".to_string(), PromptDefault::No);
    assert_eq!(prompt.question, "Continue?");
    assert_eq!(prompt.default, Some(false));
    assert_eq!(handler.prompt("a".to_string(), PromptDefault::Yes).default, Some(true));
    assert_eq!(handler.prompt("a".to_string(), PromptDefault::Unset).default, None);
}

#[test]
fn symbols_of_the_levels() {
    assert_eq!(symbol(Verbosity::Error), "X");
    assert_eq!(symbol(Verbosity::Warning), "!");
    assert_eq!(symbol(Verbosity::Info), "\u{2756}");
    assert_eq!(symbol(Verbosity::Debug), "\u{2318}");
    assert_eq!(symbol(Verbosity::Trace), "\u{1F5F2}");
}

#[test]
fn questions_have_their_words_and_default_to_yes() {
    assert_eq!(Question::InstallReviewed.text(), "Do you still want to install these packages?");
    assert_eq!(Question::RemoveMakeDependencies.text(), "Remove installed make-dependencies?");
    assert_eq!(Question::InstallReviewed.default_answer(), PromptDefault::Yes);
    assert_eq!(Question::RemoveMakeDependencies.default_answer(), PromptDefault::Yes);
}

#[test]
fn detect_takes_the_lines_that_are_not_empty() {
    assert_eq!(detect("/etc/a.pacnew\n/etc/b.pacsave\n"), vec!["/etc/a.pacnew", "/etc/b.pacsave"]);
    assert_eq!(detect("\n\n/etc/a.pacnew\n\n/etc/b.pacnew"), vec!["/etc/a.pacnew", "/etc/b.pacnew"]);
    assert_eq!(detect("one"), vec!["one"]);
    assert_eq!(detect(""), Vec::<String>::new());
    assert_eq!(detect("\n"), Vec::<String>::new());
    assert_eq!(detect("/etc/ä.pacnew\nx"), vec!["/etc/ä.pacnew", "x"]);
}

#[test]
fn pacdiff_runs_only_when_wanted() {
    assert_eq!(pacdiff(0, true, &vec![]), Pacdiff::ReportNone);
    assert_eq!(pacdiff(0, true, &vec![true, true]), Pacdiff::ReportNone);
    assert_eq!(pacdiff(2, true, &vec![]), Pacdiff::AskRun);
    assert_eq!(pacdiff(2, true, &vec![false]), Pacdiff::Leave);
    assert_eq!(pacdiff(2, true, &vec![true]), Pacdiff::WarnAndAsk);
    assert_eq!(pacdiff(2, true, &vec![true, false]), Pacdiff::Leave);
    assert_eq!(pacdiff(2, true, &vec![true, true]), Pacdiff::Run);
    assert_eq!(pacdiff(2, false, &vec![true]), Pacdiff::Run);
    assert_eq!(pacdiff(2, false, &vec![false]), Pacdiff::Leave);
}

#[test]
fn warning_is_wanted_unless_set_to_zero() {
    assert!(warning_wanted(None));
    assert!(warning_wanted(Some(&"1".to_string())));
    assert!(warning_wanted(Some(&"".to_string())));
    assert!(warning_wanted(Some(&"00".to_string())));
    assert!(!warning_wanted(Some(&"0".to_string())));
}

#[test]
fn join_puts_the_separator_between_the_parts() {
    assert_eq!(join(&words(&["a", "b", "c"]), ", "), "a, b, c");
    assert_eq!(join(&words(&["a"]), ", "), "a");
    assert_eq!(join(&vec![], ", "), "");
}

#[test]
fn page_string_shows_the_command_line_and_the_keys() {
    assert_eq!(
        page_string(&words(&["ame", "-S", "yay"])),
        "ame -S yay | Q: quit | /: Search | n: next result | p: previous result"
    );
    assert_eq!(
        page_string(&vec![]),
        " | Q: quit | /: Search | n: next result | p: previous result"
    );
}

#[test]
fn ver_gives_the_banner() {
    let lines = ver("3.6.0");
    assert_eq!(lines.len(), 14);
    assert!(matches!(&lines[0], BannerLine::Blank));
    assert!(matches!(&lines[1], BannerLine::Info(t) if t == "ame - 3.6.0"));
    assert!(matches!(&lines[3], BannerLine::Info(t) if t == "Contributors:"));
    assert!(matches!(&lines[4], BannerLine::Plain(t) if t == "- axtlos <axtlos@salyut.one>"));
    assert!(matches!(&lines[7], BannerLine::Plain(t) if t == "- generic <mdc028@bucknell.edu>"));
    assert!(matches!(&lines[9], BannerLine::Info(t)
        if t == "This software is licensed under the BSD 3-Clause license."));
    assert!(matches!(&lines[10], BannerLine::Info(t) if t == "All source code is available at:"));
    assert!(matches!(&lines[13], BannerLine::Blank));
}

#[test]
fn ver_paints_the_link_bold_and_purple() {
    let lines = ver("3.6.0");
    assert!(matches!(&lines[12], BannerLine::Plain(t)
        if t == "\u{1b}[1;35mhttps://git.getcryst.al/crystal/ame\u{1b}[0m"));
}

#[test]
fn lines_leaves_the_empty_ones_out() {
    assert_eq!(ame::text::lines("vim\ngit\n\nzsh"), vec!["vim", "git", "zsh"]);
    assert_eq!(ame::text::lines("\n\n"), Vec::<String>::new());
}
