use file_opener::config::open_config::{OpenConfig, OpenConfigString};
use file_opener::media_type::MediaType;
use file_opener::mime_helpers::{SniffOutcome, TypeError};
use file_opener::opt::subcommand::open_or_preview::{
    command_line, command_result, Action, CommandFailed, Event, OpenError, OpenOptions, Resolver,
    RunOutcome, Stage,
};

fn pairs(list: &[(&str, &str)]) -> Vec<(String, String)> {
    list.iter().map(|(k, v)| (k.to_string(), v.to_string())).collect()
}

fn config(open: Vec<Vec<(String, String)>>, open_regex: Vec<Vec<(String, String)>>) -> OpenConfig {
    OpenConfig::load(OpenConfigString { open, open_regex, preview: vec![], preview_regex: vec![] })
}

fn options(path: &str, interactive: bool) -> OpenOptions {
    OpenOptions { path: path.to_string(), interactive, preview: false }
}

fn run_line(action: Action) -> String {
    match action {
        Action::Run(line) => line,
        other => panic!("{:?}", other),
    }
}

const FAILED: Event = Event::CommandFinished(RunOutcome::Exited(1));
const SUCCEEDED: Event = Event::CommandFinished(RunOutcome::Exited(0));

#[test]
fn path_is_appended_without_placeholder() {
    assert_eq!(command_line("zathura", "report.pdf"), "zathura report.pdf");
    assert_eq!(command_line("", "x"), " x");
    assert_eq!(command_line("echo $", "x"), "echo $ x");
    assert_eq!(command_line("echo $ f", "x"), "echo $ f x");
    assert_eq!(command_line("echo f$", "x"), "echo f$ x");
}

#[test]
fn every_placeholder_is_replaced() {
    assert_eq!(command_line("feh $f", "a.png"), "feh a.png");
    assert_eq!(command_line("cp $f $f.bak", "a"), "cp a a.bak");
    assert_eq!(command_line("$f", "a b"), "a b");
    assert_eq!(command_line("$f$f", "ab"), "abab");
    assert_eq!(command_line("$$f", "a"), "$a");
    assert_eq!(command_line("x $f", "$f"), "x $f");
    assert_eq!(command_line("x $f y", ""), "x  y");
}

#[test]
fn only_exit_status_0_is_success() {
    assert_eq!(command_result(RunOutcome::Exited(0)), Ok(()));
    assert_eq!(command_result(RunOutcome::Exited(1)), Err(CommandFailed::NonZeroExit));
    assert_eq!(command_result(RunOutcome::Exited(-1)), Err(CommandFailed::NonZeroExit));
    assert_eq!(command_result(RunOutcome::TimedOut), Err(CommandFailed::ExecutionTimedOut));
    assert_eq!(command_result(RunOutcome::SpawnFailed), Err(CommandFailed::SpawnFailed));
}

#[test]
fn pattern_match_runs_its_command_and_never_asks_for_the_type() {
    let cfg = config(
        vec![pairs(&[("application/pdf", "evince")])],
        vec![pairs(&[("\\.pdf$", "zathura")])],
    );
    let (mut resolver, action) = options("report.pdf", false).run(cfg);
    assert_eq!(run_line(action), "zathura report.pdf");
    assert_eq!(resolver.stage(), Stage::RanPattern);
    assert!(matches!(resolver.step(SUCCEEDED), Action::Done(Ok(()))));
    assert_eq!(resolver.stage(), Stage::Finished);
}

#[test]
fn unknown_type_without_patterns_falls_back_to_the_default_opener() {
    let cfg = config(vec![pairs(&[("text/plain", "less")])], vec![]);
    let (mut resolver, action) = options("blob.no-such-extension", false).run(cfg);
    assert!(matches!(action, Action::Sniff));
    assert_eq!(resolver.stage(), Stage::Sniffing);
    let action = resolver.step(Event::Sniffed(SniffOutcome::Guess("application/octet-stream".to_string())));
    assert!(matches!(action, Action::OpenDefault));
    assert_eq!(resolver.stage(), Stage::OpeningDefault);
    assert!(matches!(resolver.step(Event::DefaultOpened(true)), Action::Done(Ok(()))));
    assert_eq!(resolver.stage(), Stage::Finished);
}

#[test]
fn no_layers_at_all_fall_back_to_the_default_opener() {
    let (mut resolver, action) = options("report.pdf", false).run(config(vec![], vec![]));
    assert!(matches!(action, Action::OpenDefault));
    assert!(matches!(
        resolver.step(Event::DefaultOpened(false)),
        Action::Done(Err(OpenError::DefaultOpenFailed))
    ));
}

#[test]
fn failed_sniffing_ends_the_resolution() {
    let cfg = config(vec![pairs(&[("text/plain", "less")])], vec![]);
    let (mut resolver, action) = options("blob", false).run(cfg);
    assert!(matches!(action, Action::Sniff));
    assert!(matches!(
        resolver.step(Event::Sniffed(SniffOutcome::NotFound)),
        Action::Done(Err(OpenError::TypeUnresolvable(TypeError::NotFound)))
    ));
    assert_eq!(resolver.stage(), Stage::Finished);
    let cfg = config(vec![], vec![]);
    let (mut resolver, _) = options("blob", false).run(cfg);
    assert!(matches!(
        resolver.step(Event::Sniffed(SniffOutcome::Guess("??".to_string()))),
        Action::Done(Err(OpenError::TypeUnresolvable(TypeError::TypeUnparseable)))
    ));
    let (mut resolver, _) = options("blob", false).run(config(vec![], vec![]));
    assert!(matches!(
        resolver.step(Event::Sniffed(SniffOutcome::Unreadable)),
        Action::Done(Err(OpenError::TypeUnresolvable(TypeError::IOFailure)))
    ));
}

#[test]
fn failed_pattern_command_goes_on_to_the_next_layer() {
    let cfg = config(
        vec![pairs(&[("application/pdf", "evince")])],
        vec![pairs(&[("\\.pdf$", "zathura")]), pairs(&[("\\.txt$", "less")]), pairs(&[("^rep", "mupdf $f -z")])],
    );
    let (mut resolver, action) = options("report.pdf", false).run(cfg);
    assert_eq!(run_line(action), "zathura report.pdf");
    assert_eq!(run_line(resolver.step(FAILED)), "mupdf report.pdf -z");
    assert_eq!(resolver.stage(), Stage::RanPattern);
    assert_eq!(run_line(resolver.step(Event::CommandFinished(RunOutcome::TimedOut))), "evince report.pdf");
    assert_eq!(resolver.stage(), Stage::RanType);
    assert!(matches!(resolver.step(Event::CommandFinished(RunOutcome::SpawnFailed)), Action::OpenDefault));
    assert!(matches!(resolver.step(Event::DefaultOpened(true)), Action::Done(Ok(()))));
}

#[test]
fn type_layers_are_tried_in_order() {
    let cfg = config(
        vec![
            pairs(&[("text/html", "firefox")]),
            pairs(&[("application/*", "first $f")]),
            pairs(&[("application/pdf", "second")]),
        ],
        vec![],
    );
    let (mut resolver, action) = options("report.pdf", false).run(cfg);
    assert_eq!(run_line(action), "first report.pdf");
    assert_eq!(run_line(resolver.step(FAILED)), "second report.pdf");
    assert!(matches!(resolver.step(SUCCEEDED), Action::Done(Ok(()))));
}

#[test]
fn sniffed_type_is_looked_up_in_the_type_layers() {
    let cfg = config(vec![pairs(&[("text/plain", "less")])], vec![]);
    let (mut resolver, action) = options("README", false).run(cfg);
    assert!(matches!(action, Action::Sniff));
    let action = resolver.step(Event::Sniffed(SniffOutcome::Guess("text/plain".to_string())));
    assert_eq!(run_line(action), "less README");
    assert!(matches!(resolver.step(SUCCEEDED), Action::Done(Ok(()))));
}

#[test]
fn several_matches_are_skipped_without_a_chooser() {
    let cfg = config(
        vec![pairs(&[("application/pdf", "evince")])],
        vec![pairs(&[("\\.pdf$", "zathura"), ("^report", "less")])],
    );
    let (resolver, action) = options("report.pdf", false).run(cfg);
    assert_eq!(run_line(action), "evince report.pdf");
    assert_eq!(resolver.stage(), Stage::RanType);
}

#[test]
fn several_matches_are_offered_to_a_chooser() {
    let cfg = config(
        vec![pairs(&[("application/pdf", "evince")])],
        vec![pairs(&[("\\.pdf$", "zathura"), ("^report", "less")]), pairs(&[("pdf", "mupdf")])],
    );
    let (mut resolver, action) = options("report.pdf", true).run(cfg);
    match action {
        Action::Choose(list) => assert_eq!(list, vec!["zathura".to_string(), "less".to_string()]),
        other => panic!("{:?}", other),
    }
    assert_eq!(resolver.stage(), Stage::Choosing);
    assert_eq!(run_line(resolver.step(Event::Chosen("less".to_string()))), "less report.pdf");
    assert_eq!(resolver.stage(), Stage::RanPattern);
    assert_eq!(run_line(resolver.step(FAILED)), "mupdf report.pdf");
}

#[test]
fn cancelled_choice_goes_on_to_the_next_layer() {
    let cfg = config(
        vec![pairs(&[("application/pdf", "evince")])],
        vec![pairs(&[("\\.pdf$", "zathura"), ("^report", "less")])],
    );
    let (mut resolver, action) = options("report.pdf", true).run(cfg);
    assert!(matches!(action, Action::Choose(_)));
    assert_eq!(run_line(resolver.step(Event::ChoiceCancelled)), "evince report.pdf");
}

#[test]
fn events_out_of_turn_end_the_resolution() {
    let cfg = config(vec![], vec![pairs(&[("\\.pdf$", "zathura")])]);
    let (mut resolver, _) = options("report.pdf", false).run(cfg);
    assert!(matches!(
        resolver.step(Event::DefaultOpened(true)),
        Action::Done(Err(OpenError::OutOfTurn))
    ));
    assert_eq!(resolver.stage(), Stage::Finished);
    assert!(matches!(resolver.step(Event::Start), Action::Done(Err(OpenError::OutOfTurn))));
}

#[test]
fn preview_uses_the_preview_layers() {
    let cfg = OpenConfig::load(OpenConfigString {
        open: vec![pairs(&[("application/pdf", "evince")])],
        open_regex: vec![pairs(&[("\\.pdf$", "zathura")])],
        preview: vec![pairs(&[("application/pdf", "pdftotext $f -")])],
        preview_regex: vec![],
    });
    let opts = OpenOptions { path: "report.pdf".to_string(), interactive: false, preview: true };
    let (_, action) = opts.run(cfg);
    assert_eq!(run_line(action), "pdftotext report.pdf -");
}

#[test]
fn a_given_guess_is_used_in_place_of_the_extension() {
    let cfg = config(vec![pairs(&[("image/png", "feh")])], vec![]);
    let mut resolver = Resolver::with_guess(options("report.pdf", false), cfg, MediaType::new("image", "png"));
    assert_eq!(resolver.stage(), Stage::Ready);
    assert_eq!(run_line(resolver.step(Event::Start)), "feh report.pdf");
    let cfg = config(vec![pairs(&[("image/png", "feh")])], vec![]);
    let mut resolver = Resolver::with_guess(options("report.pdf", false), cfg, MediaType::new("image", "*"));
    assert!(matches!(resolver.step(Event::Start), Action::Sniff));
}

#[test]
fn an_answer_that_was_not_offered_counts_as_no_choice() {
    let cfg = config(
        vec![pairs(&[("application/pdf", "evince")])],
        vec![pairs(&[("\\.pdf$", "zathura"), ("^report", "less")]), pairs(&[("pdf", "mupdf")])],
    );
    let (mut resolver, action) = options("report.pdf", true).run(cfg);
    assert!(matches!(action, Action::Choose(_)));
    assert_eq!(run_line(resolver.step(Event::Chosen("rm -rf".to_string()))), "mupdf report.pdf");
    assert_eq!(resolver.stage(), Stage::RanPattern);
    assert_eq!(run_line(resolver.step(FAILED)), "evince report.pdf");
}

#[test]
fn a_path_with_directories_is_resolved_by_its_extension() {
    let cfg = config(vec![pairs(&[("application/pdf", "evince $f &")])], vec![]);
    let (resolver, action) = options("/home/me/report.pdf", false).run(cfg);
    assert_eq!(run_line(action), "evince /home/me/report.pdf &");
    assert_eq!(resolver.stage(), Stage::RanType);
}
