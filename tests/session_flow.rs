use commit_crafter::command::{CommitError, Run};
use commit_crafter::reply::GenerateError;
use commit_crafter::session::{
    parse_choice, parse_confirmation, Action, Choice, Confirmation, Event, Outcome, Phase, Session,
};

fn exited(success: bool, stdout: &str, stderr: &str) -> Run {
    Run::Exited { success, stdout: stdout.to_string(), stderr: stderr.to_string() }
}

fn line(s: &str) -> Event {
    Event::Line(s.to_string())
}

/// Counts of the calls that a run of the session asked for.
#[derive(Default)]
struct Calls {
    generations: Vec<Option<String>>,
    commits: usize,
    adds: usize,
    menus: usize,
}

impl Calls {
    fn record(&mut self, a: &Action) {
        match a {
            Action::Generate { extra, .. } => self.generations.push(extra.clone()),
            Action::CommitPrimary { .. }
            | Action::CommitPrimaryInteractive { .. }
            | Action::CommitSecondary { .. } => self.commits += 1,
            Action::AddSecondary { .. } => self.adds += 1,
            Action::AskChoice { .. } => self.menus += 1,
            _ => {}
        }
    }
}

fn step(s: &mut Session, calls: &mut Calls, e: Event) -> Action {
    assert!(s.expects(&e));
    let a = s.step(e);
    calls.record(&a);
    a
}

fn started(files: &[&str], diff: &str, calls: &mut Calls) -> (Session, Action) {
    let (mut s, a) = Session::start(files.iter().map(|f| f.to_string()).collect());
    assert!(matches!(a, Action::RunDiff { .. }));
    let a = step(&mut s, calls, Event::DiffDone(exited(true, diff, "")));
    (s, a)
}

#[test]
fn regenerate_with_extra_then_accept() {
    let mut calls = Calls::default();
    let (mut s, a) = started(&[], "nonempty", &mut calls);
    match a {
        Action::Generate { diff, extra } => {
            assert_eq!(diff, "nonempty");
            assert!(extra.is_none());
        }
        other => panic!("unexpected {:?}", other),
    }
    step(&mut s, &mut calls, Event::Generated(Ok("first".to_string())));
    assert!(matches!(step(&mut s, &mut calls, line("r")), Action::AskExtra));
    match step(&mut s, &mut calls, line("mention refactor\n")) {
        Action::Generate { diff, extra } => {
            assert_eq!(diff, "nonempty");
            assert_eq!(extra.as_deref(), Some("mention refactor"));
        }
        other => panic!("unexpected {:?}", other),
    }
    step(&mut s, &mut calls, Event::Generated(Ok("Refactor parser".to_string())));
    match step(&mut s, &mut calls, line("y")) {
        Action::CommitPrimary { args } => {
            assert_eq!(args, vec!["commit", "-m", "Refactor parser"]);
        }
        other => panic!("unexpected {:?}", other),
    }
    assert!(matches!(step(&mut s, &mut calls, Event::PrimaryDone(exited(true, "", ""))), Action::ProbeSecondary));
    let a = step(&mut s, &mut calls, Event::SecondaryProbed(false));
    assert!(matches!(a, Action::Finish(Outcome::Committed)));
    assert_eq!(calls.generations, vec![None, Some("mention refactor".to_string())]);
    assert_eq!(calls.commits, 1);
    assert!(s.is_finished());
}

#[test]
fn empty_diff_never_reaches_menu() {
    let mut calls = Calls::default();
    let (s, a) = started(&["a.txt"], "", &mut calls);
    assert!(matches!(a, Action::Finish(Outcome::NothingToCommit)));
    assert_eq!(calls.menus, 0);
    assert_eq!(calls.commits, 0);
    assert!(calls.generations.is_empty());
    assert!(s.is_finished());
    assert!(!s.expects(&line("y")));
}

#[test]
fn quit_at_menu() {
    let mut calls = Calls::default();
    let (mut s, _) = started(&[], "nonempty", &mut calls);
    step(&mut s, &mut calls, Event::Generated(Ok("m".to_string())));
    assert!(matches!(step(&mut s, &mut calls, line("N")), Action::Finish(Outcome::Quit)));
    assert_eq!(calls.commits, 0);
    assert!(s.is_finished());
}

#[test]
fn show_command_commits_nothing() {
    let mut calls = Calls::default();
    let (mut s, _) = started(&["a.txt", "b"], "nonempty", &mut calls);
    step(&mut s, &mut calls, Event::Generated(Ok("Fix bug".to_string())));
    match step(&mut s, &mut calls, line(" s ")) {
        Action::Finish(Outcome::ShowCommand(c)) => assert_eq!(c, "svn commit -m \"Fix bug\" a.txt b"),
        other => panic!("unexpected {:?}", other),
    }
    assert_eq!(calls.commits, 0);
    assert_eq!(calls.adds, 0);
    assert!(s.is_finished());
    assert!(!s.expects(&Event::PrimaryDone(exited(true, "", ""))));
}

#[test]
fn invalid_choice_asks_again() {
    let mut calls = Calls::default();
    let (mut s, _) = started(&[], "d", &mut calls);
    step(&mut s, &mut calls, Event::Generated(Ok("m".to_string())));
    match step(&mut s, &mut calls, line("maybe")) {
        Action::AskChoice { message, after_invalid } => {
            assert_eq!(message, "m");
            assert!(after_invalid);
        }
        other => panic!("unexpected {:?}", other),
    }
    assert_eq!(s.phase, Phase::AwaitingChoice);
    assert!(matches!(step(&mut s, &mut calls, line("")), Action::CommitPrimary { .. }));
}

#[test]
fn blank_extra_clears_guidance() {
    let mut calls = Calls::default();
    let (mut s, _) = started(&[], "d", &mut calls);
    step(&mut s, &mut calls, Event::Generated(Ok("m".to_string())));
    step(&mut s, &mut calls, line("r"));
    step(&mut s, &mut calls, line("shorter"));
    step(&mut s, &mut calls, Event::Generated(Ok("m2".to_string())));
    step(&mut s, &mut calls, line("R"));
    step(&mut s, &mut calls, line("   "));
    assert_eq!(calls.generations, vec![None, Some("shorter".to_string()), None]);
}

#[test]
fn failures_end_the_session() {
    let mut calls = Calls::default();
    let (mut s, _) = Session::start(vec![]);
    match step(&mut s, &mut calls, Event::DiffDone(exited(false, "", "E155007"))) {
        Action::Finish(Outcome::DiffFailed(_)) => {}
        other => panic!("unexpected {:?}", other),
    }
    let (mut s, _) = started(&[], "d", &mut calls);
    let e = Event::Generated(Err(GenerateError::Network("timeout".to_string())));
    assert!(matches!(step(&mut s, &mut calls, e), Action::Finish(Outcome::GenerationFailed(_))));
    let (mut s, _) = started(&["x"], "d", &mut calls);
    step(&mut s, &mut calls, Event::Generated(Ok("m".to_string())));
    step(&mut s, &mut calls, line("y"));
    match step(&mut s, &mut calls, Event::PrimaryDone(exited(false, "", "E155011: out of date"))) {
        Action::Finish(Outcome::PrimaryFailed { error: CommitError::Rejected(e), command }) => {
            assert_eq!(e, "E155011: out of date");
            assert_eq!(command, "svn commit -m \"m\" x");
        }
        other => panic!("unexpected {:?}", other),
    }
}

#[test]
fn password_prompt_retries_interactively() {
    let mut calls = Calls::default();
    let (mut s, _) = started(&[], "d", &mut calls);
    step(&mut s, &mut calls, Event::Generated(Ok("m".to_string())));
    step(&mut s, &mut calls, line("y"));
    let a = step(&mut s, &mut calls, Event::PrimaryDone(exited(false, "", "svn: E215004: 无法取得密码")));
    assert!(matches!(a, Action::CommitPrimaryInteractive { .. }));
    let a = step(&mut s, &mut calls, Event::InteractiveDone(exited(false, "", "")));
    assert!(matches!(
        a,
        Action::Finish(Outcome::PrimaryFailed { error: CommitError::PasswordRejected, .. })
    ));
}

#[test]
fn secondary_commit_flow() {
    let mut calls = Calls::default();
    let (mut s, _) = started(&[], "d", &mut calls);
    step(&mut s, &mut calls, Event::Generated(Ok("m".to_string())));
    step(&mut s, &mut calls, line("y"));
    step(&mut s, &mut calls, Event::PrimaryDone(exited(true, "", "")));
    match step(&mut s, &mut calls, Event::SecondaryProbed(true)) {
        Action::AskSecondary { add_command, commit_command } => {
            assert_eq!(add_command, "git add .");
            assert_eq!(commit_command, "git commit -m \"m\"");
        }
        other => panic!("unexpected {:?}", other),
    }
    match step(&mut s, &mut calls, line("Y")) {
        Action::AddSecondary { args } => assert_eq!(args, vec!["add", "."]),
        other => panic!("unexpected {:?}", other),
    }
    match step(&mut s, &mut calls, Event::SecondaryAddDone(exited(true, "", ""))) {
        Action::CommitSecondary { args } => assert_eq!(args, vec!["commit", "-m", "m"]),
        other => panic!("unexpected {:?}", other),
    }
    let a = step(&mut s, &mut calls, Event::SecondaryCommitDone(exited(false, "", "nothing to commit, working tree clean")));
    assert!(matches!(a, Action::Finish(Outcome::SecondaryUnchanged)));
    assert_eq!(calls.commits, 2);
}

#[test]
fn secondary_declined_or_misread() {
    for (answer, declined) in [("n", true), ("later", false)] {
        let mut calls = Calls::default();
        let (mut s, _) = started(&[], "d", &mut calls);
        step(&mut s, &mut calls, Event::Generated(Ok("m".to_string())));
        step(&mut s, &mut calls, line("y"));
        step(&mut s, &mut calls, Event::PrimaryDone(exited(true, "", "")));
        step(&mut s, &mut calls, Event::SecondaryProbed(true));
        let a = step(&mut s, &mut calls, line(answer));
        if declined {
            assert!(matches!(a, Action::Finish(Outcome::SecondaryDeclined)));
        } else {
            assert!(matches!(a, Action::Finish(Outcome::SecondaryInvalidChoice)));
        }
        assert_eq!(calls.adds, 0);
    }
}

#[test]
fn menu_answers() {
    assert_eq!(parse_choice(""), Choice::Accept);
    assert_eq!(parse_choice("Y\n"), Choice::Accept);
    assert_eq!(parse_choice("s"), Choice::Show);
    assert_eq!(parse_choice("R"), Choice::Regenerate);
    assert_eq!(parse_choice("n now"), Choice::Quit);
    assert_eq!(parse_choice("yes"), Choice::Invalid);
    assert_eq!(parse_confirmation("\n"), Confirmation::Proceed);
    assert_eq!(parse_confirmation("N"), Confirmation::Skip);
    assert_eq!(parse_confirmation("x"), Confirmation::Invalid);
}

#[test]
fn confirmation_reads_the_whole_answer() {
    let mut calls = Calls::default();
    let (mut s, _) = started(&[], "d", &mut calls);
    step(&mut s, &mut calls, Event::Generated(Ok("m".to_string())));
    step(&mut s, &mut calls, line("y"));
    step(&mut s, &mut calls, Event::PrimaryDone(exited(true, "", "")));
    step(&mut s, &mut calls, Event::SecondaryProbed(true));
    let a = step(&mut s, &mut calls, line("y please\n"));
    assert!(matches!(a, Action::Finish(Outcome::SecondaryInvalidChoice)));
    assert_eq!(calls.adds, 0);
    assert_eq!(parse_confirmation("  Y \n"), Confirmation::Proceed);
    assert_eq!(parse_confirmation("n thanks"), Confirmation::Invalid);
}
