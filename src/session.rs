//! The interactive commit session: a state machine from the current state
//! and an event (a tool run, a generated message, a line typed by the user)
//! to the next state and the action that the caller performs next.
use vstd::prelude::*;
use crate::command::{
    commit_args,
    commit_args_spec,
    diff_args,
    diff_args_spec,
    diff_result,
    diff_result_spec,
    manual_command,
    manual_command_spec,
    needs_password,
    needs_password_spec,
    nothing_to_commit,
    nothing_to_commit_spec,
    secondary_add_args,
    secondary_add_args_spec,
    secondary_add_command,
    secondary_add_command_spec,
    secondary_commit_args,
    secondary_commit_args_spec,
    secondary_commit_command,
    secondary_commit_command_spec,
    CommitError,
    DiffError,
    Run,
};
use crate::reply::GenerateError;
use crate::text::{first_word, first_word_of, opt_text, trim, trimmed};

verus! {

/// Where the session stands.
#[derive(PartialEq, Eq, Structural, Clone, Copy, Debug)]
pub enum Phase {
    CollectingDiff,
    Generating,
    AwaitingChoice,
    AwaitingExtra,
    CommittingPrimary,
    CommittingInteractive,
    ProbingSecondary,
    ConfirmingSecondary,
    AddingSecondary,
    CommittingSecondary,
    Finished,
}

/// The user's answer at the top-level menu.
#[derive(PartialEq, Eq, Structural, Clone, Copy, Debug)]
pub enum Choice {
    Accept,
    Show,
    Regenerate,
    Quit,
    Invalid,
}

/// The user's answer to the secondary-commit confirmation.
#[derive(PartialEq, Eq, Structural, Clone, Copy, Debug)]
pub enum Confirmation {
    Proceed,
    Skip,
    Invalid,
}

/// What happened since the last action.
#[derive(Debug)]
pub enum Event {
    /// The diff command ran.
    DiffDone(Run),
    /// The message generation finished.
    Generated(Result<String, GenerateError>),
    /// The user typed a line.
    Line(String),
    /// The primary commit ran.
    PrimaryDone(Run),
    /// The primary commit, attached to the terminal, ran.
    InteractiveDone(Run),
    /// Whether the working directory is a repository of the secondary tool.
    SecondaryProbed(bool),
    /// The secondary add ran.
    SecondaryAddDone(Run),
    /// The secondary commit ran.
    SecondaryCommitDone(Run),
}

/// How a session ended.
#[derive(Debug)]
pub enum Outcome {
    /// The diff is empty: there is nothing to commit.
    NothingToCommit,
    DiffFailed(DiffError),
    GenerationFailed(GenerateError),
    /// The user asked for the command line instead of a commit.
    ShowCommand(String),
    /// The user left without committing.
    Quit,
    /// The primary commit failed; the line that would commit by hand.
    PrimaryFailed { error: CommitError, command: String },
    /// The primary commit succeeded; there is no secondary repository.
    Committed,
    /// Both commits succeeded.
    SecondaryCommitted,
    /// The primary commit succeeded; the secondary tool had nothing to commit.
    SecondaryUnchanged,
    /// The primary commit succeeded; the user declined the secondary commit.
    SecondaryDeclined,
    /// The primary commit succeeded; the answer to the secondary confirmation
    /// was not understood, so the secondary commit was skipped.
    SecondaryInvalidChoice,
    /// The primary commit succeeded; the secondary add failed.
    SecondaryAddFailed(CommitError),
    /// The primary commit succeeded; the secondary commit failed.
    SecondaryCommitFailed(CommitError),
}

/// What the caller does next.
#[derive(Debug)]
pub enum Action {
    /// Run the primary tool with these arguments to collect the diff.
    RunDiff { args: Vec<String> },
    /// Generate a commit message for this diff and extra guidance.
    Generate { diff: String, extra: Option<String> },
    /// Show the message and the menu, and read the user's choice.
    AskChoice { message: String, after_invalid: bool },
    /// Read an optional extra instruction.
    AskExtra,
    /// Run the primary tool with these arguments to commit.
    CommitPrimary { args: Vec<String> },
    /// Run the same commit again, attached to the terminal, so that the user
    /// can type a password.
    CommitPrimaryInteractive { args: Vec<String> },
    /// The primary commit succeeded: find out whether the working directory
    /// is also a repository of the secondary tool.
    ProbeSecondary,
    /// Show these two command lines and ask whether to run them.
    AskSecondary { add_command: String, commit_command: String },
    /// Run the secondary tool with these arguments to add.
    AddSecondary { args: Vec<String> },
    /// Run the secondary tool with these arguments to commit.
    CommitSecondary { args: Vec<String> },
    /// The session is over.
    Finish(Outcome),
}

/// An action that changes a repository.
pub open spec fn changes_repository(a: Action) -> bool {
    match a {
        Action::CommitPrimary { .. } => true,
        Action::CommitPrimaryInteractive { .. } => true,
        Action::AddSecondary { .. } => true,
        Action::CommitSecondary { .. } => true,
        _ => false,
    }
}

/// The menu answer that a word stands for, case-insensitively; no word
/// accepts.
pub open spec fn choice_of(word: Seq<char>) -> Choice {
    if word.len() == 0 || word == "y"@ || word == "Y"@ {
        Choice::Accept
    } else if word == "s"@ || word == "S"@ {
        Choice::Show
    } else if word == "r"@ || word == "R"@ {
        Choice::Regenerate
    } else if word == "n"@ || word == "N"@ {
        Choice::Quit
    } else {
        Choice::Invalid
    }
}

/// The confirmation that a trimmed answer stands for, case-insensitively; an
/// empty answer proceeds.
pub open spec fn confirmation_of(answer: Seq<char>) -> Confirmation {
    if answer.len() == 0 || answer == "y"@ || answer == "Y"@ {
        Confirmation::Proceed
    } else if answer == "n"@ || answer == "N"@ {
        Confirmation::Skip
    } else {
        Confirmation::Invalid
    }
}

/// The extra guidance that a typed line gives: none where it is blank.
pub open spec fn extra_of(line: Seq<char>) -> Option<Seq<char>> {
    if trimmed(line).len() == 0 {
        None
    } else {
        Some(trimmed(line))
    }
}

/// The menu answer in a typed line: its first word.
pub fn parse_choice(line: &str) -> (r: Choice)
    ensures
        r == choice_of(first_word_of(line@)),
{
    let w = first_word(line);
    if w.unicode_len() == 0 || w == String::from_str("y") || w == String::from_str("Y") {
        Choice::Accept
    } else if w == String::from_str("s") || w == String::from_str("S") {
        Choice::Show
    } else if w == String::from_str("r") || w == String::from_str("R") {
        Choice::Regenerate
    } else if w == String::from_str("n") || w == String::from_str("N") {
        Choice::Quit
    } else {
        Choice::Invalid
    }
}

/// The confirmation in a typed line: the whole line, trimmed.
pub fn parse_confirmation(line: &str) -> (r: Confirmation)
    ensures
        r == confirmation_of(trimmed(line@)),
{
    let w = trim(line);
    if w.unicode_len() == 0 || w == String::from_str("y") || w == String::from_str("Y") {
        Confirmation::Proceed
    } else if w == String::from_str("n") || w == String::from_str("N") {
        Confirmation::Skip
    } else {
        Confirmation::Invalid
    }
}

/// The phases in which a message has been generated.
pub open spec fn has_message_phase(p: Phase) -> bool {
    match p {
        Phase::CollectingDiff | Phase::Generating | Phase::Finished => false,
        _ => true,
    }
}

/// The event that a phase waits for.
pub open spec fn expects(p: Phase, e: Event) -> bool {
    match e {
        Event::DiffDone(_) => p == Phase::CollectingDiff,
        Event::Generated(_) => p == Phase::Generating,
        Event::Line(_) => p == Phase::AwaitingChoice || p == Phase::AwaitingExtra || p
            == Phase::ConfirmingSecondary,
        Event::PrimaryDone(_) => p == Phase::CommittingPrimary,
        Event::InteractiveDone(_) => p == Phase::CommittingInteractive,
        Event::SecondaryProbed(_) => p == Phase::ProbingSecondary,
        Event::SecondaryAddDone(_) => p == Phase::AddingSecondary,
        Event::SecondaryCommitDone(_) => p == Phase::CommittingSecondary,
    }
}

/// A commit session over a file selector (empty: all changes).
pub struct Session {
    pub files: Vec<String>,
    pub diff: String,
    pub extra: Option<String>,
    pub message: Option<String>,
    pub phase: Phase,
}

/// The message of a session, empty where there is none.
pub open spec fn message_of(s: Session) -> Seq<char> {
    match s.message {
        Some(m) => m@,
        None => Seq::empty(),
    }
}

/// `a` ends the session with `o`, and `t` is finished.
pub open spec fn finishes(t: Session, a: Action, o: Outcome) -> bool {
    t.phase == Phase::Finished && a == Action::Finish(o)
}

/// How the session answers a menu choice.
pub open spec fn choice_post(s: Session, c: Choice, t: Session, a: Action) -> bool {
    let files = s.files.deep_view();
    let msg = message_of(s);
    match c {
        Choice::Accept => t.phase == Phase::CommittingPrimary && match a {
            Action::CommitPrimary { args } => args.deep_view() == commit_args_spec(msg, files),
            _ => false,
        },
        Choice::Show => t.phase == Phase::Finished && match a {
            Action::Finish(Outcome::ShowCommand(cmd)) => cmd@ == manual_command_spec(msg, files),
            _ => false,
        },
        Choice::Regenerate => t.phase == Phase::AwaitingExtra && a is AskExtra,
        Choice::Quit => finishes(t, a, Outcome::Quit),
        Choice::Invalid => t.phase == Phase::AwaitingChoice && match a {
            Action::AskChoice { message, after_invalid } => message@ == msg && after_invalid,
            _ => false,
        },
    }
}

/// How a failed primary commit ends the session.
pub open spec fn primary_failed(s: Session, error: CommitError, t: Session, a: Action) -> bool {
    t.phase == Phase::Finished && match a {
        Action::Finish(Outcome::PrimaryFailed { error: e, command }) => e == error && command@
            == manual_command_spec(message_of(s), s.files.deep_view()),
        _ => false,
    }
}

/// One step of the session: `s` takes event `e` and becomes `t`, asking for `a`.
pub open spec fn step_post(s: Session, e: Event, t: Session, a: Action) -> bool {
    let files = s.files.deep_view();
    let msg = message_of(s);
    &&& !(e is DiffDone) ==> t.diff@ == s.diff@
    &&& !(e is Generated) ==> message_of(t) == message_of(s)
    &&& !(e is DiffDone || (e is Line && s.phase == Phase::AwaitingExtra)) ==> opt_text(t.extra)
        == opt_text(s.extra)
    &&& match e {
        Event::DiffDone(run) => match diff_result_spec(run) {
            Err(d) => finishes(t, a, Outcome::DiffFailed(d)),
            Ok(text) => if text.len() == 0 {
                finishes(t, a, Outcome::NothingToCommit)
            } else {
                t.phase == Phase::Generating && t.diff@ == text && t.extra is None && match a {
                    Action::Generate { diff, extra } => diff@ == text && extra is None,
                    _ => false,
                }
            },
        },
        Event::Generated(g) => match g {
            Err(err) => finishes(t, a, Outcome::GenerationFailed(err)),
            Ok(m) => t.phase == Phase::AwaitingChoice && message_of(t) == m@ && match a {
                Action::AskChoice { message, after_invalid } => message@ == m@ && !after_invalid,
                _ => false,
            },
        },
        Event::Line(line) => if s.phase == Phase::AwaitingChoice {
            choice_post(s, choice_of(first_word_of(line@)), t, a)
        } else if s.phase == Phase::AwaitingExtra {
            t.phase == Phase::Generating && opt_text(t.extra) == extra_of(line@) && match a {
                Action::Generate { diff, extra } => diff@ == s.diff@ && opt_text(extra) == extra_of(
                    line@,
                ),
                _ => false,
            }
        } else {
            match confirmation_of(trimmed(line@)) {
                Confirmation::Proceed => t.phase == Phase::AddingSecondary && match a {
                    Action::AddSecondary { args } => args.deep_view() == secondary_add_args_spec(
                        files,
                    ),
                    _ => false,
                },
                Confirmation::Skip => finishes(t, a, Outcome::SecondaryDeclined),
                Confirmation::Invalid => finishes(t, a, Outcome::SecondaryInvalidChoice),
            }
        },
        Event::PrimaryDone(run) => match run {
            Run::NotStarted(err) => primary_failed(s, CommitError::Launch(err), t, a),
            Run::Exited { success, stdout, stderr } => if success {
                t.phase == Phase::ProbingSecondary && a is ProbeSecondary
            } else if needs_password_spec(stderr@) {
                t.phase == Phase::CommittingInteractive && match a {
                    Action::CommitPrimaryInteractive { args } => args.deep_view()
                        == commit_args_spec(msg, files),
                    _ => false,
                }
            } else {
                primary_failed(s, CommitError::Rejected(stderr), t, a)
            },
        },
        Event::InteractiveDone(run) => match run {
            Run::NotStarted(err) => primary_failed(s, CommitError::Launch(err), t, a),
            Run::Exited { success, .. } => if success {
                t.phase == Phase::ProbingSecondary && a is ProbeSecondary
            } else {
                primary_failed(s, CommitError::PasswordRejected, t, a)
            },
        },
        Event::SecondaryProbed(found) => if found {
            t.phase == Phase::ConfirmingSecondary && match a {
                Action::AskSecondary { add_command, commit_command } => add_command@
                    == secondary_add_command_spec(files) && commit_command@
                    == secondary_commit_command_spec(msg),
                _ => false,
            }
        } else {
            finishes(t, a, Outcome::Committed)
        },
        Event::SecondaryAddDone(run) => match run {
            Run::NotStarted(err) => finishes(
                t,
                a,
                Outcome::SecondaryAddFailed(CommitError::Launch(err)),
            ),
            Run::Exited { success, stdout, stderr } => if success {
                t.phase == Phase::CommittingSecondary && match a {
                    Action::CommitSecondary { args } => args.deep_view()
                        == secondary_commit_args_spec(msg),
                    _ => false,
                }
            } else {
                finishes(t, a, Outcome::SecondaryAddFailed(CommitError::Rejected(stderr)))
            },
        },
        Event::SecondaryCommitDone(run) => match run {
            Run::NotStarted(err) => finishes(
                t,
                a,
                Outcome::SecondaryCommitFailed(CommitError::Launch(err)),
            ),
            Run::Exited { success, stdout, stderr } => if success {
                finishes(t, a, Outcome::SecondaryCommitted)
            } else if nothing_to_commit_spec(stderr@) {
                finishes(t, a, Outcome::SecondaryUnchanged)
            } else {
                finishes(t, a, Outcome::SecondaryCommitFailed(CommitError::Rejected(stderr)))
            },
        },
    }
}

/// Choosing to see the command line never changes a repository: the action
/// is the command line, the session is over, and it waits for no event, so
/// no add or commit follows.
pub proof fn lemma_show_changes_nothing(s: Session, line: String, t: Session, a: Action)
    requires
        s.wf(),
        s.phase == Phase::AwaitingChoice,
        choice_of(first_word_of(line@)) == Choice::Show,
        step_post(s, Event::Line(line), t, a),
    ensures
        !changes_repository(a),
        a matches Action::Finish(Outcome::ShowCommand(_)),
        t.phase == Phase::Finished,
        forall|e: Event| !expects(t.phase, e),
{
}

/// An empty diff ends the session before the menu: the only action is the
/// notice that there is nothing to commit, and no event follows.
pub proof fn lemma_empty_diff_skips_menu(s: Session, run: Run, t: Session, a: Action)
    requires
        s.phase == Phase::CollectingDiff,
        diff_result_spec(run) matches Ok(d) && d.len() == 0,
        step_post(s, Event::DiffDone(run), t, a),
    ensures
        !changes_repository(a),
        a matches Action::Finish(Outcome::NothingToCommit),
        t.phase == Phase::Finished,
        forall|e: Event| !expects(t.phase, e),
{
}

/// Quitting at the menu ends the session with no change to a repository.
pub proof fn lemma_quit_changes_nothing(s: Session, line: String, t: Session, a: Action)
    requires
        s.wf(),
        s.phase == Phase::AwaitingChoice,
        choice_of(first_word_of(line@)) == Choice::Quit,
        step_post(s, Event::Line(line), t, a),
    ensures
        !changes_repository(a),
        a matches Action::Finish(Outcome::Quit),
        t.phase == Phase::Finished,
        forall|e: Event| !expects(t.phase, e),
{
}

/// Regenerating asks for a new message for the same diff, with the typed
/// guidance when the line is not blank, and without any when it is.
pub proof fn lemma_regenerate_reuses_diff(
    s: Session,
    choice: String,
    t: Session,
    a: Action,
    line: String,
    u: Session,
    b: Action,
)
    requires
        s.wf(),
        s.phase == Phase::AwaitingChoice,
        choice_of(first_word_of(choice@)) == Choice::Regenerate,
        step_post(s, Event::Line(choice), t, a),
        step_post(t, Event::Line(line), u, b),
    ensures
        a is AskExtra,
        u.phase == Phase::Generating,
        b matches Action::Generate { diff, extra } && diff@ == s.diff@ && opt_text(extra)
            == extra_of(line@),
        trimmed(line@).len() == 0 ==> b matches Action::Generate { extra: None, .. },
{
}

impl Session {
    /// The session's invariant: past the diff, the diff is non-empty; once
    /// generated, the message is held.
    pub open spec fn wf(&self) -> bool {
        &&& (self.phase != Phase::CollectingDiff && self.phase != Phase::Finished)
            ==> self.diff@.len() > 0
        &&& has_message_phase(self.phase) ==> self.message is Some
    }

    /// A new session over `files`, and its first action: collect the diff.
    pub fn start(files: Vec<String>) -> (r: (Session, Action))
        ensures
            r.0.wf(),
            r.0.phase == Phase::CollectingDiff,
            r.0.files == files,
            match r.1 {
                Action::RunDiff { args } => args.deep_view() == diff_args_spec(files.deep_view()),
                _ => false,
            },
    {
        let args = diff_args(&files);
        let s = Session {
            files,
            diff: String::new(),
            extra: None,
            message: None,
            phase: Phase::CollectingDiff,
        };
        (s, Action::RunDiff { args })
    }

    /// Whether the session waits for `e`.
    pub fn expects(&self, e: &Event) -> (r: bool)
        ensures
            r == expects(self.phase, *e),
    {
        match e {
            Event::DiffDone(_) => self.phase == Phase::CollectingDiff,
            Event::Generated(_) => self.phase == Phase::Generating,
            Event::Line(_) => self.phase == Phase::AwaitingChoice || self.phase
                == Phase::AwaitingExtra || self.phase == Phase::ConfirmingSecondary,
            Event::PrimaryDone(_) => self.phase == Phase::CommittingPrimary,
            Event::InteractiveDone(_) => self.phase == Phase::CommittingInteractive,
            Event::SecondaryProbed(_) => self.phase == Phase::ProbingSecondary,
            Event::SecondaryAddDone(_) => self.phase == Phase::AddingSecondary,
            Event::SecondaryCommitDone(_) => self.phase == Phase::CommittingSecondary,
        }
    }

    /// Whether the session is over.
    pub fn is_finished(&self) -> (r: bool)
        ensures
            r == (self.phase == Phase::Finished),
    {
        self.phase == Phase::Finished
    }

    /// The message, where one has been generated; empty otherwise.
    fn message_text(&self) -> (r: String)
        ensures
            r@ == message_of(*self),
    {
        match &self.message {
            Some(m) => m.clone(),
            None => String::new(),
        }
    }

    /// Takes event `e` and returns what to do next.
    pub fn step(&mut self, e: Event) -> (a: Action)
        requires
            old(self).wf(),
            expects(old(self).phase, e),
        ensures
            final(self).wf(),
            final(self).files == old(self).files,
            step_post(*old(self), e, *final(self), a),
            changes_repository(a) ==> final(self).diff@.len() > 0 && final(self).message is Some,
    {
        let msg = self.message_text();
        match e {
            Event::DiffDone(run) => match diff_result(run) {
                Err(d) => {
                    self.phase = Phase::Finished;
                    Action::Finish(Outcome::DiffFailed(d))
                },
                Ok(text) => {
                    if text.unicode_len() == 0 {
                        self.phase = Phase::Finished;
                        Action::Finish(Outcome::NothingToCommit)
                    } else {
                        let diff = text.clone();
                        self.diff = text;
                        self.extra = None;
                        self.phase = Phase::Generating;
                        Action::Generate { diff, extra: None }
                    }
                },
            },
            Event::Generated(g) => match g {
                Err(err) => {
                    self.phase = Phase::Finished;
                    Action::Finish(Outcome::GenerationFailed(err))
                },
                Ok(m) => {
                    let message = m.clone();
                    self.message = Some(m);
                    self.phase = Phase::AwaitingChoice;
                    Action::AskChoice { message, after_invalid: false }
                },
            },
            Event::Line(line) => {
                if self.phase == Phase::AwaitingChoice {
                    match parse_choice(line.as_str()) {
                        Choice::Accept => {
                            let args = commit_args(msg.as_str(), &self.files);
                            self.phase = Phase::CommittingPrimary;
                            Action::CommitPrimary { args }
                        },
                        Choice::Show => {
                            let command = manual_command(msg.as_str(), &self.files);
                            self.phase = Phase::Finished;
                            Action::Finish(Outcome::ShowCommand(command))
                        },
                        Choice::Regenerate => {
                            self.phase = Phase::AwaitingExtra;
                            Action::AskExtra
                        },
                        Choice::Quit => {
                            self.phase = Phase::Finished;
                            Action::Finish(Outcome::Quit)
                        },
                        Choice::Invalid => Action::AskChoice { message: msg, after_invalid: true },
                    }
                } else if self.phase == Phase::AwaitingExtra {
                    let t = trim(line.as_str());
                    let extra = if t.unicode_len() == 0 {
                        self.extra = None;
                        None
                    } else {
                        let x = t.clone();
                        self.extra = Some(t);
                        Some(x)
                    };
                    self.phase = Phase::Generating;
                    Action::Generate { diff: self.diff.clone(), extra }
                } else {
                    match parse_confirmation(line.as_str()) {
                        Confirmation::Proceed => {
                            let args = secondary_add_args(&self.files);
                            self.phase = Phase::AddingSecondary;
                            Action::AddSecondary { args }
                        },
                        Confirmation::Skip => {
                            self.phase = Phase::Finished;
                            Action::Finish(Outcome::SecondaryDeclined)
                        },
                        Confirmation::Invalid => {
                            self.phase = Phase::Finished;
                            Action::Finish(Outcome::SecondaryInvalidChoice)
                        },
                    }
                }
            },
            Event::PrimaryDone(run) => match run {
                Run::NotStarted(err) => {
                    let command = manual_command(msg.as_str(), &self.files);
                    self.phase = Phase::Finished;
                    Action::Finish(Outcome::PrimaryFailed { error: CommitError::Launch(err), command })
                },
                Run::Exited { success, stdout, stderr } => {
                    if success {
                        self.phase = Phase::ProbingSecondary;
                        Action::ProbeSecondary
                    } else if needs_password(stderr.as_str()) {
                        let args = commit_args(msg.as_str(), &self.files);
                        self.phase = Phase::CommittingInteractive;
                        Action::CommitPrimaryInteractive { args }
                    } else {
                        let command = manual_command(msg.as_str(), &self.files);
                        self.phase = Phase::Finished;
                        Action::Finish(
                            Outcome::PrimaryFailed { error: CommitError::Rejected(stderr), command },
                        )
                    }
                },
            },
            Event::InteractiveDone(run) => match run {
                Run::NotStarted(err) => {
                    let command = manual_command(msg.as_str(), &self.files);
                    self.phase = Phase::Finished;
                    Action::Finish(Outcome::PrimaryFailed { error: CommitError::Launch(err), command })
                },
                Run::Exited { success, .. } => {
                    if success {
                        self.phase = Phase::ProbingSecondary;
                        Action::ProbeSecondary
                    } else {
                        let command = manual_command(msg.as_str(), &self.files);
                        self.phase = Phase::Finished;
                        Action::Finish(
                            Outcome::PrimaryFailed { error: CommitError::PasswordRejected, command },
                        )
                    }
                },
            },
            Event::SecondaryProbed(found) => {
                if found {
                    let add_command = secondary_add_command(&self.files);
                    let commit_command = secondary_commit_command(msg.as_str());
                    self.phase = Phase::ConfirmingSecondary;
                    Action::AskSecondary { add_command, commit_command }
                } else {
                    self.phase = Phase::Finished;
                    Action::Finish(Outcome::Committed)
                }
            },
            Event::SecondaryAddDone(run) => match run {
                Run::NotStarted(err) => {
                    self.phase = Phase::Finished;
                    Action::Finish(Outcome::SecondaryAddFailed(CommitError::Launch(err)))
                },
                Run::Exited { success, stdout, stderr } => {
                    if success {
                        let args = secondary_commit_args(msg.as_str());
                        self.phase = Phase::CommittingSecondary;
                        Action::CommitSecondary { args }
                    } else {
                        self.phase = Phase::Finished;
                        Action::Finish(Outcome::SecondaryAddFailed(CommitError::Rejected(stderr)))
                    }
                },
            },
            Event::SecondaryCommitDone(run) => match run {
                Run::NotStarted(err) => {
                    self.phase = Phase::Finished;
                    Action::Finish(Outcome::SecondaryCommitFailed(CommitError::Launch(err)))
                },
                Run::Exited { success, stdout, stderr } => {
                    self.phase = Phase::Finished;
                    if success {
                        Action::Finish(Outcome::SecondaryCommitted)
                    } else if nothing_to_commit(stderr.as_str()) {
                        Action::Finish(Outcome::SecondaryUnchanged)
                    } else {
                        Action::Finish(Outcome::SecondaryCommitFailed(CommitError::Rejected(stderr)))
                    }
                },
            },
        }
    }
}

} // verus!
