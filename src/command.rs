//! The command lines of the two version-control tools, and how the library
//! reads what a run of one of them reported.
use vstd::prelude::*;
use crate::text::{contains, has_substring, trim, trimmed};

verus! {

/// What running an external command produced.
#[derive(Debug)]
pub enum Run {
    /// The command could not be started; the operating system's error text.
    NotStarted(String),
    /// The command ran to its end.
    Exited { success: bool, stdout: String, stderr: String },
}

/// Why collecting the diff failed.
#[derive(Debug)]
pub enum DiffError {
    /// The diff command could not be started.
    ExecutionFailed(String),
    /// The diff command exited unsuccessfully; its error output.
    NonZeroExit(String),
}

/// Why a commit failed.
#[derive(Debug)]
pub enum CommitError {
    /// The command could not be started.
    Launch(String),
    /// The command exited unsuccessfully; its error output.
    Rejected(String),
    /// The interactive retry, where the user typed a password, failed too.
    PasswordRejected,
}

/// `files`, each preceded by a space.
pub open spec fn spaced(files: Seq<Seq<char>>) -> Seq<char>
    decreases files.len(),
{
    if files.len() == 0 {
        Seq::empty()
    } else {
        spaced(files.drop_last()) + " "@ + files.last()
    }
}

/// Arguments of the primary tool's diff over the file selector.
pub open spec fn diff_args_spec(files: Seq<Seq<char>>) -> Seq<Seq<char>> {
    seq!["diff"@] + files
}

/// Arguments of the primary tool's commit.
pub open spec fn commit_args_spec(message: Seq<char>, files: Seq<Seq<char>>) -> Seq<Seq<char>> {
    seq!["commit"@, "-m"@, message] + files
}

/// Arguments of the secondary tool's add: the selected files, or `.` for all.
pub open spec fn secondary_add_args_spec(files: Seq<Seq<char>>) -> Seq<Seq<char>> {
    if files.len() == 0 {
        seq!["add"@, "."@]
    } else {
        seq!["add"@] + files
    }
}

/// Arguments of the secondary tool's commit.
pub open spec fn secondary_commit_args_spec(message: Seq<char>) -> Seq<Seq<char>> {
    seq!["commit"@, "-m"@, message]
}

/// The primary commit as a line that a user can run by hand.
pub open spec fn manual_command_spec(message: Seq<char>, files: Seq<Seq<char>>) -> Seq<char> {
    "svn commit -m \""@ + message + "\""@ + spaced(files)
}

/// The secondary add as a line shown to the user.
pub open spec fn secondary_add_command_spec(files: Seq<Seq<char>>) -> Seq<char> {
    if files.len() == 0 {
        "git add ."@
    } else {
        "git add"@ + spaced(files)
    }
}

/// The secondary commit as a line shown to the user.
pub open spec fn secondary_commit_command_spec(message: Seq<char>) -> Seq<char> {
    "git commit -m \""@ + message + "\""@
}

/// The primary tool's error output says that it could not get a password.
/// The tool's wording is no stable interface: this is a best-effort heuristic.
pub open spec fn needs_password_spec(stderr: Seq<char>) -> bool {
    has_substring(stderr, "无法取得密码"@) || has_substring(stderr, "Unable to connect"@)
}

/// The secondary tool's error output says that there was nothing to commit.
/// Best-effort, as above.
pub open spec fn nothing_to_commit_spec(stderr: Seq<char>) -> bool {
    has_substring(stderr, "nothing to commit"@) || has_substring(stderr, "无文件要提交"@)
}

/// What the diff collector makes of a run of the diff command. An empty
/// diff is a success, distinct from every failure.
pub open spec fn diff_result_spec(run: Run) -> Result<Seq<char>, DiffError> {
    match run {
        Run::NotStarted(e) => Err(DiffError::ExecutionFailed(e)),
        Run::Exited { success, stdout, stderr } => if success {
            Ok(stdout@)
        } else {
            Err(DiffError::NonZeroExit(stderr))
        },
    }
}

/// Any file selector, empty or not, runs the same diff operation of the same
/// tool; whether collecting succeeds depends on that run alone: it succeeds
/// exactly when the tool started and exited successfully, and then its
/// output is the diff, an empty one included, which no failure resembles.
pub proof fn lemma_diff_follows_the_tool(files: Seq<Seq<char>>, run: Run)
    ensures
        diff_args_spec(files)[0] == "diff"@,
        diff_args_spec(files).drop_first() == files,
        diff_result_spec(run) is Ok <==> run matches Run::Exited { success: true, .. },
        diff_result_spec(run) matches Ok(d) ==> (run matches Run::Exited { stdout, .. } && d
            == stdout@),
{
    assert(diff_args_spec(files).drop_first() =~= files);
}

/// The secondary tool's work-tree query reports that the working directory
/// is inside a repository: it exited successfully and printed `true`.
pub open spec fn reports_work_tree_spec(run: Run) -> bool {
    match run {
        Run::NotStarted(_) => false,
        Run::Exited { success, stdout, .. } => success && trimmed(stdout@) == "true"@,
    }
}

/// Appends a copy of `s` to `out`.
fn push_text(out: &mut Vec<String>, s: &str)
    ensures
        final(out).deep_view() == old(out).deep_view().push(s@),
{
    out.push(String::from_str(s));
    assert(out.deep_view() =~= old(out).deep_view().push(s@));
}

/// Appends copies of `files` to `out`.
fn push_all(out: &mut Vec<String>, files: &Vec<String>)
    ensures
        final(out).deep_view() == old(out).deep_view() + files.deep_view(),
{
    let ghost start = out.deep_view();
    let mut i: usize = 0;
    while i < files.len()
        invariant
            i <= files@.len(),
            out.deep_view() == start + files.deep_view().subrange(0, i as int),
        decreases files@.len() - i,
    {
        push_text(out, files[i].as_str());
        assert(files.deep_view().subrange(0, i + 1) =~= files.deep_view().subrange(
            0,
            i as int,
        ).push(files@[i as int]@));
        i += 1;
    }
    assert(files.deep_view().subrange(0, i as int) =~= files.deep_view());
}

/// Appends each of `files` to `out`, each preceded by a space.
fn append_spaced(out: &mut String, files: &Vec<String>)
    ensures
        final(out)@ == old(out)@ + spaced(files.deep_view()),
{
    let ghost start = out@;
    let mut i: usize = 0;
    while i < files.len()
        invariant
            i <= files@.len(),
            out@ == start + spaced(files.deep_view().subrange(0, i as int)),
        decreases files@.len() - i,
    {
        out.append(" ");
        out.append(files[i].as_str());
        let ghost fv = files.deep_view();
        assert(fv.subrange(0, i + 1).drop_last() =~= fv.subrange(0, i as int));
        assert(out@ =~= start + spaced(fv.subrange(0, i + 1)));
        i += 1;
    }
    assert(files.deep_view().subrange(0, i as int) =~= files.deep_view());
}

/// Arguments of the primary tool's diff over `files` (all changes when empty).
pub fn diff_args(files: &Vec<String>) -> (r: Vec<String>)
    ensures
        r.deep_view() == diff_args_spec(files.deep_view()),
{
    let mut r: Vec<String> = Vec::new();
    push_text(&mut r, "diff");
    push_all(&mut r, files);
    assert(r.deep_view() =~= diff_args_spec(files.deep_view()));
    r
}

/// Arguments of the primary tool's commit of `files` with `message`.
pub fn commit_args(message: &str, files: &Vec<String>) -> (r: Vec<String>)
    ensures
        r.deep_view() == commit_args_spec(message@, files.deep_view()),
{
    let mut r: Vec<String> = Vec::new();
    push_text(&mut r, "commit");
    push_text(&mut r, "-m");
    push_text(&mut r, message);
    push_all(&mut r, files);
    assert(r.deep_view() =~= commit_args_spec(message@, files.deep_view()));
    r
}

/// Arguments of the secondary tool's add of `files`, or of everything.
pub fn secondary_add_args(files: &Vec<String>) -> (r: Vec<String>)
    ensures
        r.deep_view() == secondary_add_args_spec(files.deep_view()),
{
    let mut r: Vec<String> = Vec::new();
    push_text(&mut r, "add");
    if files.len() == 0 {
        push_text(&mut r, ".");
    } else {
        push_all(&mut r, files);
    }
    assert(r.deep_view() =~= secondary_add_args_spec(files.deep_view()));
    r
}

/// Arguments of the secondary tool's commit with `message`.
pub fn secondary_commit_args(message: &str) -> (r: Vec<String>)
    ensures
        r.deep_view() == secondary_commit_args_spec(message@),
{
    let mut r: Vec<String> = Vec::new();
    push_text(&mut r, "commit");
    push_text(&mut r, "-m");
    push_text(&mut r, message);
    assert(r.deep_view() =~= secondary_commit_args_spec(message@));
    r
}

/// The primary commit as a line that a user can run by hand.
pub fn manual_command(message: &str, files: &Vec<String>) -> (r: String)
    ensures
        r@ == manual_command_spec(message@, files.deep_view()),
{
    let mut r = String::from_str("svn commit -m \"");
    r.append(message);
    r.append("\"");
    append_spaced(&mut r, files);
    r
}

/// The secondary add as a line shown to the user.
pub fn secondary_add_command(files: &Vec<String>) -> (r: String)
    ensures
        r@ == secondary_add_command_spec(files.deep_view()),
{
    if files.len() == 0 {
        String::from_str("git add .")
    } else {
        let mut r = String::from_str("git add");
        append_spaced(&mut r, files);
        r
    }
}

/// The secondary commit as a line shown to the user.
pub fn secondary_commit_command(message: &str) -> (r: String)
    ensures
        r@ == secondary_commit_command_spec(message@),
{
    let mut r = String::from_str("git commit -m \"");
    r.append(message);
    r.append("\"");
    r
}

/// Whether the primary tool's error output asks for a password.
pub fn needs_password(stderr: &str) -> (r: bool)
    ensures
        r == needs_password_spec(stderr@),
{
    contains(stderr, "无法取得密码") || contains(stderr, "Unable to connect")
}

/// Whether the secondary tool's error output reports nothing to commit.
pub fn nothing_to_commit(stderr: &str) -> (r: bool)
    ensures
        r == nothing_to_commit_spec(stderr@),
{
    contains(stderr, "nothing to commit") || contains(stderr, "无文件要提交")
}

/// Whether a run of the secondary tool's work-tree query reports a repository.
pub fn reports_work_tree(run: &Run) -> (r: bool)
    ensures
        r == reports_work_tree_spec(*run),
{
    match run {
        Run::NotStarted(_) => false,
        Run::Exited { success, stdout, .. } => *success && trim(stdout.as_str()) == String::from_str(
            "true",
        ),
    }
}

/// The diff text that a run of the diff command reported, or why there is none.
pub fn diff_result(run: Run) -> (r: Result<String, DiffError>)
    ensures
        match (r, diff_result_spec(run)) {
            (Ok(d), Ok(e)) => d@ == e,
            (Err(a), Err(b)) => a == b,
            _ => false,
        },
{
    match run {
        Run::NotStarted(e) => Err(DiffError::ExecutionFailed(e)),
        Run::Exited { success, stdout, stderr } => if success {
            Ok(stdout)
        } else {
            Err(DiffError::NonZeroExit(stderr))
        },
    }
}

} // verus!
