//! The git commands the application runs, and what their outcomes mean.
//! Running a command is the caller's (it is process I/O); this module
//! says which arguments to pass and turns the command's output into a
//! result.
use vstd::prelude::*;
use vstd::utf8::{decode_utf8, valid_utf8};

use crate::git_parser::{parse_git_status, parse_worktrees, parsed_statuses, parsed_worktrees, status_lines_cuttable};
use crate::text::{chars_of, trim, trim_chars, Trim};
use crate::types::{statuses_view, worktrees_view, GitFileStatus, GitFileStatusView, Worktree, WorktreeAddResult, WorktreeRemoveResult, WorktreeView};

verus! {

/// Why a git operation failed.
#[derive(Debug)]
pub enum GitError {
    CommandFailed(String),
    Io(std::io::Error),
    NotARepo(String),
}

/// Calls `ToString::to_string` on a `std::io::Error` (its `Display` text).
/// Nothing is stated of the text: it comes from the operating system's
/// error description and differs between platforms.
#[verifier::external_body]
fn io_error_text(e: &std::io::Error) -> String {
    e.to_string()
}

impl GitError {
    /// The error's message: `git command failed: …`, `io error: …` or
    /// `not a git repository: …`.
    pub fn message(&self) -> (m: String)
        ensures
            match self {
                GitError::CommandFailed(s) => m@ == "git command failed: "@ + s@,
                GitError::Io(_) => "io error: "@.is_prefix_of(m@),
                GitError::NotARepo(s) => m@ == "not a git repository: "@ + s@,
            },
    {
        match self {
            GitError::CommandFailed(s) => {
                let mut m = "git command failed: ".to_owned();
                m.append(s.as_str());
                m
            },
            GitError::Io(e) => {
                let mut m = "io error: ".to_owned();
                let t = io_error_text(e);
                let ghost before = m@;
                m.append(t.as_str());
                assert(m@.take(before.len() as int) =~= before);
                m
            },
            GitError::NotARepo(s) => {
                let mut m = "not a git repository: ".to_owned();
                m.append(s.as_str());
                m
            },
        }
    }
}

// ---------------------------------------------------------------------------
// Command outcomes
// ---------------------------------------------------------------------------

/// The string `String::from_utf8_lossy` makes of `bytes`.
pub uninterp spec fn spec_utf8_lossy(bytes: Seq<u8>) -> Seq<char>;

/// Calls `String::from_utf8_lossy`: valid UTF-8 is decoded as it is;
/// otherwise the result is named `spec_utf8_lossy`.
#[verifier::external_body]
pub(crate) fn utf8_lossy(bytes: &[u8]) -> (s: String)
    ensures
        s@ == spec_utf8_lossy(bytes@),
        valid_utf8(bytes@) ==> s@ == decode_utf8(bytes@),
{
    String::from_utf8_lossy(bytes).to_string()
}

/// The text of a command's output stream.
pub open spec fn output_text(bytes: Seq<u8>) -> Seq<char> {
    spec_utf8_lossy(bytes)
}

/// The outcome of a finished git command: its standard output when it
/// succeeded, else `CommandFailed` with its standard error.
pub fn command_outcome(success: bool, stdout: &[u8], stderr: &[u8]) -> (r: Result<String, GitError>)
    ensures
        success ==> (r matches Ok(s) && s@ == output_text(stdout@)),
        !success ==> (r matches Err(GitError::CommandFailed(e)) && e@ == output_text(stderr@)),
        success && valid_utf8(stdout@) ==> (r matches Ok(s) && s@ == decode_utf8(stdout@)),
{
    if success {
        Ok(utf8_lossy(stdout))
    } else {
        Err(GitError::CommandFailed(utf8_lossy(stderr)))
    }
}

// ---------------------------------------------------------------------------
// Arguments
// ---------------------------------------------------------------------------

/// The contents of an argument list.
pub open spec fn args_view(v: Seq<String>) -> Seq<Seq<char>> {
    v.map_values(|s: String| s@)
}

/// An argument list of string literals.
fn args_of(lits: &[&str]) -> (v: Vec<String>)
    ensures
        args_view(v@) == lits@.map_values(|s: &str| s@),
{
    let mut v: Vec<String> = Vec::new();
    let mut i: usize = 0;
    while i < lits.len()
        invariant
            i <= lits@.len(),
            args_view(v@) == lits@.take(i as int).map_values(|s: &str| s@),
        decreases lits@.len() - i,
    {
        let ghost prev = v@;
        v.push(lits[i].to_owned());
        assert(args_view(v@) =~= args_view(prev).push(lits@[i as int]@));
        assert(lits@.take(i + 1).map_values(|s: &str| s@) =~= lits@.take(i as int).map_values(
            |s: &str| s@,
        ).push(lits@[i as int]@));
        i = i + 1;
    }
    assert(lits@.take(lits@.len() as int) == lits@);
    v
}

/// Arguments of `git rev-parse --git-dir` (is this a repository?).
pub fn is_git_repository_args() -> (v: Vec<String>)
    ensures
        args_view(v@) == seq!["rev-parse"@, "--git-dir"@],
{
    let v = args_of(&["rev-parse", "--git-dir"]);
    assert(args_view(v@) =~= seq!["rev-parse"@, "--git-dir"@]);
    v
}

/// A directory is a repository when `git rev-parse --git-dir` succeeds there.
pub fn is_git_repository_result(outcome: &Result<String, GitError>) -> (b: bool)
    ensures
        b == outcome is Ok,
{
    outcome.is_ok()
}

/// Arguments of `git worktree list --porcelain`.
pub fn list_worktrees_args() -> (v: Vec<String>)
    ensures
        args_view(v@) == seq!["worktree"@, "list"@, "--porcelain"@],
{
    let v = args_of(&["worktree", "list", "--porcelain"]);
    assert(args_view(v@) =~= seq!["worktree"@, "list"@, "--porcelain"@]);
    v
}

/// The worktrees listed by `git worktree list --porcelain`, or its error.
pub fn list_worktrees_result(outcome: Result<String, GitError>) -> (r: Result<Vec<Worktree>, GitError>)
    ensures
        match outcome {
            Ok(out) => r matches Ok(ws) && worktrees_view(ws@) == parsed_worktrees(out@),
            Err(e) => r == Err::<Vec<Worktree>, GitError>(e),
        },
{
    match outcome {
        Ok(out) => Ok(parse_worktrees(out.as_str())),
        Err(e) => Err(e),
    }
}

/// Arguments of `git status --porcelain=v1`.
pub fn git_status_args() -> (v: Vec<String>)
    ensures
        args_view(v@) == seq!["status"@, "--porcelain=v1"@],
{
    let v = args_of(&["status", "--porcelain=v1"]);
    assert(args_view(v@) =~= seq!["status"@, "--porcelain=v1"@]);
    v
}

/// The file statuses reported by `git status --porcelain=v1`, or its error.
pub fn git_status_result(outcome: Result<String, GitError>) -> (r: Result<Vec<GitFileStatus>, GitError>)
    requires
        outcome matches Ok(out) ==> status_lines_cuttable(out@),
    ensures
        match outcome {
            Ok(out) => r matches Ok(ss) && statuses_view(ss@) == parsed_statuses(out@),
            Err(e) => r == Err::<Vec<GitFileStatus>, GitError>(e),
        },
{
    match outcome {
        Ok(out) => Ok(parse_git_status(out.as_str())),
        Err(e) => Err(e),
    }
}

/// The arguments of a diff: `diff`, `--staged` for the index, and `-- FILE`
/// for one file.
pub open spec fn diff_args_spec(staged: bool, file_path: Option<Seq<char>>) -> Seq<Seq<char>> {
    let base = if staged {
        seq!["diff"@, "--staged"@]
    } else {
        seq!["diff"@]
    };
    match file_path {
        Some(fp) => base + seq!["--"@, fp],
        None => base,
    }
}

/// The contents of an optional file path.
pub open spec fn opt_str_view(o: Option<&str>) -> Option<Seq<char>> {
    match o {
        Some(s) => Some(s@),
        None => None,
    }
}

/// Arguments of `git diff [--staged] [-- FILE]`.
pub fn diff_args(staged: bool, file_path: Option<&str>) -> (v: Vec<String>)
    ensures
        args_view(v@) == diff_args_spec(staged, opt_str_view(file_path)),
{
    let mut v: Vec<String> = Vec::new();
    v.push("diff".to_owned());
    if staged {
        v.push("--staged".to_owned());
    }
    let ghost base = args_view(v@);
    assert(base =~= (if staged {
        seq!["diff"@, "--staged"@]
    } else {
        seq!["diff"@]
    }));
    match file_path {
        Some(fp) => {
            v.push("--".to_owned());
            v.push(fp.to_owned());
            assert(args_view(v@) =~= base + seq!["--"@, fp@]);
        },
        None => {},
    }
    v
}

/// Arguments of `git diff [-- FILE]` (unstaged changes).
pub fn get_git_diff_args(file_path: Option<&str>) -> (v: Vec<String>)
    ensures
        args_view(v@) == diff_args_spec(false, opt_str_view(file_path)),
{
    diff_args(false, file_path)
}

/// Arguments of `git diff --staged [-- FILE]` (staged changes).
pub fn get_git_diff_staged_args(file_path: Option<&str>) -> (v: Vec<String>)
    ensures
        args_view(v@) == diff_args_spec(true, opt_str_view(file_path)),
{
    diff_args(true, file_path)
}

/// Arguments of `git rev-parse --abbrev-ref HEAD`.
pub fn current_branch_args() -> (v: Vec<String>)
    ensures
        args_view(v@) == seq!["rev-parse"@, "--abbrev-ref"@, "HEAD"@],
{
    let v = args_of(&["rev-parse", "--abbrev-ref", "HEAD"]);
    assert(args_view(v@) =~= seq!["rev-parse"@, "--abbrev-ref"@, "HEAD"@]);
    v
}

/// The current branch: the output of `git rev-parse --abbrev-ref HEAD`
/// without surrounding whitespace.
pub fn current_branch_result(outcome: Result<String, GitError>) -> (r: Result<String, GitError>)
    ensures
        match outcome {
            Ok(out) => r matches Ok(b) && b@ == trim(out@),
            Err(e) => r == Err::<String, GitError>(e),
        },
{
    match outcome {
        Ok(out) => {
            let v = chars_of(out.as_str());
            let t = trim_chars(&v, Trim::Whitespace);
            let mut s = String::new();
            let mut i: usize = 0;
            while i < t.len()
                invariant
                    i <= t@.len(),
                    s@ == t@.take(i as int),
                decreases t@.len() - i,
            {
                s.push(t[i]);
                assert(t@.take(i + 1) == t@.take(i as int).push(t@[i as int]));
                i = i + 1;
            }
            assert(t@.take(t@.len() as int) == t@);
            Ok(s)
        },
        Err(e) => Err(e),
    }
}

// ---------------------------------------------------------------------------
// Worktree paths
// ---------------------------------------------------------------------------

/// The final component of a path (`Path::file_name`, as UTF-8).
pub uninterp spec fn spec_file_name(path: Seq<char>) -> Option<Seq<char>>;

/// The path without its final component (`Path::parent`).
pub uninterp spec fn spec_parent(path: Seq<char>) -> Option<Seq<char>>;

/// `base` extended with `child` (`Path::join`).
pub uninterp spec fn spec_join(base: Seq<char>, child: Seq<char>) -> Seq<char>;

/// Calls `Path::file_name` and `OsStr::to_str`; the result is named `spec_file_name`.
#[verifier::external_body]
fn path_file_name(path: &str) -> (r: Option<String>)
    ensures
        match r {
            Some(n) => spec_file_name(path@) == Some(n@),
            None => spec_file_name(path@) is None,
        },
{
    match std::path::Path::new(path).file_name() {
        Some(n) => match n.to_str() {
            Some(s) => Some(s.to_string()),
            None => None,
        },
        None => None,
    }
}

/// Calls `Path::parent`; the result is named `spec_parent`.
#[verifier::external_body]
fn path_parent(path: &str) -> (r: Option<String>)
    ensures
        match r {
            Some(p) => spec_parent(path@) == Some(p@),
            None => spec_parent(path@) is None,
        },
{
    match std::path::Path::new(path).parent() {
        Some(p) => Some(p.to_string_lossy().into_owned()),
        None => None,
    }
}

/// Calls `Path::join`; the result is named `spec_join`.
#[verifier::external_body]
fn path_join(base: &str, child: &str) -> (r: String)
    ensures
        r@ == spec_join(base@, child@),
{
    std::path::Path::new(base).join(child).to_string_lossy().into_owned()
}

/// Whether two paths are equal as `Path`s (`Path`'s `==`, which compares
/// their components).
pub uninterp spec fn spec_same_path(a: Seq<char>, b: Seq<char>) -> bool;

/// Calls `==` on two `Path`s; the result is named `spec_same_path`. `Path`
/// is `Eq`, so a path is equal to itself.
#[verifier::external_body]
fn same_path(a: &str, b: &str) -> (r: bool)
    ensures
        r == spec_same_path(a@, b@),
        a@ == b@ ==> r,
{
    std::path::Path::new(a) == std::path::Path::new(b)
}

/// Whether two paths name the same place: the same text, or equal as
/// `Path`s (so `/a/b/` and `/a/b` match).
pub open spec fn path_matches(a: Seq<char>, b: Seq<char>) -> bool {
    a == b || spec_same_path(a, b)
}

/// Whether two paths name the same place.
pub fn paths_match(a: &str, b: &str) -> (r: bool)
    ensures
        r == path_matches(a@, b@),
{
    same_path(a, b)
}

/// The name of a project: the final component of its path, or `project`.
pub open spec fn project_name_spec(path: Seq<char>) -> Seq<char> {
    match spec_file_name(path) {
        Some(n) => n,
        None => "project"@,
    }
}

/// The name of a project: the final component of its path, or `project`.
pub fn project_name(path: &str) -> (n: String)
    ensures
        n@ == project_name_spec(path@),
{
    match path_file_name(path) {
        Some(n) => n,
        None => "project".to_owned(),
    }
}

/// Where a new worktree for `branch` goes: `<project>-<branch>` beside the
/// project directory (inside it when it has no parent).
pub open spec fn new_worktree_path(project_path: Seq<char>, branch: Seq<char>) -> Seq<char> {
    let dir = project_name_spec(project_path) + "-"@ + branch;
    let parent = match spec_parent(project_path) {
        Some(p) => p,
        None => project_path,
    };
    spec_join(parent, dir)
}

/// The command that adds a worktree, and the path it will have.
pub struct WorktreeAddPlan {
    pub args: Vec<String>,
    pub path: String,
    pub branch: String,
}

/// Plans `git worktree add -b BRANCH PATH` for a new branch of the project.
pub fn add_worktree_plan(project_path: &str, branch_name: &str) -> (p: WorktreeAddPlan)
    ensures
        p.path@ == new_worktree_path(project_path@, branch_name@),
        p.branch@ == branch_name@,
        args_view(p.args@) == seq!["worktree"@, "add"@, "-b"@, branch_name@, p.path@],
{
    let mut dir = project_name(project_path);
    dir.append("-");
    dir.append(branch_name);
    let parent = match path_parent(project_path) {
        Some(p) => p,
        None => project_path.to_owned(),
    };
    let path = path_join(parent.as_str(), dir.as_str());
    let mut args: Vec<String> = Vec::new();
    args.push("worktree".to_owned());
    args.push("add".to_owned());
    args.push("-b".to_owned());
    args.push(branch_name.to_owned());
    args.push(path.clone());
    assert(args_view(args@) =~= seq!["worktree"@, "add"@, "-b"@, branch_name@, path@]);
    WorktreeAddPlan { args, path, branch: branch_name.to_owned() }
}

/// The worktree added when `git worktree add` succeeded, or its error.
pub fn add_worktree_result(plan: WorktreeAddPlan, outcome: Result<String, GitError>) -> (r: Result<
    WorktreeAddResult,
    GitError,
>)
    ensures
        match outcome {
            Ok(_) => r matches Ok(a) && a.path@ == plan.path@ && a.branch@ == plan.branch@,
            Err(e) => r == Err::<WorktreeAddResult, GitError>(e),
        },
{
    match outcome {
        Ok(_) => Ok(WorktreeAddResult { path: plan.path, branch: plan.branch }),
        Err(e) => Err(e),
    }
}

/// Arguments of `git worktree remove --force PATH`.
pub fn remove_worktree_args(worktree_path: &str) -> (v: Vec<String>)
    ensures
        args_view(v@) == seq!["worktree"@, "remove"@, "--force"@, worktree_path@],
{
    let mut v: Vec<String> = Vec::new();
    v.push("worktree".to_owned());
    v.push("remove".to_owned());
    v.push("--force".to_owned());
    v.push(worktree_path.to_owned());
    assert(args_view(v@) =~= seq!["worktree"@, "remove"@, "--force"@, worktree_path@]);
    v
}

/// Arguments of `git branch -D BRANCH`.
pub fn delete_branch_args(branch_name: &str) -> (v: Vec<String>)
    ensures
        args_view(v@) == seq!["branch"@, "-D"@, branch_name@],
{
    let mut v: Vec<String> = Vec::new();
    v.push("branch".to_owned());
    v.push("-D".to_owned());
    v.push(branch_name.to_owned());
    assert(args_view(v@) =~= seq!["branch"@, "-D"@, branch_name@]);
    v
}

/// The result of removing a worktree once `git worktree remove` succeeded:
/// a failed branch deletion is only a warning.
pub fn remove_worktree_result(branch_outcome: Result<String, GitError>) -> (r: WorktreeRemoveResult)
    ensures
        r.success,
        branch_outcome is Ok ==> r.warning is None,
        branch_outcome matches Err(GitError::CommandFailed(s)) ==> (r.warning matches Some(w)
            && w@ == "Branch deletion warning: "@ + "git command failed: "@ + s@),
        branch_outcome matches Err(GitError::NotARepo(s)) ==> (r.warning matches Some(w)
            && w@ == "Branch deletion warning: "@ + "not a git repository: "@ + s@),
        branch_outcome is Err ==> (r.warning matches Some(w)
            && "Branch deletion warning: "@.is_prefix_of(w@)),
{
    let warning = match branch_outcome {
        Ok(_) => None,
        Err(e) => {
            let mut w = "Branch deletion warning: ".to_owned();
            let m = e.message();
            let ghost before = w@;
            w.append(m.as_str());
            assert(w@.take(before.len() as int) =~= before);
            Some(w)
        },
    };
    WorktreeRemoveResult { success: true, warning }
}

} // verus!
