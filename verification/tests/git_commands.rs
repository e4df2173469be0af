use vibetree::git_commands::paths_match;
use vibetree::git_commands::{
    add_worktree_plan, add_worktree_result, command_outcome, current_branch_args,
    current_branch_result, delete_branch_args, get_git_diff_args, get_git_diff_staged_args,
    git_status_args, git_status_result, is_git_repository_args, is_git_repository_result,
    list_worktrees_args, list_worktrees_result, project_name, remove_worktree_args,
    remove_worktree_result, GitError,
};

fn strs(v: Vec<String>) -> Vec<String> {
    v
}

#[test]
fn error_messages() {
    assert_eq!(GitError::CommandFailed("boom".to_string()).message(), "git command failed: boom");
    assert_eq!(GitError::NotARepo("/tmp".to_string()).message(), "not a git repository: /tmp");
    let io = std::io::Error::new(std::io::ErrorKind::Other, "disk gone");
    let m = GitError::Io(io).message();
    assert!(m.starts_with("io error: "));
    assert!(m.contains("disk gone"));
}

#[test]
fn outcome_of_finished_command() {
    assert_eq!(command_outcome(true, b"abc\n", b"").unwrap(), "abc\n");
    match command_outcome(false, b"", b"fatal: bad") {
        Err(GitError::CommandFailed(e)) => assert_eq!(e, "fatal: bad"),
        other => panic!("unexpected {:?}", other),
    }
}

#[test]
fn outcome_replaces_invalid_utf8() {
    assert_eq!(command_outcome(true, &[0x66, 0xff, 0x67], b"").unwrap(), "f\u{FFFD}g");
}

#[test]
fn argument_lists() {
    assert_eq!(strs(is_git_repository_args()), vec!["rev-parse", "--git-dir"]);
    assert_eq!(strs(list_worktrees_args()), vec!["worktree", "list", "--porcelain"]);
    assert_eq!(strs(git_status_args()), vec!["status", "--porcelain=v1"]);
    assert_eq!(strs(current_branch_args()), vec!["rev-parse", "--abbrev-ref", "HEAD"]);
    assert_eq!(strs(get_git_diff_args(None)), vec!["diff"]);
    assert_eq!(strs(get_git_diff_args(Some("a.rs"))), vec!["diff", "--", "a.rs"]);
    assert_eq!(strs(get_git_diff_staged_args(None)), vec!["diff", "--staged"]);
    assert_eq!(strs(get_git_diff_staged_args(Some("b c"))), vec!["diff", "--staged", "--", "b c"]);
    assert_eq!(strs(remove_worktree_args("/p/x")), vec!["worktree", "remove", "--force", "/p/x"]);
    assert_eq!(strs(delete_branch_args("feat")), vec!["branch", "-D", "feat"]);
}

#[test]
fn repository_check() {
    assert!(is_git_repository_result(&Ok(".git\n".to_string())));
    assert!(!is_git_repository_result(&Err(GitError::CommandFailed("no".to_string()))));
}

#[test]
fn listed_worktrees_are_parsed() {
    let out = "worktree /p\nHEAD 1\nbranch refs/heads/main\n\n".to_string();
    let ws = list_worktrees_result(Ok(out)).unwrap();
    assert_eq!(ws.len(), 1);
    assert_eq!(ws[0].path, "/p");
    assert_eq!(ws[0].branch.as_deref(), Some("main"));
    assert!(matches!(
        list_worktrees_result(Err(GitError::NotARepo("/q".to_string()))),
        Err(GitError::NotARepo(_))
    ));
}

#[test]
fn status_is_parsed() {
    let st = git_status_result(Ok(" M a.rs\n".to_string())).unwrap();
    assert_eq!(st.len(), 1);
    assert_eq!(st[0].path, "a.rs");
    assert!(st[0].modified && !st[0].staged);
}

#[test]
fn current_branch_is_trimmed() {
    assert_eq!(current_branch_result(Ok("  main\n".to_string())).unwrap(), "main");
    assert!(current_branch_result(Err(GitError::CommandFailed("x".to_string()))).is_err());
}

#[test]
fn project_names() {
    assert_eq!(project_name("/home/u/proj"), "proj");
    assert_eq!(project_name("/home/u/proj/"), "proj");
    assert_eq!(project_name("/"), "project");
    assert_eq!(project_name("/home/u/.."), "project");
}

#[test]
fn new_worktree_beside_project() {
    let plan = add_worktree_plan("/home/u/proj", "feat");
    assert_eq!(plan.path, "/home/u/proj-feat");
    assert_eq!(plan.branch, "feat");
    assert_eq!(plan.args, vec!["worktree", "add", "-b", "feat", "/home/u/proj-feat"]);
    let res = add_worktree_result(plan, Ok(String::new())).unwrap();
    assert_eq!(res.path, "/home/u/proj-feat");
    assert_eq!(res.branch, "feat");
}

#[test]
fn new_worktree_of_relative_and_root_projects() {
    assert_eq!(add_worktree_plan("proj", "x").path, "proj-x");
    assert_eq!(add_worktree_plan("/", "x").path, "/project-x");
}

#[test]
fn failed_add_keeps_error() {
    let plan = add_worktree_plan("/p/q", "b");
    assert!(matches!(
        add_worktree_result(plan, Err(GitError::CommandFailed("exists".to_string()))),
        Err(GitError::CommandFailed(_))
    ));
}

#[test]
fn branch_deletion_failure_is_only_a_warning() {
    let ok = remove_worktree_result(Ok(String::new()));
    assert!(ok.success && ok.warning.is_none());
    let warn = remove_worktree_result(Err(GitError::CommandFailed("not found".to_string())));
    assert!(warn.success);
    assert_eq!(
        warn.warning.as_deref(),
        Some("Branch deletion warning: git command failed: not found")
    );
}

#[test]
fn branch_deletion_warning_for_missing_repository() {
    let warn = remove_worktree_result(Err(GitError::NotARepo("/x".to_string())));
    assert_eq!(
        warn.warning.as_deref(),
        Some("Branch deletion warning: not a git repository: /x")
    );
    let io = remove_worktree_result(Err(GitError::Io(std::io::Error::new(std::io::ErrorKind::Other, "gone"))));
    assert!(io.warning.unwrap().starts_with("Branch deletion warning: io error: "));
}

#[test]
fn paths_match_by_components() {
    assert!(paths_match("/a/b", "/a/b"));
    assert!(paths_match("/a/b/", "/a/b"));
    assert!(paths_match("/a//b", "/a/b"));
    assert!(paths_match("/a/./b", "/a/b"));
    assert!(!paths_match("/a/b", "/a/c"));
    assert!(!paths_match("/a/../b", "/b"));
}
