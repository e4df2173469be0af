use std::path::PathBuf;
use vibetree::git_parser::{extract_branch_name, is_main_branch, parse_git_status, parse_worktrees};

#[test]
fn test_parse_worktrees() {
    let output = "\
worktree /home/user/project
HEAD abc123def456
branch refs/heads/main

worktree /home/user/project-feature
HEAD def789abc012
branch refs/heads/feature-x

";
    let wt = parse_worktrees(output);
    assert_eq!(wt.len(), 2);
    assert_eq!(wt[0].branch.as_deref(), Some("main"));
    assert_eq!(wt[1].branch.as_deref(), Some("feature-x"));
    assert_eq!(PathBuf::from(&wt[0].path), PathBuf::from("/home/user/project"));
}

#[test]
fn test_parse_worktrees_detached() {
    let output = "\
worktree /home/user/project
HEAD abc123
detached

";
    let wt = parse_worktrees(output);
    assert_eq!(wt.len(), 1);
    assert!(wt[0].branch.is_none());
}

#[test]
fn test_parse_git_status() {
    let output = " M src/main.rs\nA  src/new.rs\n?? untracked.txt\n";
    let status = parse_git_status(output);
    assert_eq!(status.len(), 3);
    assert!(!status[0].staged);
    assert!(status[0].modified);
    assert!(status[1].staged);
    assert!(!status[1].modified);
}

#[test]
fn test_extract_branch_name() {
    assert_eq!(extract_branch_name("refs/heads/main"), "main");
    assert_eq!(extract_branch_name("main"), "main");
}

#[test]
fn test_is_main_branch() {
    assert!(is_main_branch("main"));
    assert!(is_main_branch("master"));
    assert!(!is_main_branch("feature-x"));
}

#[test]
fn parse_worktrees_last_record_without_blank_line() {
    let wt = parse_worktrees("worktree /a\nHEAD 111\nbranch refs/heads/dev");
    assert_eq!(wt.len(), 1);
    assert_eq!(wt[0].path, "/a");
    assert_eq!(wt[0].head, "111");
    assert_eq!(wt[0].branch.as_deref(), Some("dev"));
}

#[test]
fn parse_worktrees_skips_records_without_head() {
    let wt = parse_worktrees("worktree /a\n\nworktree /b\nHEAD 222\n\n");
    assert_eq!(wt.len(), 1);
    assert_eq!(wt[0].path, "/b");
    assert!(wt[0].branch.is_none());
}

#[test]
fn parse_worktrees_crlf_lines() {
    let wt = parse_worktrees("worktree /c\r\nHEAD 333\r\nbranch refs/heads/x\r\n\r\n");
    assert_eq!(wt.len(), 1);
    assert_eq!(wt[0].path, "/c");
    assert_eq!(wt[0].head, "333");
    assert_eq!(wt[0].branch.as_deref(), Some("x"));
}

#[test]
fn parse_worktrees_branch_without_refs_prefix_kept() {
    let wt = parse_worktrees("worktree /d\nHEAD 4\nbranch topic\n");
    assert_eq!(wt[0].branch.as_deref(), Some("topic"));
}

#[test]
fn parse_git_status_fields_and_short_lines() {
    let status = parse_git_status("MM both.rs\nR  a -> b\nxy\n\n?? new dir/f.txt");
    assert_eq!(status.len(), 3);
    assert_eq!(status[0].status_code, "MM");
    assert_eq!(status[0].path, "both.rs");
    assert!(status[0].staged && status[0].modified);
    assert_eq!(status[1].path, "a -> b");
    assert!(status[1].staged && !status[1].modified);
    assert_eq!(status[2].status_code, "??");
    assert_eq!(status[2].path, "new dir/f.txt");
    assert!(!status[2].staged && !status[2].modified);
}

#[test]
fn extract_branch_name_only_strips_once() {
    assert_eq!(extract_branch_name("refs/heads/refs/heads/x"), "refs/heads/x");
    assert_eq!(extract_branch_name("refs/tags/v1"), "refs/tags/v1");
}

#[test]
fn parse_worktrees_of_joined_records() {
    let a = "worktree /a\nHEAD 1\nbranch refs/heads/main\n\n";
    let b = "worktree /b\nHEAD 2\ndetached\n";
    let joined = parse_worktrees(&format!("{}{}", a, b));
    let mut parts = parse_worktrees(a);
    parts.extend(parse_worktrees(b));
    assert_eq!(joined.len(), 2);
    for (x, y) in joined.iter().zip(parts.iter()) {
        assert_eq!((&x.path, &x.branch, &x.head), (&y.path, &y.branch, &y.head));
    }
}

#[test]
fn parse_git_status_of_joined_output() {
    let a = " M a.rs\n";
    let b = "?? b.rs\nD  c.rs";
    let joined = parse_git_status(&format!("{}{}", a, b));
    let mut parts = parse_git_status(a);
    parts.extend(parse_git_status(b));
    assert_eq!(joined.len(), 3);
    for (x, y) in joined.iter().zip(parts.iter()) {
        assert_eq!((&x.path, &x.status_code, x.staged, x.modified), (&y.path, &y.status_code, y.staged, y.modified));
    }
}

#[test]
fn parse_worktrees_trailing_blank_line_changes_nothing() {
    let s = "worktree /a\nHEAD 1\n";
    let with_blank = parse_worktrees(&format!("{}\n", s));
    let without = parse_worktrees(s);
    assert_eq!(with_blank.len(), 1);
    assert_eq!(without.len(), 1);
    assert_eq!(with_blank[0].path, without[0].path);
}
