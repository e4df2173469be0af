//! Core data types shared by the git layer, the configuration and the UI.
use vstd::prelude::*;

verus! {

/// Colour theme of the application.
#[derive(Clone, Copy, Debug, PartialEq, Eq, Structural)]
pub enum Theme {
    Dark,
    Light,
}

/// The contents of an optional string.
pub open spec fn opt_view(o: Option<String>) -> Option<Seq<char>> {
    match o {
        Some(s) => Some(s@),
        None => None,
    }
}

/// A git worktree: its directory, checked-out branch (none when detached) and HEAD commit.
#[derive(Clone, Debug)]
pub struct Worktree {
    pub path: String,
    pub branch: Option<String>,
    pub head: String,
}

/// The contents of a [`Worktree`].
pub struct WorktreeView {
    pub path: Seq<char>,
    pub branch: Option<Seq<char>>,
    pub head: Seq<char>,
}

impl View for Worktree {
    type V = WorktreeView;

    open spec fn view(&self) -> WorktreeView {
        WorktreeView { path: self.path@, branch: opt_view(self.branch), head: self.head@ }
    }
}

/// The contents of a sequence of worktrees.
pub open spec fn worktrees_view(v: Seq<Worktree>) -> Seq<WorktreeView> {
    v.map_values(|w: Worktree| w@)
}

/// One entry of `git status --porcelain=v1`.
#[derive(Clone, Debug)]
pub struct GitFileStatus {
    pub path: String,
    pub status_code: String,
    pub staged: bool,
    pub modified: bool,
}

/// The contents of a [`GitFileStatus`].
pub struct GitFileStatusView {
    pub path: Seq<char>,
    pub status_code: Seq<char>,
    pub staged: bool,
    pub modified: bool,
}

impl View for GitFileStatus {
    type V = GitFileStatusView;

    open spec fn view(&self) -> GitFileStatusView {
        GitFileStatusView {
            path: self.path@,
            status_code: self.status_code@,
            staged: self.staged,
            modified: self.modified,
        }
    }
}

/// The contents of a sequence of file statuses.
pub open spec fn statuses_view(v: Seq<GitFileStatus>) -> Seq<GitFileStatusView> {
    v.map_values(|s: GitFileStatus| s@)
}

/// What `git worktree add` created.
#[derive(Clone, Debug)]
pub struct WorktreeAddResult {
    pub path: String,
    pub branch: String,
}

/// What `git worktree remove` reported.
#[derive(Clone, Debug)]
pub struct WorktreeRemoveResult {
    pub success: bool,
    pub warning: Option<String>,
}

} // verus!
