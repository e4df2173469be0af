//! The application's state machine: the open project, its worktrees, the
//! selected worktree and which worktrees have a terminal, the new-branch
//! dialog and the sidebar. The window, the GPU and the processes are the
//! caller's; each transition says what the caller has to do.
use vstd::prelude::*;

use crate::git_commands::{path_matches, paths_match, project_name, project_name_spec};
use crate::panels::WorktreeAction;
use crate::types::{worktrees_view, Worktree, WorktreeView};

verus! {

/// Custom events sent to the window event loop.
#[derive(Debug, Clone, PartialEq, Eq, Structural)]
pub enum AppEvent {
    /// PTY output received; the terminal needs redraw.
    PtyOutput { session_id: u64 },
    /// PTY session exited.
    PtyExited { session_id: u64, code: i32 },
    /// Cursor blink timer tick.
    CursorBlink,
    /// Request a redraw.
    Redraw,
}

/// What the event loop does with a custom event.
#[derive(Debug, Clone, Copy, PartialEq, Eq, Structural)]
pub enum EventResponse {
    /// Ask the window for a redraw.
    RequestRedraw,
    /// Toggle the cursor blink, then redraw if the renderer asks for it.
    ToggleBlink,
    /// Note that a session ended.
    LogExit { session_id: u64, code: i32 },
}

/// What the event loop does with a custom event: redraw on output or on
/// request, blink on a tick, note an exit.
pub fn respond_to_event(event: &AppEvent) -> (r: EventResponse)
    ensures
        r == (match *event {
            AppEvent::PtyOutput { .. } => EventResponse::RequestRedraw,
            AppEvent::Redraw => EventResponse::RequestRedraw,
            AppEvent::CursorBlink => EventResponse::ToggleBlink,
            AppEvent::PtyExited { session_id, code } => EventResponse::LogExit { session_id, code },
        }),
{
    match event {
        AppEvent::PtyOutput { .. } => EventResponse::RequestRedraw,
        AppEvent::Redraw => EventResponse::RequestRedraw,
        AppEvent::CursorBlink => EventResponse::ToggleBlink,
        AppEvent::PtyExited { session_id, code } => EventResponse::LogExit {
            session_id: *session_id,
            code: *code,
        },
    }
}

/// The contents of a list of paths.
pub open spec fn paths_view(v: Seq<String>) -> Seq<Seq<char>> {
    v.map_values(|s: String| s@)
}

/// The application state that the event loop acts on.
pub struct AppState {
    pub project_path: Option<String>,
    pub project_name: String,
    pub worktrees: Vec<Worktree>,
    pub selected_worktree_idx: Option<usize>,
    /// The worktree paths that have a terminal, each once.
    pub terminal_paths: Vec<String>,
    pub show_new_branch_dialog: bool,
    pub new_branch_name: String,
    pub sidebar_collapsed: bool,
}

/// The path of worktree `idx`, when there is one.
pub open spec fn worktree_path_at(ws: Seq<WorktreeView>, idx: int) -> Option<Seq<char>> {
    if 0 <= idx < ws.len() {
        Some(ws[idx].path)
    } else {
        None
    }
}

/// Whether one of the paths `ts` names the same place as `p`.
pub open spec fn has_path(ts: Seq<Seq<char>>, p: Seq<char>) -> bool {
    exists|k: int| 0 <= k < ts.len() && path_matches(#[trigger] ts[k], p)
}

/// No two of the paths `ts` name the same place.
pub open spec fn distinct_paths(ts: Seq<Seq<char>>) -> bool {
    forall|i: int, j: int| 0 <= i < j < ts.len() ==> !path_matches(#[trigger] ts[i], #[trigger] ts[j])
}

/// The index of the first worktree at `path`.
pub open spec fn position_of(ws: Seq<WorktreeView>, path: Seq<char>) -> Option<int>
    decreases ws.len(),
{
    if ws.len() == 0 {
        None
    } else if path_matches(ws[0].path, path) {
        Some(0)
    } else {
        match position_of(ws.drop_first(), path) {
            Some(i) => Some(i + 1),
            None => None,
        }
    }
}

/// What selecting worktree `idx` does to state `s0`, giving `s1` and the
/// path whose terminal has to be spawned: an index past the end changes
/// nothing; otherwise the worktree becomes the selected one and has a
/// terminal, a new one (whose path is handed back) only if it had none.
pub open spec fn select_outcome(s0: AppState, s1: AppState, idx: usize, spawn: Option<String>) -> bool {
    if idx >= s0.worktrees@.len() {
        spawn is None && s1 == s0
    } else {
        let p = s0.worktrees@[idx as int].path@;
        if has_path(s0.terminals(), p) {
            spawn is None && s1 == (AppState { selected_worktree_idx: Some(idx), ..s0 })
        } else {
            &&& spawn matches Some(s) && s@ == p
            &&& s1 == (AppState {
                selected_worktree_idx: Some(idx),
                terminal_paths: s1.terminal_paths,
                ..s0
            })
            &&& s1.terminals() == s0.terminals().push(p)
        }
    }
}

/// `s1` is `s0` with the sidebar collapsed if it was expanded, and expanded
/// if it was collapsed.
pub open spec fn sidebar_toggled(s0: AppState, s1: AppState) -> bool {
    s1 == (AppState { sidebar_collapsed: !s0.sidebar_collapsed, ..s0 })
}

/// The selection and the terminals are equal.
pub open spec fn same_selection(a: AppState, b: AppState) -> bool {
    &&& a.selected_worktree_idx == b.selected_worktree_idx
    &&& a.terminals() == b.terminals()
}

/// What the caller does after the worktree panel asked for something.
#[derive(Debug, Clone)]
pub enum PanelEffect {
    /// Nothing more.
    Nothing,
    /// Spawn a terminal in the worktree at this path.
    SpawnTerminal(String),
    /// List the worktrees again and hand them to `refresh_worktrees`.
    RefreshWorktrees,
    /// Deleting worktree `i` was asked for (it is only reported).
    DeleteRequested(usize),
    /// Pulling from the remote was asked for (it is only reported).
    PullRequested,
    /// The sidebar was collapsed (`true`) or expanded.
    SidebarToggled(bool),
    /// The sidebar is to take this width (the bit pattern of an `f32`).
    ResizeSidebar(u32),
}

/// The path an effect asks a terminal for, if any.
pub open spec fn spawned(e: PanelEffect) -> Option<String> {
    match e {
        PanelEffect::SpawnTerminal(p) => Some(p),
        _ => None,
    }
}

/// What handling a worktree panel action does to state `s0`, giving `s1`
/// and the effect left to the caller.
pub open spec fn panel_outcome(s0: AppState, s1: AppState, action: WorktreeAction, e: PanelEffect) -> bool {
    match action {
        WorktreeAction::Select(idx) => (e is Nothing || e is SpawnTerminal) && select_outcome(
            s0,
            s1,
            idx,
            spawned(e),
        ),
        WorktreeAction::CreateNew => {
            &&& e is Nothing
            &&& s1.new_branch_name@.len() == 0
            &&& s1 == (AppState {
                show_new_branch_dialog: true,
                new_branch_name: s1.new_branch_name,
                ..s0
            })
        },
        WorktreeAction::Refresh => e is RefreshWorktrees && s1 == s0,
        WorktreeAction::Delete(i) => e == PanelEffect::DeleteRequested(i) && s1 == s0,
        WorktreeAction::PullRemote => e is PullRequested && s1 == s0,
        WorktreeAction::ToggleCollapse => e == PanelEffect::SidebarToggled(!s0.sidebar_collapsed)
            && sidebar_toggled(s0, s1),
        WorktreeAction::ResizeSidebar(w) => e == PanelEffect::ResizeSidebar(w) && s1 == s0,
    }
}

impl AppState {
    /// The paths of the worktrees that have a terminal.
    pub open spec fn terminals(&self) -> Seq<Seq<char>> {
        paths_view(self.terminal_paths@)
    }

    /// The state invariant: each terminal path occurs once.
    pub open spec fn wf(&self) -> bool {
        distinct_paths(self.terminals())
    }

    /// No project, no worktrees, no terminals, sidebar open.
    pub fn new() -> (s: Self)
        ensures
            s.wf(),
            s.project_path is None,
            s.project_name@.len() == 0,
            s.worktrees@.len() == 0,
            s.selected_worktree_idx is None,
            s.terminals().len() == 0,
            !s.show_new_branch_dialog,
            s.new_branch_name@.len() == 0,
            !s.sidebar_collapsed,
    {
        let s = AppState {
            project_path: None,
            project_name: String::new(),
            worktrees: Vec::new(),
            selected_worktree_idx: None,
            terminal_paths: Vec::new(),
            show_new_branch_dialog: false,
            new_branch_name: String::new(),
            sidebar_collapsed: false,
        };
        assert(s.terminals() =~= Seq::<Seq<char>>::empty());
        s
    }

    /// Whether worktree `path` has a terminal.
    pub fn has_terminal(&self, path: &String) -> (b: bool)
        ensures
            b == has_path(self.terminals(), path@),
    {
        let mut i: usize = 0;
        while i < self.terminal_paths.len()
            invariant
                i <= self.terminal_paths@.len(),
                forall|k: int| 0 <= k < i ==> !path_matches(#[trigger] self.terminals()[k], path@),
            decreases self.terminal_paths@.len() - i,
        {
            if paths_match(self.terminal_paths[i].as_str(), path.as_str()) {
                assert(path_matches(self.terminals()[i as int], path@));
                return true;
            }
            i = i + 1;
        }
        false
    }

    /// Select worktree `idx`. Returns the path of the worktree whose
    /// terminal has to be spawned, if it has none yet (it is then recorded
    /// as having one). An index past the end changes nothing.
    pub fn select_worktree(&mut self, idx: usize) -> (spawn: Option<String>)
        requires
            old(self).wf(),
        ensures
            final(self).wf(),
            select_outcome(*old(self), *final(self), idx, spawn),
    {
        if idx >= self.worktrees.len() {
            return None;
        }
        self.selected_worktree_idx = Some(idx);
        let path = self.worktrees[idx].path.clone();
        if self.has_terminal(&path) {
            None
        } else {
            let ghost prev = self.terminal_paths@;
            self.terminal_paths.push(path.clone());
            assert(self.terminals() =~= paths_view(prev).push(path@));
            proof {
                let t = self.terminals();
                assert(t.len() == paths_view(prev).len() + 1);
                assert forall|a: int, b: int| 0 <= a < b < t.len() implies !path_matches(
                    #[trigger] t[a],
                    #[trigger] t[b],
                ) by {
                    assert(t[a] == paths_view(prev)[a]);
                    if b < t.len() - 1 {
                        assert(t[b] == paths_view(prev)[b]);
                    } else {
                        assert(t[b] == path@);
                    }
                }
                assert(t[t.len() - 1] == path@);
            }
            Some(path)
        }
    }

    /// The path of the selected worktree.
    pub fn active_wt_path(&self) -> (p: Option<String>)
        ensures
            match self.selected_worktree_idx {
                Some(i) => match p {
                    Some(s) => worktree_path_at(worktrees_view(self.worktrees@), i as int) == Some(
                        s@,
                    ),
                    None => worktree_path_at(worktrees_view(self.worktrees@), i as int) is None,
                },
                None => p is None,
            },
    {
        match self.selected_worktree_idx {
            Some(idx) => {
                if idx < self.worktrees.len() {
                    Some(self.worktrees[idx].path.clone())
                } else {
                    None
                }
            },
            None => None,
        }
    }

    /// Opens a project with the worktrees listed for it and selects the
    /// first one; returns the path whose terminal has to be spawned.
    pub fn open_project(&mut self, path: String, worktrees: Vec<Worktree>) -> (spawn: Option<
        String,
    >)
        requires
            old(self).wf(),
        ensures
            final(self).wf(),
            final(self).project_path == Some(path),
            final(self).project_name@ == project_name_spec(path@),
            worktrees_view(final(self).worktrees@) == worktrees_view(worktrees@),
            final(self).show_new_branch_dialog == old(self).show_new_branch_dialog,
            final(self).new_branch_name@ == old(self).new_branch_name@,
            final(self).sidebar_collapsed == old(self).sidebar_collapsed,
            worktrees@.len() == 0 ==> spawn is None && same_selection(*final(self), *old(self)),
            worktrees@.len() > 0 ==> select_outcome(
                AppState {
                    project_path: final(self).project_path,
                    project_name: final(self).project_name,
                    worktrees: final(self).worktrees,
                    ..*old(self)
                },
                *final(self),
                0,
                spawn,
            ),
    {
        let name = project_name(path.as_str());
        self.project_path = Some(path);
        self.project_name = name;
        self.worktrees = worktrees;
        if self.worktrees.len() > 0 {
            self.select_worktree(0)
        } else {
            None
        }
    }

    /// Replaces the worktrees with a fresh listing (the selection is kept).
    pub fn refresh_worktrees(&mut self, worktrees: Vec<Worktree>)
        ensures
            *final(self) == (AppState { worktrees, ..*old(self) }),
    {
        self.worktrees = worktrees;
    }

    /// After a worktree was created at `path` (and the listing refreshed):
    /// selects it when it is listed; returns the path whose terminal has to
    /// be spawned.
    pub fn worktree_created(&mut self, path: &String) -> (spawn: Option<String>)
        requires
            old(self).wf(),
        ensures
            final(self).wf(),
            position_of(worktrees_view(old(self).worktrees@), path@) is None ==> spawn is None
                && *final(self) == *old(self),
            position_of(worktrees_view(old(self).worktrees@), path@) matches Some(i)
                ==> select_outcome(*old(self), *final(self), i as usize, spawn),
    {
        let ghost ws = worktrees_view(self.worktrees@);
        let mut i: usize = 0;
        assert(ws.skip(0) == ws);
        while i < self.worktrees.len()
            invariant
                *self == *old(self),
                old(self).wf(),
                i <= self.worktrees@.len(),
                ws == worktrees_view(self.worktrees@),
                position_of(ws, path@) == (match position_of(ws.skip(i as int), path@) {
                    Some(k) => Some(k + i),
                    None => None,
                }),
            decreases self.worktrees@.len() - i,
        {
            assert(ws.skip(i as int)[0] == ws[i as int]);
            assert(ws.skip(i as int).drop_first() == ws.skip(i + 1));
            if paths_match(self.worktrees[i].path.as_str(), path.as_str()) {
                return self.select_worktree(i);
            }
            i = i + 1;
        }
        assert(ws.skip(i as int).len() == 0);
        None
    }

    /// Opens the new-branch dialog with an empty name.
    pub fn open_new_branch_dialog(&mut self)
        ensures
            final(self).new_branch_name@.len() == 0,
            *final(self) == (AppState {
                show_new_branch_dialog: true,
                new_branch_name: final(self).new_branch_name,
                ..*old(self)
            }),
    {
        self.show_new_branch_dialog = true;
        self.new_branch_name = String::new();
    }

    /// Closes the new-branch dialog after a branch was asked for: hands
    /// back the name typed and clears it.
    pub fn take_new_branch(&mut self) -> (name: String)
        ensures
            name == old(self).new_branch_name,
            final(self).new_branch_name@.len() == 0,
            *final(self) == (AppState {
                show_new_branch_dialog: false,
                new_branch_name: final(self).new_branch_name,
                ..*old(self)
            }),
    {
        let mut name = String::new();
        std::mem::swap(&mut name, &mut self.new_branch_name);
        self.show_new_branch_dialog = false;
        name
    }

    /// Closes the new-branch dialog without creating anything.
    pub fn cancel_new_branch_dialog(&mut self)
        ensures
            *final(self) == (AppState { show_new_branch_dialog: false, ..*old(self) }),
    {
        self.show_new_branch_dialog = false;
    }

    /// Collapses or expands the sidebar; returns whether it is now collapsed.
    pub fn toggle_sidebar(&mut self) -> (collapsed: bool)
        ensures
            collapsed == !old(self).sidebar_collapsed,
            final(self).sidebar_collapsed == collapsed,
            sidebar_toggled(*old(self), *final(self)),
    {
        self.sidebar_collapsed = !self.sidebar_collapsed;
        self.sidebar_collapsed
    }

    /// The window closes: every terminal goes.
    pub fn close_all_terminals(&mut self)
        ensures
            final(self).wf(),
            final(self).terminals().len() == 0,
            *final(self) == (AppState { terminal_paths: final(self).terminal_paths, ..*old(self) }),
    {
        self.terminal_paths = Vec::new();
        assert(self.terminals() =~= Seq::<Seq<char>>::empty());
    }

    /// Handles what the worktree panel asked for: selects a worktree, opens
    /// the new-branch dialog or toggles the sidebar; what needs the outside
    /// world (a terminal, a fresh listing) is handed back.
    pub fn handle_worktree_action(&mut self, action: WorktreeAction) -> (e: PanelEffect)
        requires
            old(self).wf(),
        ensures
            final(self).wf(),
            panel_outcome(*old(self), *final(self), action, e),
    {
        match action {
            WorktreeAction::Select(idx) => match self.select_worktree(idx) {
                Some(p) => PanelEffect::SpawnTerminal(p),
                None => PanelEffect::Nothing,
            },
            WorktreeAction::CreateNew => {
                self.open_new_branch_dialog();
                PanelEffect::Nothing
            },
            WorktreeAction::Refresh => PanelEffect::RefreshWorktrees,
            WorktreeAction::Delete(i) => PanelEffect::DeleteRequested(i),
            WorktreeAction::PullRemote => PanelEffect::PullRequested,
            WorktreeAction::ToggleCollapse => PanelEffect::SidebarToggled(self.toggle_sidebar()),
            WorktreeAction::ResizeSidebar(w) => PanelEffect::ResizeSidebar(w),
        }
    }

    /// Whether the sidebar takes space: a project is open and the sidebar
    /// is not collapsed.
    pub fn sidebar_visible(&self) -> (b: bool)
        ensures
            b == (self.project_path is Some && !self.sidebar_collapsed),
    {
        self.project_path.is_some() && !self.sidebar_collapsed
    }
}

/// Selecting the same worktree twice spawns its terminal at most once: the
/// second selection asks for no terminal and changes nothing.
pub proof fn law_select_twice_spawns_once(
    s0: AppState,
    s1: AppState,
    s2: AppState,
    idx: usize,
    first: Option<String>,
    second: Option<String>,
)
    requires
        select_outcome(s0, s1, idx, first),
        select_outcome(s1, s2, idx, second),
    ensures
        second is None,
        s2 == s1,
{
    if idx < s0.worktrees@.len() {
        let p = s0.worktrees@[idx as int].path@;
        if !has_path(s0.terminals(), p) {
            let last = s1.terminals().len() - 1;
            assert(s1.terminals()[last] == p);
            assert(path_matches(s1.terminals()[last], p));
        } else {
            let k = choose|k: int| 0 <= k < s0.terminals().len() && path_matches(#[trigger] s0.terminals()[k], p);
            assert(s1.terminals()[k] == s0.terminals()[k]);
        }
        assert(has_path(s1.terminals(), p));
    }
}

/// The terminals that were there before a selection stay, and a selection
/// that spawns adds exactly one.
pub proof fn law_select_keeps_terminals(s0: AppState, s1: AppState, idx: usize, spawn: Option<String>)
    requires
        s0.wf(),
        select_outcome(s0, s1, idx, spawn),
    ensures
        forall|p: Seq<char>| s0.terminals().contains(p) ==> s1.terminals().contains(p),
        spawn is Some ==> s1.terminals().len() == s0.terminals().len() + 1,
{
    assert forall|p: Seq<char>| s0.terminals().contains(p) implies s1.terminals().contains(p) by {
        if idx < s0.worktrees@.len() && !has_path(s0.terminals(), s0.worktrees@[idx as int].path@) {
            let k = choose|k: int| 0 <= k < s0.terminals().len() && s0.terminals()[k] == p;
            assert(s1.terminals()[k] == p);
        }
    }
}

/// Toggling the sidebar twice leaves the state as it was.
pub proof fn law_toggle_sidebar_twice(s0: AppState, s1: AppState, s2: AppState)
    requires
        sidebar_toggled(s0, s1),
        sidebar_toggled(s1, s2),
    ensures
        s2 == s0,
{
}

} // verus!
