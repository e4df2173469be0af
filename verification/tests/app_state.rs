use vibetree::app_state::{respond_to_event, AppEvent, AppState, EventResponse, PanelEffect};
use vibetree::panels::WorktreeAction;
use vibetree::config::WorkspaceState;
use vibetree::types::Worktree;

fn wt(path: &str, branch: Option<&str>) -> Worktree {
    Worktree { path: path.to_string(), branch: branch.map(|b| b.to_string()), head: "0".to_string() }
}

fn opened() -> (AppState, Option<String>) {
    let mut s = AppState::new();
    let spawn = s.open_project(
        "/p/proj".to_string(),
        vec![wt("/p/proj", Some("main")), wt("/p/proj-feat", Some("feat"))],
    );
    (s, spawn)
}

#[test]
fn new_state_is_empty() {
    let s = AppState::new();
    assert!(s.project_path.is_none());
    assert!(s.worktrees.is_empty());
    assert!(s.selected_worktree_idx.is_none());
    assert!(s.terminal_paths.is_empty());
    assert!(!s.sidebar_visible());
    assert!(s.active_wt_path().is_none());
}

#[test]
fn opening_a_project_selects_first_worktree() {
    let (s, spawn) = opened();
    assert_eq!(spawn.as_deref(), Some("/p/proj"));
    assert_eq!(s.project_name, "proj");
    assert_eq!(s.project_path.as_deref(), Some("/p/proj"));
    assert_eq!(s.selected_worktree_idx, Some(0));
    assert!(s.has_terminal(&"/p/proj".to_string()));
    assert!(!s.has_terminal(&"/p/proj-feat".to_string()));
    assert!(s.sidebar_visible());
}

#[test]
fn opening_a_project_without_worktrees_selects_nothing() {
    let mut s = AppState::new();
    assert!(s.open_project("/x".to_string(), vec![]).is_none());
    assert_eq!(s.project_name, "x");
    assert!(s.selected_worktree_idx.is_none());
}

#[test]
fn selecting_twice_spawns_once() {
    let (mut s, _) = opened();
    assert_eq!(s.select_worktree(1).as_deref(), Some("/p/proj-feat"));
    assert_eq!(s.select_worktree(1), None);
    assert_eq!(s.select_worktree(0), None);
    assert_eq!(s.terminal_paths.len(), 2);
    assert_eq!(s.selected_worktree_idx, Some(0));
}

#[test]
fn selecting_past_the_end_changes_nothing() {
    let (mut s, _) = opened();
    assert_eq!(s.select_worktree(5), None);
    assert_eq!(s.selected_worktree_idx, Some(0));
    assert_eq!(s.terminal_paths.len(), 1);
}

#[test]
fn active_worktree_path() {
    let (mut s, _) = opened();
    assert_eq!(s.active_wt_path().as_deref(), Some("/p/proj"));
    s.select_worktree(1);
    assert_eq!(s.active_wt_path().as_deref(), Some("/p/proj-feat"));
    s.refresh_worktrees(vec![wt("/p/proj", None)]);
    assert_eq!(s.selected_worktree_idx, Some(1));
    assert!(s.active_wt_path().is_none());
}

#[test]
fn created_worktree_is_selected_when_listed() {
    let (mut s, _) = opened();
    s.refresh_worktrees(vec![
        wt("/p/proj", Some("main")),
        wt("/p/proj-feat", Some("feat")),
        wt("/p/proj-new", Some("new")),
    ]);
    assert_eq!(s.worktree_created(&"/p/proj-new".to_string()).as_deref(), Some("/p/proj-new"));
    assert_eq!(s.selected_worktree_idx, Some(2));
    assert!(s.worktree_created(&"/p/elsewhere".to_string()).is_none());
    assert_eq!(s.selected_worktree_idx, Some(2));
}

#[test]
fn new_branch_dialog() {
    let (mut s, _) = opened();
    s.new_branch_name = "stale".to_string();
    s.open_new_branch_dialog();
    assert!(s.show_new_branch_dialog);
    assert_eq!(s.new_branch_name, "");
    s.new_branch_name.push_str("topic");
    assert_eq!(s.take_new_branch(), "topic");
    assert!(!s.show_new_branch_dialog);
    assert_eq!(s.new_branch_name, "");
    s.open_new_branch_dialog();
    s.new_branch_name.push_str("kept");
    s.cancel_new_branch_dialog();
    assert!(!s.show_new_branch_dialog);
    assert_eq!(s.new_branch_name, "kept");
}

#[test]
fn sidebar_toggle() {
    let (mut s, _) = opened();
    assert!(s.toggle_sidebar());
    assert!(!s.sidebar_visible());
    assert!(!s.toggle_sidebar());
    assert!(s.sidebar_visible());
}

#[test]
fn closing_drops_all_terminals() {
    let (mut s, _) = opened();
    s.select_worktree(1);
    s.close_all_terminals();
    assert!(s.terminal_paths.is_empty());
    assert!(!s.has_terminal(&"/p/proj".to_string()));
    assert_eq!(s.selected_worktree_idx, Some(1));
}

#[test]
fn event_responses() {
    assert_eq!(respond_to_event(&AppEvent::Redraw), EventResponse::RequestRedraw);
    assert_eq!(respond_to_event(&AppEvent::PtyOutput { session_id: 3 }), EventResponse::RequestRedraw);
    assert_eq!(respond_to_event(&AppEvent::CursorBlink), EventResponse::ToggleBlink);
    assert_eq!(
        respond_to_event(&AppEvent::PtyExited { session_id: 4, code: -1 }),
        EventResponse::LogExit { session_id: 4, code: -1 }
    );
}

#[test]
fn default_workspace_state_is_empty() {
    let w = WorkspaceState::default();
    assert!(w.open_paths.is_empty());
    assert!(w.active_index.is_none());
}

#[test]
fn panel_actions() {
    let (mut s, _) = opened();
    assert!(matches!(s.handle_worktree_action(WorktreeAction::Select(1)), PanelEffect::SpawnTerminal(p) if p == "/p/proj-feat"));
    assert!(matches!(s.handle_worktree_action(WorktreeAction::Select(1)), PanelEffect::Nothing));
    assert!(matches!(s.handle_worktree_action(WorktreeAction::Refresh), PanelEffect::RefreshWorktrees));
    assert!(matches!(s.handle_worktree_action(WorktreeAction::Delete(1)), PanelEffect::DeleteRequested(1)));
    assert!(matches!(s.handle_worktree_action(WorktreeAction::PullRemote), PanelEffect::PullRequested));
    assert!(matches!(s.handle_worktree_action(WorktreeAction::ResizeSidebar(7)), PanelEffect::ResizeSidebar(7)));
    assert!(matches!(s.handle_worktree_action(WorktreeAction::ToggleCollapse), PanelEffect::SidebarToggled(true)));
    assert!(s.sidebar_collapsed);
    s.new_branch_name.push_str("old");
    assert!(matches!(s.handle_worktree_action(WorktreeAction::CreateNew), PanelEffect::Nothing));
    assert!(s.show_new_branch_dialog);
    assert_eq!(s.new_branch_name, "");
    assert_eq!(s.selected_worktree_idx, Some(1));
}

#[test]
fn paths_compare_by_components() {
    let mut s = AppState::new();
    s.open_project("/p/proj".to_string(), vec![wt("/p/proj/", Some("main")), wt("/p/proj-x", Some("x"))]);
    assert!(s.has_terminal(&"/p/proj".to_string()));
    assert!(s.has_terminal(&"/p//proj/".to_string()));
    assert_eq!(s.worktree_created(&"/p/proj-x/".to_string()).as_deref(), Some("/p/proj-x"));
    assert_eq!(s.selected_worktree_idx, Some(1));
    assert_eq!(s.worktree_created(&"/p/./proj-x".to_string()), None);
    assert_eq!(s.terminal_paths.len(), 2);
}
