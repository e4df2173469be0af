use vibetree::colors::Rgba;
use vibetree::panels::{build_item_color, group_items, portal_buttons, sync_button, worktree_row, WorktreeAction, ICON_GIT_BRANCH, ICON_REPO_PULL, ICON_SYNC};
use vibetree::portal::scan_output;
use vibetree::types::Worktree;

fn rgb(r: u8, g: u8, b: u8) -> Rgba {
    Rgba { r, g, b, a: 255 }
}

fn wt(branch: Option<&str>) -> Worktree {
    Worktree { path: "/p".to_string(), branch: branch.map(|b| b.to_string()), head: "0".to_string() }
}

#[test]
fn first_row_is_main() {
    let row = worktree_row(0, &wt(Some("feature")), None);
    assert_eq!(row.label, format!("{} feature", ICON_GIT_BRANCH));
    assert!(row.is_main && !row.deletable);
    assert_eq!(row.text_color, rgb(114, 159, 207));
    assert_eq!(row.background, Rgba { r: 0, g: 0, b: 0, a: 0 });
}

#[test]
fn master_row_selected() {
    let row = worktree_row(2, &wt(Some("master")), Some(2));
    assert!(row.is_main && !row.deletable);
    assert_eq!(row.text_color, rgb(255, 255, 255));
    assert_eq!(row.background, rgb(55, 55, 60));
}

#[test]
fn detached_row_is_deletable() {
    let row = worktree_row(1, &wt(None), Some(0));
    assert_eq!(row.label, "\u{EA68} (detached)");
    assert!(!row.is_main && row.deletable);
    assert_eq!(row.text_color, rgb(200, 200, 200));
}

#[test]
fn sync_button_pulls_when_remote_has_updates() {
    let b = sync_button(true);
    assert_eq!(b.action, WorktreeAction::PullRemote);
    assert_eq!(b.icon, ICON_REPO_PULL);
    assert_eq!(b.tooltip, "Remote has new changes - click to pull");
    let b = sync_button(false);
    assert_eq!(b.action, WorktreeAction::Refresh);
    assert_eq!(b.icon, ICON_SYNC);
    assert_eq!(b.tooltip, "Sync with remote (every 60s)");
}

#[test]
fn items_grouped_newest_first() {
    let items = scan_output(
        "https://one.example\n$ vim a\nerror: x\nhttps://two.example\n   Writing /tmp/f\n",
    );
    let g = group_items(&items);
    assert_eq!(g.urls, vec![3, 0]);
    assert_eq!(g.apps, vec![1]);
    assert_eq!(g.builds, vec![2]);
    assert_eq!(g.files, vec![4]);
}

#[test]
fn build_message_colours() {
    assert_eq!(build_item_color(&"error: x".to_string()), rgb(239, 41, 41));
    assert_eq!(build_item_color(&"warning: y".to_string()), rgb(252, 233, 79));
}

#[test]
fn portal_header_buttons() {
    let b = portal_buttons(true, false);
    assert!(!b.release && b.grab && b.clear && b.embed);
    let b = portal_buttons(false, false);
    assert!(!b.release && b.grab && !b.clear && b.embed);
    let b = portal_buttons(true, true);
    assert!(b.release && !b.grab && !b.clear && !b.embed);
}
