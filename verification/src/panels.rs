//! What the side panels show and ask for: the worktree list's rows and
//! buttons, and the portal's grouping of detected items. Drawing them is
//! the UI toolkit's.
use vstd::prelude::*;

use crate::colors::{opaque, rgb, Rgba};
use crate::git_parser::{is_main_branch, main_branch};
use crate::portal::{items_view, DetectedItem, DetectedKind, DetectedKindView, ItemView};
use crate::text::{chars_of, contains, contains_exec};
use crate::types::{Worktree, WorktreeView};

verus! {

/// Codicon glyph of the repo-sync icon.
pub const ICON_SYNC: &'static str = "\u{EA77}";

/// Codicon glyph of the repo-pull icon.
pub const ICON_REPO_PULL: &'static str = "\u{EB40}";

/// Codicon glyph of the plus icon.
pub const ICON_ADD: &'static str = "\u{EA60}";

/// Codicon glyph of the close icon.
pub const ICON_CLOSE: &'static str = "\u{EA76}";

/// Codicon glyph of the collapse-left icon.
pub const ICON_CHEVRON_LEFT: &'static str = "\u{EAB6}";

/// Codicon glyph of the expand-right icon.
pub const ICON_CHEVRON_RIGHT: &'static str = "\u{EAB7}";

/// Codicon glyph of the git-branch icon.
pub const ICON_GIT_BRANCH: &'static str = "\u{EA68}";

/// Codicon glyph of the folder icon.
pub const ICON_FOLDER: &'static str = "\u{EA83}";

/// Codicon glyph of the file icon.
pub const ICON_FILE: &'static str = "\u{EA7B}";

/// Codicon glyph of the terminal icon.
pub const ICON_TERMINAL: &'static str = "\u{EA85}";

/// Codicon glyph of the gear icon.
pub const ICON_SETTINGS: &'static str = "\u{EB52}";

/// Codicon glyph of the search icon.
pub const ICON_SEARCH: &'static str = "\u{EA6D}";

/// Codicon glyph of the delete icon.
pub const ICON_TRASH: &'static str = "\u{EA81}";

/// Actions emitted by the worktree panel.
#[derive(Debug, Clone, Copy, PartialEq, Eq, Structural)]
pub enum WorktreeAction {
    Select(usize),
    CreateNew,
    Delete(usize),
    Refresh,
    PullRemote,
    ToggleCollapse,
    /// The new sidebar width, as the bit pattern of an `f32`.
    ResizeSidebar(u32),
}

/// How one row of the worktree list is shown.
pub struct WorktreeRowStyle {
    /// The branch icon and name (`(detached)` without a branch).
    pub label: String,
    /// The primary worktree (the first) or a `main`/`master` branch.
    pub is_main: bool,
    pub text_color: Rgba,
    pub background: Rgba,
    /// Whether the row has a delete button (not for main worktrees).
    pub deletable: bool,
}

/// The name shown for a worktree's branch.
pub open spec fn branch_label(b: Option<Seq<char>>) -> Seq<char> {
    match b {
        Some(n) => n,
        None => "(detached)"@,
    }
}

/// Whether row `i` shows a main worktree.
pub open spec fn row_is_main(i: usize, wt: WorktreeView) -> bool {
    i == 0 || main_branch(branch_label(wt.branch))
}

/// The text colour of a row: white when selected, blue for main
/// worktrees, light grey otherwise.
pub open spec fn row_text_color(selected: bool, is_main: bool) -> Rgba {
    if selected {
        rgb(255, 255, 255)
    } else if is_main {
        rgb(114, 159, 207)
    } else {
        rgb(200, 200, 200)
    }
}

/// The background of a row: dark grey when selected, else transparent.
pub open spec fn row_background(selected: bool) -> Rgba {
    if selected {
        rgb(55, 55, 60)
    } else {
        Rgba { r: 0, g: 0, b: 0, a: 0 }
    }
}

/// How row `i` of the worktree list is shown.
pub fn worktree_row(i: usize, wt: &Worktree, selected_idx: Option<usize>) -> (s: WorktreeRowStyle)
    ensures
        s.label@ == ICON_GIT_BRANCH@ + " "@ + branch_label(wt@.branch),
        s.is_main == row_is_main(i, wt@),
        s.deletable == !s.is_main,
        s.text_color == row_text_color(selected_idx == Some(i), s.is_main),
        s.background == row_background(selected_idx == Some(i)),
{
    let branch_name: &str = match &wt.branch {
        Some(b) => b.as_str(),
        None => "(detached)",
    };
    let is_main = i == 0 || is_main_branch(branch_name);
    let selected = match selected_idx {
        Some(s) => s == i,
        None => false,
    };
    let mut label = ICON_GIT_BRANCH.to_owned();
    label.append(" ");
    label.append(branch_name);
    let text_color = if selected {
        opaque(255, 255, 255)
    } else if is_main {
        opaque(114, 159, 207)
    } else {
        opaque(200, 200, 200)
    };
    let background = if selected {
        opaque(55, 55, 60)
    } else {
        Rgba { r: 0, g: 0, b: 0, a: 0 }
    };
    WorktreeRowStyle { label, is_main, text_color, background, deletable: !is_main }
}

/// A row shows a main worktree (one `worktree_row` offers no delete button
/// for) exactly when it is the first row or its branch is `main` or
/// `master`; a detached worktree is main only as the first row.
pub proof fn law_main_rows(i: usize, wt: WorktreeView)
    ensures
        row_is_main(i, wt) == (i == 0 || wt.branch == Some("main"@) || wt.branch == Some(
            "master"@,
        )),
{
    reveal_strlit("main");
    reveal_strlit("master");
    reveal_strlit("(detached)");
    if wt.branch is None {
        assert("(detached)"@.len() == 10);
        assert("main"@.len() == 4);
        assert("master"@.len() == 6);
    }
}

/// The sync button of the worktree panel: its icon, tooltip, and what a
/// click asks for.
pub struct SyncButton {
    pub icon: &'static str,
    pub tooltip: &'static str,
    pub action: WorktreeAction,
}

/// The sync button: pull when the remote has updates, refresh otherwise.
pub fn sync_button(has_remote_updates: bool) -> (b: SyncButton)
    ensures
        has_remote_updates ==> b.action == WorktreeAction::PullRemote && b.icon@ == ICON_REPO_PULL@
            && b.tooltip@ == "Remote has new changes - click to pull"@,
        !has_remote_updates ==> b.action == WorktreeAction::Refresh && b.icon@ == ICON_SYNC@
            && b.tooltip@ == "Sync with remote (every 60s)"@,
{
    if has_remote_updates {
        SyncButton {
            icon: ICON_REPO_PULL,
            tooltip: "Remote has new changes - click to pull",
            action: WorktreeAction::PullRemote,
        }
    } else {
        SyncButton {
            icon: ICON_SYNC,
            tooltip: "Sync with remote (every 60s)",
            action: WorktreeAction::Refresh,
        }
    }
}

// ---------------------------------------------------------------------------
// Portal panel
// ---------------------------------------------------------------------------

/// The section of the portal panel an item is listed in.
#[derive(Debug, Clone, Copy, PartialEq, Eq, Structural)]
pub enum Section {
    Urls,
    Applications,
    BuildOutput,
    Files,
}

/// The section of an item's kind.
pub open spec fn section_of(k: DetectedKindView) -> Section {
    match k {
        DetectedKindView::Url => Section::Urls,
        DetectedKindView::AppLaunch(_) => Section::Applications,
        DetectedKindView::BuildOutput => Section::BuildOutput,
        DetectedKindView::FilePath => Section::Files,
    }
}

/// The indices of the items in section `s`, newest (last) first.
pub open spec fn section_items(items: Seq<ItemView>, s: Section) -> Seq<usize>
    decreases items.len(),
{
    if items.len() == 0 {
        seq![]
    } else {
        let rest = section_items(items.drop_last(), s);
        if section_of(items.last().kind) == s {
            seq![(items.len() - 1) as usize] + rest
        } else {
            rest
        }
    }
}

/// The portal's sections: indices of the items in each, newest first.
pub struct PortalGroups {
    pub urls: Vec<usize>,
    pub apps: Vec<usize>,
    pub builds: Vec<usize>,
    pub files: Vec<usize>,
}

/// The section of an item.
fn item_section(k: &DetectedKind) -> (s: Section)
    ensures
        s == section_of(k@),
{
    match k {
        DetectedKind::Url => Section::Urls,
        DetectedKind::AppLaunch(_) => Section::Applications,
        DetectedKind::BuildOutput => Section::BuildOutput,
        DetectedKind::FilePath => Section::Files,
    }
}

/// The indices of the items in one section, newest first.
fn collect_section(items: &[DetectedItem], s: Section) -> (v: Vec<usize>)
    ensures
        v@ == section_items(items_view(items@), s),
{
    let ghost iv = items_view(items@);
    let mut v: Vec<usize> = Vec::new();
    let mut i: usize = items.len();
    assert(iv.take(iv.len() as int) == iv);
    assert(section_items(iv.take(iv.len() as int), s) == section_items(iv, s));
    while i > 0
        invariant
            i <= items@.len(),
            iv == items_view(items@),
            section_items(iv, s) == v@ + section_items(iv.take(i as int), s),
        decreases i,
    {
        assert(iv.take(i as int).drop_last() == iv.take(i - 1));
        assert(iv.take(i as int).last() == items@[i - 1]@);
        if item_section(&items[i - 1].kind) == s {
            let ghost prev = v@;
            v.push(i - 1);
            assert(v@ + section_items(iv.take(i - 1), s) =~= prev + (seq![(i - 1) as usize]
                + section_items(iv.take(i - 1), s)));
        }
        i = i - 1;
    }
    assert(section_items(iv.take(0), s) =~= Seq::<usize>::empty());
    assert(v@ + Seq::<usize>::empty() =~= v@);
    v
}

/// Groups the detected items by section, newest first.
pub fn group_items(items: &[DetectedItem]) -> (g: PortalGroups)
    ensures
        g.urls@ == section_items(items_view(items@), Section::Urls),
        g.apps@ == section_items(items_view(items@), Section::Applications),
        g.builds@ == section_items(items_view(items@), Section::BuildOutput),
        g.files@ == section_items(items_view(items@), Section::Files),
{
    PortalGroups {
        urls: collect_section(items, Section::Urls),
        apps: collect_section(items, Section::Applications),
        builds: collect_section(items, Section::BuildOutput),
        files: collect_section(items, Section::Files),
    }
}

/// The buttons of the portal panel's header and item rows.
#[derive(Debug, Clone, Copy, PartialEq, Eq, Structural)]
pub struct PortalButtons {
    /// Release the embedded window.
    pub release: bool,
    /// Grab any running window into the portal.
    pub grab: bool,
    /// Clear all detected items.
    pub clear: bool,
    /// Embed an application's window (on each application row).
    pub embed: bool,
}

/// Which portal buttons show: release while a window is embedded; grab and
/// embed otherwise; clear when there are items and nothing is embedded.
pub fn portal_buttons(has_items: bool, has_embedded: bool) -> (b: PortalButtons)
    ensures
        b == (PortalButtons {
            release: has_embedded,
            grab: !has_embedded,
            clear: has_items && !has_embedded,
            embed: !has_embedded,
        }),
{
    PortalButtons {
        release: has_embedded,
        grab: !has_embedded,
        clear: has_items && !has_embedded,
        embed: !has_embedded,
    }
}

/// The colour of a build message: red when it mentions `error`, yellow otherwise.
pub open spec fn build_color(value: Seq<char>) -> Rgba {
    if contains(value, "error"@) {
        rgb(239, 41, 41)
    } else {
        rgb(252, 233, 79)
    }
}

/// The colour of a build message.
pub fn build_item_color(value: &String) -> (c: Rgba)
    ensures
        c == build_color(value@),
{
    let v = chars_of(value.as_str());
    let e = chars_of("error");
    if contains_exec(&v, &e) {
        opaque(239, 41, 41)
    } else {
        opaque(252, 233, 79)
    }
}

} // verus!
