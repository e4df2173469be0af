//! Embedding external application windows over the portal area: finding
//! the window and working out where to place it. The X11 calls themselves
//! are made by the caller, which hands in what it read from the server.
use vstd::prelude::*;

use crate::text::{chars_of, contains, contains_exec};
use crate::types::opt_view;
use crate::git_commands::{spec_utf8_lossy, utf8_lossy};

verus! {

/// Why a window could not be embedded.
#[derive(Debug)]
pub enum EmbedError {
    WindowNotFound(u32),
    Failed(String),
    Unsupported,
}

/// Rect in screen pixels.
#[derive(Debug, Clone, Copy, PartialEq, Eq, Structural)]
pub struct EmbedRect {
    pub x: i32,
    pub y: i32,
    pub width: u32,
    pub height: u32,
}

/// Handle to an embedded window (the X11 connection stays with the caller).
#[derive(Debug, Clone, Copy)]
pub struct EmbeddedWindow {
    pub child_id: u64,
    pub original_parent: u64,
    pub parent_window_id: u64,
    pub portal_rect: EmbedRect,
    pub overlay_mode: bool,
}

/// What to ask of the window system: move and resize `window` to `rect`,
/// then raise it when `raise` is set.
#[derive(Debug, Clone, Copy, PartialEq, Eq, Structural)]
pub struct BoundsRequest {
    pub window: u64,
    pub rect: EmbedRect,
    pub raise: bool,
}

/// Whether `rect`, taken relative to a parent at `parent_pos`, has screen
/// coordinates that fit in `i32`.
pub open spec fn overlay_fits(parent_pos: (i32, i32), rect: EmbedRect) -> bool {
    i32::MIN <= parent_pos.0 + rect.x <= i32::MAX && i32::MIN <= parent_pos.1 + rect.y
        <= i32::MAX
}

/// `rect` moved from parent coordinates to screen coordinates.
pub open spec fn overlay_spec(parent_pos: (i32, i32), rect: EmbedRect) -> EmbedRect {
    EmbedRect {
        x: (parent_pos.0 + rect.x) as i32,
        y: (parent_pos.1 + rect.y) as i32,
        width: rect.width,
        height: rect.height,
    }
}

/// `rect`, relative to a parent window at `parent_pos`, in screen coordinates.
pub fn overlay_rect(parent_pos: (i32, i32), rect: EmbedRect) -> (r: EmbedRect)
    requires
        overlay_fits(parent_pos, rect),
    ensures
        r == overlay_spec(parent_pos, rect),
{
    EmbedRect {
        x: parent_pos.0 + rect.x,
        y: parent_pos.1 + rect.y,
        width: rect.width,
        height: rect.height,
    }
}

/// Where `set_bounds` places an embedded window: in overlay mode the rect
/// in screen coordinates and a raise, otherwise the rect as given.
pub open spec fn bounds_request(w: EmbeddedWindow, parent_pos: (i32, i32), rect: EmbedRect) -> BoundsRequest {
    BoundsRequest {
        window: w.child_id,
        rect: if w.overlay_mode {
            overlay_spec(parent_pos, rect)
        } else {
            rect
        },
        raise: w.overlay_mode,
    }
}

impl EmbeddedWindow {
    /// Reposition/resize the embedded window: in overlay mode the rect is
    /// moved to screen coordinates (the parent is at `parent_pos`) and the
    /// window raised; otherwise it is used as given.
    pub fn set_bounds(&self, parent_pos: (i32, i32), rect: EmbedRect) -> (req: BoundsRequest)
        requires
            self.overlay_mode ==> overlay_fits(parent_pos, rect),
        ensures
            req == bounds_request(*self, parent_pos, rect),
    {
        if self.overlay_mode {
            BoundsRequest { window: self.child_id, rect: overlay_rect(parent_pos, rect), raise: true }
        } else {
            BoundsRequest { window: self.child_id, rect, raise: false }
        }
    }
}

/// The first window (of the windows listed with their `_NET_WM_PID`) that
/// belongs to process `pid`.
pub open spec fn first_with_pid(windows: Seq<(u64, Option<u32>)>, pid: u32) -> Option<u64>
    decreases windows.len(),
{
    if windows.len() == 0 {
        None
    } else if windows[0].1 == Some(pid) {
        Some(windows[0].0)
    } else {
        first_with_pid(windows.drop_first(), pid)
    }
}

/// Find the first window belonging to process `target_pid`.
pub fn find_window_by_pid(windows: &[(u64, Option<u32>)], target_pid: u32) -> (r: Result<
    u64,
    EmbedError,
>)
    ensures
        match first_with_pid(windows@, target_pid) {
            Some(w) => r matches Ok(x) && x == w,
            None => r matches Err(EmbedError::WindowNotFound(p)) && p == target_pid,
        },
{
    let mut i: usize = 0;
    assert(windows@.skip(0) == windows@);
    while i < windows.len()
        invariant
            i <= windows@.len(),
            first_with_pid(windows@, target_pid) == first_with_pid(windows@.skip(i as int), target_pid),
        decreases windows@.len() - i,
    {
        assert(windows@.skip(i as int).drop_first() == windows@.skip(i + 1));
        assert(windows@.skip(i as int)[0] == windows@[i as int]);
        let (win, pid) = windows[i];
        if pid == Some(target_pid) {
            return Ok(win);
        }
        i = i + 1;
    }
    Err(EmbedError::WindowNotFound(target_pid))
}

/// The title of a window from its two name properties, each as read (its
/// bytes) or not: `_NET_WM_NAME` when read and not empty, else `WM_NAME`;
/// bytes that are not UTF-8 are replaced as `String::from_utf8_lossy` does.
pub open spec fn window_title_of(net_wm_name: Option<Seq<u8>>, wm_name: Option<Seq<u8>>) -> Option<
    Seq<char>,
> {
    if net_wm_name is Some && spec_utf8_lossy(net_wm_name->0).len() > 0 {
        Some(spec_utf8_lossy(net_wm_name->0))
    } else {
        match wm_name {
            Some(b) => Some(spec_utf8_lossy(b)),
            None => None,
        }
    }
}

/// The title of a window from its `_NET_WM_NAME` and `WM_NAME` properties.
pub fn window_title(net_wm_name: Option<&[u8]>, wm_name: Option<&[u8]>) -> (t: Option<String>)
    ensures
        match t {
            Some(s) => window_title_of(opt_bytes(net_wm_name), opt_bytes(wm_name)) == Some(s@),
            None => window_title_of(opt_bytes(net_wm_name), opt_bytes(wm_name)) is None,
        },
{
    match net_wm_name {
        Some(b) => {
            let s = utf8_lossy(b);
            if s.as_str().unicode_len() > 0 {
                return Some(s);
            }
        },
        None => {},
    }
    match wm_name {
        Some(b) => Some(utf8_lossy(b)),
        None => None,
    }
}

/// The contents of an optional byte string.
pub open spec fn opt_bytes(o: Option<&[u8]>) -> Option<Seq<u8>> {
    match o {
        Some(b) => Some(b@),
        None => None,
    }
}

/// Unicode lower case (`str::to_lowercase`).
pub uninterp spec fn spec_to_lowercase(s: Seq<char>) -> Seq<char>;

/// Calls `str::to_lowercase`; its result is named `spec_to_lowercase`.
#[verifier::external_body]
fn to_lowercase(s: &str) -> (r: String)
    ensures
        r@ == spec_to_lowercase(s@),
{
    s.to_lowercase()
}

/// The titles of listed windows.
pub open spec fn titles_view(windows: Seq<(u64, Option<String>)>) -> Seq<(u64, Option<Seq<char>>)> {
    windows.map_values(
        |w: (u64, Option<String>)|
            (
                w.0,
                match w.1 {
                    Some(t) => Some(t@),
                    None => None,
                },
            ),
    )
}

/// The listed windows with their titles lower-cased.
pub open spec fn lower_titles(windows: Seq<(u64, Option<Seq<char>>)>) -> Seq<(u64, Option<Seq<char>>)> {
    windows.map_values(
        |w: (u64, Option<Seq<char>>)|
            (
                w.0,
                match w.1 {
                    Some(t) => Some(spec_to_lowercase(t)),
                    None => None,
                },
            ),
    )
}

/// The first listed window whose title contains `needle`.
pub open spec fn first_containing(windows: Seq<(u64, Option<Seq<char>>)>, needle: Seq<char>) -> Option<
    u64,
>
    decreases windows.len(),
{
    if windows.len() == 0 {
        None
    } else if windows[0].1 is Some && contains(windows[0].1->0, needle) {
        Some(windows[0].0)
    } else {
        first_containing(windows.drop_first(), needle)
    }
}

/// The first window whose title matches `name`: the lower-cased name occurs
/// in the lower-cased title.
pub open spec fn first_with_title(windows: Seq<(u64, Option<Seq<char>>)>, name: Seq<char>) -> Option<
    u64,
> {
    first_containing(lower_titles(windows), spec_to_lowercase(name))
}

/// The first listed window whose title contains `needle`.
pub fn first_title_containing(windows: &[(u64, Option<String>)], needle: &str) -> (r: Option<u64>)
    ensures
        r == first_containing(titles_view(windows@), needle@),
{
    let ghost ws = titles_view(windows@);
    let needle_v = chars_of(needle);
    let mut i: usize = 0;
    assert(ws.skip(0) == ws);
    while i < windows.len()
        invariant
            i <= windows@.len(),
            ws == titles_view(windows@),
            needle_v@ == needle@,
            first_containing(ws, needle@) == first_containing(ws.skip(i as int), needle@),
        decreases windows@.len() - i,
    {
        assert(ws.skip(i as int).drop_first() == ws.skip(i + 1));
        assert(ws.skip(i as int)[0] == ws[i as int]);
        match &windows[i].1 {
            Some(title) => {
                let title_v = chars_of(title.as_str());
                if contains_exec(&title_v, &needle_v) {
                    return Some(windows[i].0);
                }
            },
            None => {},
        }
        i = i + 1;
    }
    assert(ws.skip(i as int).len() == 0);
    None
}

/// The message of a failed search by name.
pub open spec fn no_window_message(name: Seq<char>) -> Seq<char> {
    "No window with name '"@ + name + "'"@
}

/// Find the first window whose title contains `name`, ignoring case.
pub fn find_window_by_name(windows: &[(u64, Option<String>)], name: &str) -> (r: Result<
    u64,
    EmbedError,
>)
    ensures
        match first_with_title(titles_view(windows@), name@) {
            Some(w) => r matches Ok(x) && x == w,
            None => r matches Err(EmbedError::Failed(m)) && m@ == no_window_message(name@),
        },
{
    let ghost ws = titles_view(windows@);
    let mut lowered: Vec<(u64, Option<String>)> = Vec::new();
    let mut i: usize = 0;
    while i < windows.len()
        invariant
            i <= windows@.len(),
            ws == titles_view(windows@),
            lowered@.len() == i,
            titles_view(lowered@) == lower_titles(ws).take(i as int),
        decreases windows@.len() - i,
    {
        let title = match &windows[i].1 {
            Some(t) => Some(to_lowercase(t.as_str())),
            None => None,
        };
        let ghost prev = lowered@;
        let ghost tv: Option<Seq<char>> = opt_view(title);
        proof {
            let lw = lower_titles(ws)[i as int];
            assert(lw.0 == windows@[i as int].0);
            match windows@[i as int].1 {
                Some(t) => {
                    assert(ws[i as int].1 == Some(t@));
                    assert(lw.1 == Some(spec_to_lowercase(t@)));
                    assert(tv == lw.1);
                },
                None => {
                    assert(ws[i as int].1 is None);
                    assert(tv == lw.1);
                },
            }
        }
        lowered.push((windows[i].0, title));
        assert(titles_view(lowered@)[i as int] == lower_titles(ws)[i as int]);
        assert(titles_view(lowered@) =~= lower_titles(ws).take(i + 1)) by {
            assert forall|k: int| 0 <= k < i implies titles_view(lowered@)[k] == titles_view(prev)[k] by {
                assert(lowered@[k] == prev[k]);
            }
        }
        i = i + 1;
    }
    assert(lower_titles(ws).take(windows@.len() as int) =~= lower_titles(ws));
    let name_lower = to_lowercase(name);
    match first_title_containing(&lowered, name_lower.as_str()) {
        Some(w) => Ok(w),
        None => {
            let mut msg = "No window with name '".to_owned();
            msg.append(name);
            msg.append("'");
            Err(EmbedError::Failed(msg))
        },
    }
}

/// An overlaid embedding of `child_id` over the portal area `rect` of the
/// parent window, and the request that places it there.
pub open spec fn overlay_embedding(
    parent_window_id: u64,
    child_id: u64,
    root: u64,
    parent_pos: (i32, i32),
    rect: EmbedRect,
) -> (EmbeddedWindow, BoundsRequest) {
    (
        EmbeddedWindow {
            child_id,
            original_parent: root,
            parent_window_id,
            portal_rect: rect,
            overlay_mode: true,
        },
        BoundsRequest { window: child_id, rect: overlay_spec(parent_pos, rect), raise: true },
    )
}

/// Find a window belonging to a process and overlay it on the portal area
/// of a parent window (at `parent_pos` on the screen under `root`). The
/// request says where to move the window; it is then raised.
pub fn embed_window_by_pid(
    parent_window_id: u64,
    pid: u32,
    rect: EmbedRect,
    windows: &[(u64, Option<u32>)],
    root: u64,
    parent_pos: (i32, i32),
) -> (r: Result<(EmbeddedWindow, BoundsRequest), EmbedError>)
    requires
        first_with_pid(windows@, pid) is Some ==> overlay_fits(parent_pos, rect),
    ensures
        match first_with_pid(windows@, pid) {
            Some(child) => r matches Ok(e) && e == overlay_embedding(
                parent_window_id,
                child,
                root,
                parent_pos,
                rect,
            ),
            None => r matches Err(EmbedError::WindowNotFound(p)) && p == pid,
        },
{
    let child_id = find_window_by_pid(windows, pid)?;
    let abs = overlay_rect(parent_pos, rect);
    let win = EmbeddedWindow {
        child_id,
        original_parent: root,
        parent_window_id,
        portal_rect: rect,
        overlay_mode: true,
    };
    Ok((win, BoundsRequest { window: child_id, rect: abs, raise: true }))
}

/// Find a window by its name/title substring and overlay it on the portal
/// area of a parent window (at `parent_pos` on the screen under `root`).
pub fn embed_window_by_name(
    parent_window_id: u64,
    name: &str,
    rect: EmbedRect,
    windows: &[(u64, Option<String>)],
    root: u64,
    parent_pos: (i32, i32),
) -> (r: Result<(EmbeddedWindow, BoundsRequest), EmbedError>)
    requires
        first_with_title(titles_view(windows@), name@) is Some ==> overlay_fits(parent_pos, rect),
    ensures
        match first_with_title(titles_view(windows@), name@) {
            Some(child) => r matches Ok(e) && e == overlay_embedding(
                parent_window_id,
                child,
                root,
                parent_pos,
                rect,
            ),
            None => r matches Err(EmbedError::Failed(m)) && m@ == no_window_message(name@),
        },
{
    let child_id = find_window_by_name(windows, name)?;
    let abs = overlay_rect(parent_pos, rect);
    let win = EmbeddedWindow {
        child_id,
        original_parent: root,
        parent_window_id,
        portal_rect: rect,
        overlay_mode: true,
    };
    Ok((win, BoundsRequest { window: child_id, rect: abs, raise: true }))
}

/// Moving an embedded window to the portal area it was embedded with, from
/// the same parent position, asks for exactly the placement the embedding
/// asked for.
pub proof fn law_set_bounds_repeats_embedding(
    parent_window_id: u64,
    child_id: u64,
    root: u64,
    parent_pos: (i32, i32),
    rect: EmbedRect,
)
    ensures
        bounds_request(
            overlay_embedding(parent_window_id, child_id, root, parent_pos, rect).0,
            parent_pos,
            overlay_embedding(parent_window_id, child_id, root, parent_pos, rect).0.portal_rect,
        ) == overlay_embedding(parent_window_id, child_id, root, parent_pos, rect).1,
{
}

/// The window found for a process belongs to it: it is listed with that
/// process id.
pub proof fn law_found_window_has_pid(windows: Seq<(u64, Option<u32>)>, pid: u32)
    ensures
        first_with_pid(windows, pid) matches Some(w) ==> exists|i: int|
            0 <= i < windows.len() && #[trigger] windows[i] == (w, Some(pid)),
    decreases windows.len(),
{
    if windows.len() > 0 && windows[0].1 != Some(pid) {
        law_found_window_has_pid(windows.drop_first(), pid);
        if first_with_pid(windows, pid) is Some {
            let w = first_with_pid(windows, pid)->0;
            let i = choose|i: int|
                0 <= i < windows.drop_first().len() && #[trigger] windows.drop_first()[i] == (w, Some(pid));
            assert(windows[i + 1] == (w, Some(pid)));
        }
    } else if windows.len() > 0 {
        assert(windows[0] == (windows[0].0, Some(pid)));
    }
}

} // verus!
