use vibetree::embed::window_title;
use vibetree::embed::{
    embed_window_by_name, embed_window_by_pid, find_window_by_name, find_window_by_pid, first_title_containing,
    overlay_rect, EmbedError, EmbedRect, EmbeddedWindow,
};

fn rect() -> EmbedRect {
    EmbedRect { x: 10, y: 20, width: 300, height: 200 }
}

#[test]
fn find_by_pid_takes_first_match() {
    let windows = [(1, None), (2, Some(10)), (3, Some(20)), (4, Some(20))];
    assert_eq!(find_window_by_pid(&windows, 20).unwrap(), 3);
    assert_eq!(find_window_by_pid(&windows, 10).unwrap(), 2);
}

#[test]
fn find_by_pid_reports_missing_pid() {
    let windows = [(1, None), (2, Some(10))];
    assert!(matches!(find_window_by_pid(&windows, 99), Err(EmbedError::WindowNotFound(99))));
}

#[test]
fn find_by_name_ignores_case() {
    let windows = [
        (5, None),
        (6, Some("Terminal".to_string())),
        (7, Some("Mozilla FIREFOX".to_string())),
    ];
    assert_eq!(find_window_by_name(&windows, "firefox").unwrap(), 7);
    assert_eq!(find_window_by_name(&windows, "Fox").unwrap(), 7);
}

#[test]
fn find_by_name_reports_missing_name() {
    let windows = [(6, Some("Terminal".to_string()))];
    match find_window_by_name(&windows, "chrome") {
        Err(EmbedError::Failed(m)) => assert_eq!(m, "No window with name 'chrome'"),
        other => panic!("unexpected {:?}", other),
    }
}

#[test]
fn overlay_moves_rect_to_screen() {
    assert_eq!(
        overlay_rect((100, 50), rect()),
        EmbedRect { x: 110, y: 70, width: 300, height: 200 }
    );
}

#[test]
fn embed_by_pid_overlays_found_window() {
    let windows = [(3, Some(42))];
    let (win, req) = embed_window_by_pid(9, 42, rect(), &windows, 1, (100, 50)).unwrap();
    assert_eq!(win.child_id, 3);
    assert_eq!(win.original_parent, 1);
    assert_eq!(win.parent_window_id, 9);
    assert_eq!(win.portal_rect, rect());
    assert!(win.overlay_mode);
    assert_eq!(req.window, 3);
    assert_eq!(req.rect, EmbedRect { x: 110, y: 70, width: 300, height: 200 });
    assert!(req.raise);
}

#[test]
fn embed_by_pid_without_window_fails() {
    let windows = [(3, Some(41))];
    assert!(matches!(
        embed_window_by_pid(9, 42, rect(), &windows, 1, (0, 0)),
        Err(EmbedError::WindowNotFound(42))
    ));
}

#[test]
fn embed_by_name_overlays_found_window() {
    let windows = [(8, Some("Blender 4.1".to_string()))];
    let (win, req) = embed_window_by_name(9, "blender", rect(), &windows, 1, (-5, 5)).unwrap();
    assert_eq!(win.child_id, 8);
    assert_eq!(req.rect, EmbedRect { x: 5, y: 25, width: 300, height: 200 });
    assert!(req.raise);
}

#[test]
fn embed_by_name_without_window_fails() {
    let windows: [(u64, Option<String>); 0] = [];
    assert!(matches!(
        embed_window_by_name(9, "godot", rect(), &windows, 1, (0, 0)),
        Err(EmbedError::Failed(_))
    ));
}

#[test]
fn set_bounds_repeats_embedding_placement() {
    let windows = [(3, Some(42))];
    let (win, req) = embed_window_by_pid(9, 42, rect(), &windows, 1, (100, 50)).unwrap();
    assert_eq!(win.set_bounds((100, 50), win.portal_rect), req);
}

#[test]
fn set_bounds_without_overlay_uses_rect_as_given() {
    let win = EmbeddedWindow {
        child_id: 4,
        original_parent: 1,
        parent_window_id: 9,
        portal_rect: rect(),
        overlay_mode: false,
    };
    let req = win.set_bounds((100, 50), rect());
    assert_eq!(req.window, 4);
    assert_eq!(req.rect, rect());
    assert!(!req.raise);
}

#[test]
fn first_title_containing_is_case_sensitive() {
    let windows = [(1, Some("Firefox".to_string())), (2, None), (3, Some("my firefox".to_string()))];
    assert_eq!(first_title_containing(&windows, "firefox"), Some(3));
    assert_eq!(first_title_containing(&windows, "Fire"), Some(1));
    assert_eq!(first_title_containing(&windows, "chrome"), None);
}

#[test]
fn window_title_prefers_net_wm_name() {
    assert_eq!(window_title(Some("Firefox \u{2014} Page".as_bytes()), Some(b"old")).as_deref(), Some("Firefox \u{2014} Page"));
    assert_eq!(window_title(Some(b""), Some(b"xterm")).as_deref(), Some("xterm"));
    assert_eq!(window_title(None, Some(b"xterm")).as_deref(), Some("xterm"));
    assert_eq!(window_title(Some(&[0x66, 0xff]), None).as_deref(), Some("f\u{FFFD}"));
    assert_eq!(window_title(None, None), None);
}
