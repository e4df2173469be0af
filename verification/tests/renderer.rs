use vibetree::colors::{NamedColor, Rgba, TermColor};
use vibetree::renderer::{
    build_live_rows, build_rows, detect_urls, divider_text, first_content_line_exec, split_layout,
    text_has_content, url_pattern, screen_slots, push_match_urls, FrameInput, RenderCell, RendererState, Row, SelectionRange,
};

fn rgb(r: u8, g: u8, b: u8) -> Rgba {
    Rgba { r, g, b, a: 255 }
}

fn cell(line: i32, col: usize, c: char) -> RenderCell {
    RenderCell { line, col, c, fg: TermColor::Named(NamedColor::Red) }
}

fn row(line: i32, text: &str) -> Row {
    Row { line, text: text.to_string(), color: rgb(1, 1, 1) }
}

#[test]
fn divider_centres_label() {
    assert_eq!(divider_text(20), "------- LIVE -------");
    assert_eq!(divider_text(7), " LIVE -");
    assert_eq!(divider_text(3), " LIVE ");
    assert_eq!(divider_text(6), " LIVE ");
    for cols in 6..100 {
        assert_eq!(divider_text(cols).chars().count(), cols);
    }
}

#[test]
fn split_layout_sizes() {
    assert_eq!(split_layout(30), (20, 9));
    assert_eq!(split_layout(40), (20, 19));
    assert_eq!(split_layout(9), (6, 2));
    assert_eq!(split_layout(3), (2, 0));
}

#[test]
fn rows_one_per_line_with_padding() {
    let cells = [cell(-1, 0, 'a'), cell(-1, 2, 'b'), cell(0, 1, 'c')];
    let rows = build_rows(&cells, &None);
    assert_eq!(rows.len(), 2);
    assert_eq!((rows[0].line, rows[0].text.as_str()), (-1, "a b"));
    assert_eq!((rows[1].line, rows[1].text.as_str()), (0, " c"));
    assert_eq!(rows[0].color, rgb(204, 0, 0));
}

#[test]
fn row_colour_from_first_visible_char_or_default() {
    let cells = [
        RenderCell { line: 0, col: 0, c: ' ', fg: TermColor::Spec(9, 9, 9) },
        RenderCell { line: 0, col: 1, c: 'x', fg: TermColor::Indexed(2) },
        RenderCell { line: 1, col: 0, c: '\0', fg: TermColor::Spec(9, 9, 9) },
    ];
    let rows = build_rows(&cells, &None);
    assert_eq!(rows[0].color, rgb(78, 154, 6));
    assert_eq!(rows[1].color, rgb(211, 215, 207));
}

#[test]
fn selected_rows_are_cyan() {
    let cells = [cell(0, 0, 'a'), cell(0, 1, 'b'), cell(1, 0, 'c')];
    let sel = Some(SelectionRange { start_line: 1, start_col: 0, end_line: 1, end_col: 0, is_block: false });
    let rows = build_rows(&cells, &sel);
    assert_eq!(rows[0].color, rgb(204, 0, 0));
    assert_eq!(rows[1].color, rgb(0, 255, 255));
}

#[test]
fn selection_contains_points() {
    let s = SelectionRange { start_line: 0, start_col: 5, end_line: 2, end_col: 3, is_block: false };
    assert!(s.contains(1, 0));
    assert!(s.contains(0, 5));
    assert!(!s.contains(0, 4));
    assert!(!s.contains(2, 4));
    let b = SelectionRange { start_col: 1, end_col: 5, is_block: true, ..s };
    assert!(!b.contains(1, 0));
    assert!(b.contains(1, 4));
    assert!(!b.contains(1, 6));
}

#[test]
fn live_rows_numbered_from_top() {
    let lines = vec![
        vec![('$', TermColor::Named(NamedColor::Green)), (' ', TermColor::Named(NamedColor::Green))],
        vec![(' ', TermColor::Spec(1, 2, 3))],
    ];
    let rows = build_live_rows(&lines);
    assert_eq!(rows.len(), 2);
    assert_eq!((rows[0].line, rows[0].text.as_str(), rows[0].color), (0, "$ ", rgb(78, 154, 6)));
    assert_eq!((rows[1].line, rows[1].text.as_str(), rows[1].color), (1, " ", rgb(211, 215, 207)));
}

#[test]
fn content_of_rows() {
    assert!(text_has_content(&"  x ".to_string()));
    assert!(!text_has_content(&" \t\0 ".to_string()));
    let rows = [row(-3, "   "), row(-2, " hi"), row(-1, "there")];
    assert_eq!(first_content_line_exec(&rows), -2);
    assert_eq!(first_content_line_exec(&rows[..1]), 0);
}

#[test]
fn urls_found_with_columns() {
    assert_eq!(url_pattern(), r#"https?://[^\s<>"'`\]\)]+"#);
    let rows = [row(-1, "see https://x.io/a) now"), row(0, "none"), row(1, "http://a <http://b>")];
    let urls = detect_urls(&rows);
    assert_eq!(urls.len(), 3);
    assert_eq!((urls[0].url.as_str(), urls[0].line, urls[0].col_start, urls[0].col_end), ("https://x.io/a", -1, 4, 18));
    assert_eq!((urls[1].url.as_str(), urls[1].line, urls[1].col_start), ("http://a", 1, 0));
    assert_eq!((urls[2].url.as_str(), urls[2].col_start, urls[2].col_end), ("http://b", 10, 18));
}

fn frame(cells: Vec<RenderCell>, display_offset: usize) -> FrameInput {
    FrameInput {
        cells,
        selection: None,
        display_offset,
        live_lines: vec![vec![('$', TermColor::Named(NamedColor::White))]],
        cursor_line: 0,
        cursor_col: 0,
    }
}

#[test]
fn renderer_cursor_blink_state() {
    let mut r = RendererState::new();
    assert!(r.cursor_blink_visible && !r.cursor_active);
    assert!(r.toggle_cursor_blink());
    assert!(!r.cursor_blink_visible);
    r.mark_input();
    assert!(r.cursor_active && r.cursor_blink_visible);
    r.toggle_cursor_blink();
    r.toggle_cursor_blink();
    assert!(r.cursor_blink_visible);
}

#[test]
fn empty_frame_hash() {
    let mut r = RendererState::new();
    let plan = r.plan_frame(&frame(vec![], 0));
    // 0 * 31 + 0 * 13 + 0 * 17 + 1 (cursor visible)
    assert_eq!(plan.content_hash, 1);
    assert!(plan.rebuild);
    assert!(plan.live_rows.is_empty());
}

#[test]
fn same_frame_is_not_rebuilt_twice() {
    let mut r = RendererState::new();
    let input = frame(vec![cell(0, 0, 'h'), cell(0, 1, 'i')], 0);
    let first = r.plan_frame(&input);
    assert!(first.rebuild);
    assert_eq!(r.last_content_hash, first.content_hash);
    let second = r.plan_frame(&input);
    assert!(!second.rebuild);
    assert_eq!(second.content_hash, first.content_hash);
    r.toggle_cursor_blink();
    assert!(r.plan_frame(&input).rebuild);
}

#[test]
fn scrolled_frame_always_rebuilt_with_live_rows() {
    let mut r = RendererState::new();
    let input = frame(vec![cell(-5, 0, 'x')], 3);
    let first = r.plan_frame(&input);
    let second = r.plan_frame(&input);
    assert!(first.scrolled && first.rebuild && second.rebuild);
    assert_eq!(second.live_rows.len(), 1);
    assert_eq!(second.live_rows[0].text, "$");
}

#[test]
fn url_at_cell_after_frame() {
    let mut r = RendererState::new();
    let text = "go https://ex.am/p";
    let cells: Vec<RenderCell> = text.chars().enumerate().map(|(i, c)| cell(-2, i, c)).collect();
    r.plan_frame(&frame(cells, 0));
    assert_eq!(r.url_at_cell(3, -2), Some("https://ex.am/p"));
    assert_eq!(r.url_at_cell(17, -2), Some("https://ex.am/p"));
    assert_eq!(r.url_at_cell(18, -2), None);
    assert_eq!(r.url_at_cell(2, -2), None);
    assert_eq!(r.url_at_cell(3, -1), None);
}

#[test]
fn unscrolled_rows_shift_to_first_drawing_row() {
    let rows = [row(-4, "  "), row(-3, "$ ls"), row(-2, ""), row(-1, "a b"), row(0, "$")];
    let s = screen_slots(&rows, &[], false, 3, 0);
    // row -3 goes to the top; -1 is two slots below; 0 would be slot 3, off screen.
    assert_eq!(s.rows, vec![(1, 0), (3, 2)]);
    assert!(s.live.is_empty());
    assert_eq!(s.divider, None);
    assert_eq!(s.cursor, 3);
}

#[test]
fn unscrolled_blank_screen_starts_at_line_zero() {
    let rows = [row(-1, " "), row(0, "")];
    let s = screen_slots(&rows, &[], false, 24, -1);
    assert!(s.rows.is_empty());
    assert_eq!(s.cursor, -1);
}

#[test]
fn scrolled_rows_split_around_divider() {
    let rows: Vec<Row> = (0..12).map(|i| row(-20 + i, if i == 2 { " " } else { "x" })).collect();
    let live = [row(0, "y"), row(1, ""), row(2, "$ z")];
    // 12 lines: 8 live rows shown, 3 scrollback rows, divider in slot 3.
    let s = screen_slots(&rows, &live, true, 12, -1);
    assert_eq!(s.rows, vec![(0, 0), (1, 1)]);
    assert_eq!(s.divider, Some(3));
    assert_eq!(s.live, vec![(0, 4), (2, 6)]);
    // cursor line -1: live row 8 - 1 - 1 = 6, below the divider.
    assert_eq!(s.cursor, 4 + 6);
    assert_eq!(screen_slots(&rows, &live, true, 12, -30).cursor, 4);
}

#[test]
fn urls_from_matches_keep_columns_and_line() {
    let mut urls = Vec::new();
    let text = "  http://a  https://b";
    push_match_urls(&mut urls, 7, text, &[("http://a".to_string(), 2, 10), ("https://b".to_string(), 12, 21)]);
    assert_eq!(urls.len(), 2);
    assert_eq!((urls[1].url.as_str(), urls[1].line, urls[1].col_start, urls[1].col_end), ("https://b", 7, 12, 21));
    push_match_urls(&mut urls, 8, "", &[]);
    assert_eq!(urls.len(), 2);
}

#[test]
fn url_columns_count_characters_not_bytes() {
    let rows = [row(0, "\u{2192} https://x.io"), row(1, "\u{e9}\u{e9} http://y.z/\u{e9} x")];
    let urls = detect_urls(&rows);
    assert_eq!(urls.len(), 2);
    assert_eq!((urls[0].url.as_str(), urls[0].col_start, urls[0].col_end), ("https://x.io", 2, 14));
    assert_eq!((urls[1].url.as_str(), urls[1].col_start, urls[1].col_end), ("http://y.z/\u{e9}", 3, 15));
    let mut r = RendererState::new();
    let text = "\u{2192} https://x.io";
    let cells: Vec<RenderCell> = text.chars().enumerate().map(|(i, c)| cell(0, i, c)).collect();
    r.plan_frame(&frame(cells, 0));
    assert_eq!(r.url_at_cell(2, 0), Some("https://x.io"));
    assert_eq!(r.url_at_cell(13, 0), Some("https://x.io"));
    assert_eq!(r.url_at_cell(14, 0), None);
}
