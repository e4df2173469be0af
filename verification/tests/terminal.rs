use vibetree::terminal::{key_bytes, selection_side, terminal_input, ui_keeps_event, visible_text, NamedKey, Side};

#[test]
fn visible_text_trims_and_drops_blank_lines() {
    let cells = [
        (-1, 'a'),
        (-1, ' '),
        (0, ' '),
        (0, ' '),
        (1, 'b'),
        (1, 'c'),
        (1, ' '),
    ];
    assert_eq!(visible_text(&cells), "a\nbc");
}

#[test]
fn visible_text_of_nothing_is_empty() {
    assert_eq!(visible_text(&[]), "");
    assert_eq!(visible_text(&[(0, ' '), (1, '\t')]), "");
}

#[test]
fn visible_text_lines_have_no_trailing_whitespace() {
    let cells: Vec<(i32, char)> = "x  \n y\t\n\n z "
        .split('\n')
        .enumerate()
        .flat_map(|(l, s)| s.chars().map(move |c| (l as i32, c)))
        .collect();
    let text = visible_text(&cells);
    assert_eq!(text, "x\n y\n z");
    for line in text.split('\n') {
        assert!(!line.is_empty());
        assert_eq!(line, line.trim_end());
    }
}

#[test]
fn selection_sides() {
    assert_eq!(selection_side(None, 3, 3), Side::Right);
    assert_eq!(selection_side(Some((5, 2)), 5, 2), Side::Left);
    assert_eq!(selection_side(Some((5, 2)), 4, 2), Side::Left);
    assert_eq!(selection_side(Some((5, 2)), 6, 2), Side::Right);
    assert_eq!(selection_side(Some((5, 2)), 9, 1), Side::Left);
    assert_eq!(selection_side(Some((5, 2)), 0, 3), Side::Right);
}

#[test]
fn named_key_sequences() {
    assert_eq!(key_bytes(NamedKey::Enter), b"\r".to_vec());
    assert_eq!(key_bytes(NamedKey::Backspace), b"\x7f".to_vec());
    assert_eq!(key_bytes(NamedKey::Tab), b"\t".to_vec());
    assert_eq!(key_bytes(NamedKey::Escape), b"\x1b".to_vec());
    assert_eq!(key_bytes(NamedKey::ArrowUp), b"\x1b[A".to_vec());
    assert_eq!(key_bytes(NamedKey::ArrowDown), b"\x1b[B".to_vec());
    assert_eq!(key_bytes(NamedKey::ArrowRight), b"\x1b[C".to_vec());
    assert_eq!(key_bytes(NamedKey::ArrowLeft), b"\x1b[D".to_vec());
    assert_eq!(key_bytes(NamedKey::Home), b"\x1b[H".to_vec());
    assert_eq!(key_bytes(NamedKey::End), b"\x1b[F".to_vec());
    assert_eq!(key_bytes(NamedKey::PageUp), b"\x1b[5~".to_vec());
    assert_eq!(key_bytes(NamedKey::PageDown), b"\x1b[6~".to_vec());
    assert_eq!(key_bytes(NamedKey::Delete), b"\x1b[3~".to_vec());
}

#[test]
fn key_press_input() {
    assert_eq!(terminal_input(Some(NamedKey::Tab), Some("x")), Some(b"\t".to_vec()));
    assert_eq!(terminal_input(None, Some("é!")), Some("é!".as_bytes().to_vec()));
    assert_eq!(terminal_input(None, None), None);
}

#[test]
fn ui_keeps_consumed_events_but_not_keys_without_dialog() {
    assert!(ui_keeps_event(true, false, false));
    assert!(!ui_keeps_event(true, true, false));
    assert!(ui_keeps_event(true, true, true));
    assert!(!ui_keeps_event(false, false, true));
}
