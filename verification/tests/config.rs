use vibetree::config::{AppConfig, TerminalSettings, DEFAULT_FONT_SIZE_BITS};
use vibetree::types::Theme;

#[test]
fn terminal_defaults() {
    let t = TerminalSettings::default();
    assert_eq!(t.font_family, "monospace");
    assert_eq!(f32::from_bits(t.font_size_bits), 16.0f32);
    assert!(t.cursor_blink);
    assert_eq!(t.scrollback, 10000);
    assert_eq!(t.tab_stop_width, 4);
}

#[test]
fn config_defaults() {
    let c = AppConfig::default();
    assert_eq!(c.theme, Theme::Dark);
    assert_eq!(c.terminal.font_size_bits, DEFAULT_FONT_SIZE_BITS);
    assert!(c.recent_projects.is_empty());
    assert!(c.workspace_state.open_paths.is_empty());
    assert!(c.workspace_state.active_index.is_none());
}
