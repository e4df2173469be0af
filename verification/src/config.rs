//! The application's settings and their defaults. Reading and writing the
//! settings file is the caller's.
use vstd::prelude::*;

use crate::types::Theme;

verus! {

/// The bit pattern of the `f32` value 16.0, the default font size.
pub const DEFAULT_FONT_SIZE_BITS: u32 = 0x4180_0000u32;

/// Settings of the terminal view.
#[derive(Debug, Clone)]
pub struct TerminalSettings {
    pub font_family: String,
    /// The font size, as the bit pattern of an `f32`.
    pub font_size_bits: u32,
    pub cursor_blink: bool,
    pub scrollback: u32,
    pub tab_stop_width: u8,
}

impl Default for TerminalSettings {
    /// A monospace font of size 16, a blinking cursor, 10000 lines of
    /// scrollback and tab stops every 4 columns.
    fn default() -> (s: Self)
        ensures
            s.font_family@ == "monospace"@,
            s.font_size_bits == DEFAULT_FONT_SIZE_BITS,
            s.cursor_blink,
            s.scrollback == 10000,
            s.tab_stop_width == 4,
    {
        TerminalSettings {
            font_family: "monospace".to_owned(),
            font_size_bits: DEFAULT_FONT_SIZE_BITS,
            cursor_blink: true,
            scrollback: 10000,
            tab_stop_width: 4,
        }
    }
}

/// The paths open in the workspace, and the active one.
#[derive(Debug, Clone)]
pub struct WorkspaceState {
    pub open_paths: Vec<String>,
    pub active_index: Option<usize>,
}

impl Default for WorkspaceState {
    fn default() -> (s: Self)
        ensures
            s.open_paths@.len() == 0,
            s.active_index is None,
    {
        WorkspaceState { open_paths: Vec::new(), active_index: None }
    }
}

/// The application's settings.
#[derive(Debug, Clone)]
pub struct AppConfig {
    pub theme: Theme,
    pub terminal: TerminalSettings,
    pub recent_projects: Vec<String>,
    pub workspace_state: WorkspaceState,
}

impl Default for AppConfig {
    /// The dark theme, default terminal settings, no recent projects and
    /// an empty workspace.
    fn default() -> (c: Self)
        ensures
            c.theme == Theme::Dark,
            c.terminal.font_family@ == "monospace"@,
            c.terminal.font_size_bits == DEFAULT_FONT_SIZE_BITS,
            c.terminal.cursor_blink,
            c.terminal.scrollback == 10000,
            c.terminal.tab_stop_width == 4,
            c.recent_projects@.len() == 0,
            c.workspace_state.open_paths@.len() == 0,
            c.workspace_state.active_index is None,
    {
        AppConfig {
            theme: Theme::Dark,
            terminal: TerminalSettings::default(),
            recent_projects: Vec::new(),
            workspace_state: WorkspaceState::default(),
        }
    }
}

} // verus!
