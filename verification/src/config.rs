//! Application configuration shapes and their stock values.

use vstd::prelude::*;

verus! {

/// General application behaviour.
#[derive(Debug, Clone)]
pub struct GeneralConfig {
    pub workspace_path: Option<String>,
    pub recent_projects: Vec<String>,
    pub auto_save: bool,
    pub auto_save_interval: u64,
    pub backup_enabled: bool,
    pub telemetry_enabled: bool,
}

impl Default for GeneralConfig {
    /// Auto-save every half minute, keep backups, send no telemetry.
    fn default() -> (r: Self)
        ensures
            r.workspace_path is None,
            r.recent_projects@ == Seq::<String>::empty(),
            r.auto_save,
            r.auto_save_interval == 30,
            r.backup_enabled,
            !r.telemetry_enabled,
    {
        GeneralConfig {
            workspace_path: None,
            recent_projects: Vec::new(),
            auto_save: true,
            auto_save_interval: 30,
            backup_enabled: true,
            telemetry_enabled: false,
        }
    }
}

/// Editor behaviour.
#[derive(Debug, Clone)]
pub struct EditorConfig {
    pub font_family: String,
    pub font_size: u32,
    pub tab_size: u32,
    pub insert_spaces: bool,
    pub word_wrap: bool,
    pub line_numbers: bool,
    pub minimap: bool,
    pub bracket_pair_colorization: bool,
    pub format_on_save: bool,
    pub format_on_paste: bool,
    pub auto_closing_brackets: bool,
    pub auto_closing_quotes: bool,
}

impl Default for EditorConfig {
    /// A monospaced font at size fourteen, four-space tabs, formatting on
    /// save and paste.
    fn default() -> (r: Self)
        ensures
            r.font_family@ == "JetBrains Mono"@,
            r.font_size == 14,
            r.tab_size == 4,
            r.insert_spaces,
            !r.word_wrap,
            r.line_numbers,
            r.minimap,
            r.bracket_pair_colorization,
            r.format_on_save,
            r.format_on_paste,
            r.auto_closing_brackets,
            r.auto_closing_quotes,
    {
        EditorConfig {
            font_family: String::from_str("JetBrains Mono"),
            font_size: 14,
            tab_size: 4,
            insert_spaces: true,
            word_wrap: false,
            line_numbers: true,
            minimap: true,
            bracket_pair_colorization: true,
            format_on_save: true,
            format_on_paste: true,
            auto_closing_brackets: true,
            auto_closing_quotes: true,
        }
    }
}

/// Terminal behaviour.
#[derive(Debug, Clone)]
pub struct TerminalConfig {
    pub default_shell: String,
    pub font_family: String,
    pub font_size: u32,
    pub cursor_blink: bool,
    pub cursor_style: CursorStyle,
    pub scrollback_lines: u32,
    pub confirm_on_exit: bool,
}

impl Default for TerminalConfig {
    /// A blinking block cursor over a thousand scrollback lines.
    fn default() -> (r: Self)
        ensures
            r.default_shell@ == "/bin/bash"@,
            r.font_family@ == "Consolas"@,
            r.font_size == 12,
            r.cursor_blink,
            r.cursor_style == CursorStyle::Block,
            r.scrollback_lines == 1000,
            r.confirm_on_exit,
    {
        TerminalConfig {
            default_shell: String::from_str("/bin/bash"),
            font_family: String::from_str("Consolas"),
            font_size: 12,
            cursor_blink: true,
            cursor_style: CursorStyle::Block,
            scrollback_lines: 1000,
            confirm_on_exit: true,
        }
    }
}

/// The terminal cursor's shape.
#[derive(Debug, Clone, Copy, PartialEq, Eq, Structural)]
pub enum CursorStyle {
    Block,
    Line,
    Underline,
}

/// Debugger behaviour.
#[derive(Debug, Clone)]
pub struct DebuggerConfig {
    pub auto_attach: bool,
    pub break_on_exceptions: bool,
    pub break_on_unhandled_exceptions: bool,
    pub show_return_value: bool,
    pub enable_step_filtering: bool,
}

impl Default for DebuggerConfig {
    /// Break on exceptions, show return values, filter steps.
    fn default() -> (r: Self)
        ensures
            !r.auto_attach,
            r.break_on_exceptions,
            r.break_on_unhandled_exceptions,
            r.show_return_value,
            r.enable_step_filtering,
    {
        DebuggerConfig {
            auto_attach: false,
            break_on_exceptions: true,
            break_on_unhandled_exceptions: true,
            show_return_value: true,
            enable_step_filtering: true,
        }
    }
}

/// Version-control behaviour.
#[derive(Debug, Clone)]
pub struct GitConfig {
    pub auto_fetch: bool,
    pub fetch_interval: u64,
    pub show_inline_blame: bool,
    pub confirm_sync: bool,
    pub auto_stage_deleted: bool,
}

impl Default for GitConfig {
    /// Fetch every five minutes; confirm before syncing.
    fn default() -> (r: Self)
        ensures
            r.auto_fetch,
            r.fetch_interval == 5,
            !r.show_inline_blame,
            r.confirm_sync,
            !r.auto_stage_deleted,
    {
        GitConfig {
            auto_fetch: true,
            fetch_interval: 5,
            show_inline_blame: false,
            confirm_sync: true,
            auto_stage_deleted: false,
        }
    }
}

/// User-interface behaviour.
#[derive(Debug, Clone)]
pub struct UIConfig {
    pub theme: Theme,
    pub color_scheme: ColorScheme,
    pub sidebar_position: SidebarPosition,
    pub panel_position: PanelPosition,
    pub show_welcome_screen: bool,
    pub restore_tabs: bool,
    pub confirm_exit: bool,
}

impl Default for UIConfig {
    /// Dark theme, sidebar left, panel at the bottom.
    fn default() -> (r: Self)
        ensures
            r.theme == Theme::Dark,
            r.color_scheme == ColorScheme::Default,
            r.sidebar_position == SidebarPosition::Left,
            r.panel_position == PanelPosition::Bottom,
            r.show_welcome_screen,
            r.restore_tabs,
            r.confirm_exit,
    {
        UIConfig {
            theme: Theme::Dark,
            color_scheme: ColorScheme::Default,
            sidebar_position: SidebarPosition::Left,
            panel_position: PanelPosition::Bottom,
            show_welcome_screen: true,
            restore_tabs: true,
            confirm_exit: true,
        }
    }
}

/// The overall colour theme.
#[derive(Debug, Clone, Copy, PartialEq, Eq, Structural)]
pub enum Theme {
    Dark,
    Light,
    Auto,
}

/// The syntax-highlighting palette.
#[derive(Debug, Clone, Copy, PartialEq, Eq, Structural)]
pub enum ColorScheme {
    Default,
    HighContrast,
    Monokai,
    SolarizedDark,
    SolarizedLight,
    VSCodeDark,
    VSCodeLight,
}

/// Which side the sidebar sits on.
#[derive(Debug, Clone, Copy, PartialEq, Eq, Structural)]
pub enum SidebarPosition {
    Left,
    Right,
}

/// Where the panel sits.
#[derive(Debug, Clone, Copy, PartialEq, Eq, Structural)]
pub enum PanelPosition {
    Bottom,
    Right,
}

} // verus!
