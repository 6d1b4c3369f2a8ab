//! Stock values of the configuration and data shapes, and the error type.

use assistant_core::chat::{ChatSettings, ContextType, MessageRole};
use assistant_core::config::{
    ColorScheme, CursorStyle, DebuggerConfig, EditorConfig, GeneralConfig, GitConfig,
    PanelPosition, SidebarPosition, TerminalConfig, Theme, UIConfig,
};
use assistant_core::debugger::DebuggerSettings;
use assistant_core::errors::AiError;
use assistant_core::project::{ProjectSettings, ProjectType};

#[test]
fn chat_settings_defaults() {
    let s = ChatSettings::default();
    assert_eq!(s.max_context_length, 4096);
    assert!(s.include_file_context);
    assert!(s.include_project_context);
    assert!(s.auto_save_sessions);
    assert_eq!(s.session_timeout_minutes, 60);
    assert_eq!(s.max_messages_per_session, 1000);
}

#[test]
fn general_config_defaults() {
    let c = GeneralConfig::default();
    assert!(c.workspace_path.is_none());
    assert!(c.recent_projects.is_empty());
    assert!(c.auto_save);
    assert_eq!(c.auto_save_interval, 30);
    assert!(c.backup_enabled);
    assert!(!c.telemetry_enabled);
}

#[test]
fn editor_config_defaults() {
    let c = EditorConfig::default();
    assert_eq!(c.font_family, "JetBrains Mono");
    assert_eq!(c.font_size, 14);
    assert_eq!(c.tab_size, 4);
    assert!(c.insert_spaces);
    assert!(!c.word_wrap);
}

#[test]
fn terminal_config_defaults() {
    let c = TerminalConfig::default();
    assert_eq!(c.default_shell, "/bin/bash");
    assert_eq!(c.font_family, "Consolas");
    assert_eq!(c.font_size, 12);
    assert!(c.cursor_blink);
    assert_eq!(c.cursor_style, CursorStyle::Block);
    assert_eq!(c.scrollback_lines, 1000);
    assert!(c.confirm_on_exit);
}

#[test]
fn debugger_config_defaults() {
    let c = DebuggerConfig::default();
    assert!(!c.auto_attach);
    assert!(c.break_on_exceptions);
    assert!(c.break_on_unhandled_exceptions);
    assert!(c.show_return_value);
    assert!(c.enable_step_filtering);
}

#[test]
fn git_config_defaults() {
    let c = GitConfig::default();
    assert!(c.auto_fetch);
    assert_eq!(c.fetch_interval, 5);
    assert!(!c.show_inline_blame);
    assert!(c.confirm_sync);
    assert!(!c.auto_stage_deleted);
}

#[test]
fn ui_config_defaults() {
    let c = UIConfig::default();
    assert_eq!(c.theme, Theme::Dark);
    assert_eq!(c.color_scheme, ColorScheme::Default);
    assert_eq!(c.sidebar_position, SidebarPosition::Left);
    assert_eq!(c.panel_position, PanelPosition::Bottom);
    assert!(c.show_welcome_screen);
    assert!(c.restore_tabs);
    assert!(c.confirm_exit);
}

#[test]
fn debugger_settings_defaults() {
    let s = DebuggerSettings::default();
    assert!(!s.auto_attach);
    assert!(s.break_on_exceptions);
    assert_eq!(s.max_string_length, 1000);
    assert_eq!(s.max_array_elements, 100);
}

#[test]
fn project_settings_defaults() {
    let s = ProjectSettings::default();
    assert!(s.auto_save && s.format_on_save && s.git_integration && s.lsp_enabled);
    assert_eq!(ProjectType::Rust, ProjectType::Rust);
}

#[test]
fn error_messages_carry_through() {
    let e = AiError::NotFound("missing thing".to_string());
    assert_eq!(e.message(), "missing thing");
    let e2 = AiError::InvalidInput("bad".to_string());
    assert_eq!(e2.message(), "bad");
    let e3 = AiError::StateError("state".to_string());
    assert_eq!(e3.message(), "state");
    let e4 = AiError::IoError("io".to_string());
    assert_eq!(e4.message(), "io");
}

#[test]
fn chat_enums_compare_structurally() {
    assert_eq!(MessageRole::User, MessageRole::User);
    assert_ne!(MessageRole::User, MessageRole::Assistant);
    assert_eq!(ContextType::Debugging, ContextType::Debugging);
}
