use cc_switch::app_type::AppType;
use cc_switch::commands::app::{execute as app_execute, AppCommand};
use cc_switch::commands::mcp::{execute as mcp_execute, McpAction, McpCommand};
use cc_switch::commands::skills::{execute as skills_execute, SkillReposCommand, SkillsCommand};
use cc_switch::config::UnifiedConfig;
use cc_switch::document::Document;
use cc_switch::error::AppError;
use cc_switch::plugin::IntegrationSettings;
use cc_switch::provider::{AppConfig, Provider};
use cc_switch::theme::{theme_for, Color};
use cc_switch::ui::format_bool;

#[test]
fn format_bool_marks() {
    assert_eq!(format_bool(true), "✓");
    assert_eq!(format_bool(false), "✗");
}

#[test]
fn app_command_messages() {
    assert_eq!(app_execute(AppCommand::Current).unwrap(), "Showing current app...");
    assert_eq!(app_execute(AppCommand::Use { app: AppType::Codex }).unwrap(), "Switching app...");
    assert_eq!(app_execute(AppCommand::List).unwrap(), "Listing supported apps...");
}

#[test]
fn skills_command_messages() {
    assert_eq!(skills_execute(SkillsCommand::List).unwrap(), "Listing skills...");
    assert_eq!(skills_execute(SkillsCommand::Search { query: None }).unwrap(), "Searching skills...");
    assert_eq!(
        skills_execute(SkillsCommand::Repos(SkillReposCommand::Add { url: "u".to_string() })).unwrap(),
        "Adding repository..."
    );
    assert_eq!(skills_execute(SkillsCommand::Repos(SkillReposCommand::Update)).unwrap(), "Updating repositories...");
}

#[test]
fn mcp_command_defaults_to_first_app() {
    assert!(matches!(mcp_execute(McpCommand::List, None), McpAction::List(AppType::Claude)));
    assert!(matches!(mcp_execute(McpCommand::Import, Some(AppType::Gemini)), McpAction::Import(AppType::Gemini)));
    match mcp_execute(McpCommand::Enable { id: "fs".to_string() }, Some(AppType::Codex)) {
        McpAction::Enable(AppType::Codex, id) => assert_eq!(id, "fs"),
        _ => panic!("wrong action"),
    }
    match mcp_execute(McpCommand::Delete { id: "x".to_string() }, Some(AppType::Codex)) {
        McpAction::Delete(id) => assert_eq!(id, "x"),
        _ => panic!("wrong action"),
    }
}

#[test]
fn theme_colors() {
    let t = theme_for(&AppType::Gemini, false);
    assert_eq!(t.accent, Color::Rgb(255, 121, 198));
    assert_eq!(t.surface, Color::Rgb(68, 71, 90));
    let plain = theme_for(&AppType::Gemini, true);
    assert_eq!(plain.accent, Color::Reset);
    assert_eq!(plain.ok, Color::Reset);
    assert!(plain.no_color);
}

#[test]
fn provider_category_and_current() {
    let mut official = Provider::with_id("o".to_string(), "O".to_string(), "{}".to_string(), None);
    assert!(!official.is_official());
    official.category = Some("official".to_string());
    assert!(official.is_official());
    let mut cfg = AppConfig { providers: vec![official], current_provider_id: None };
    assert!(cfg.validate().is_ok());
    assert!(matches!(cfg.switch_to("missing"), Err(AppError::NotFound(_))));
    assert_eq!(cfg.switch_to("o").unwrap(), 0);
    assert_eq!(cfg.current_provider_id.as_deref(), Some("o"));
    cfg.current_provider_id = Some("gone".to_string());
    assert!(matches!(cfg.validate(), Err(AppError::Validation(_))));
}

#[test]
fn switch_provider_updates_current_and_marker() {
    let mut cfg = UnifiedConfig::empty();
    let mut official = Provider::with_id("o".to_string(), "O".to_string(), "{}".to_string(), None);
    official.category = Some("official".to_string());
    cfg.claude.providers.push(official);
    cfg.claude.providers.push(Provider::with_id("t".to_string(), "T".to_string(), "{}".to_string(), None));
    let settings = IntegrationSettings { enable_claude_plugin_integration: true };
    let mut live = Document::parse("{\"foo\":\"bar\"}").unwrap();

    assert_eq!(cfg.switch_provider(AppType::Claude, "t", &settings, &mut live).unwrap(), true);
    assert_eq!(cfg.claude.current_provider_id.as_deref(), Some("t"));
    assert_eq!(live.render_compact(), "{\"foo\":\"bar\",\"primaryApiKey\":\"any\"}");

    assert_eq!(cfg.switch_provider(AppType::Claude, "o", &settings, &mut live).unwrap(), true);
    assert_eq!(live.render_compact(), "{\"foo\":\"bar\"}");

    assert!(matches!(cfg.switch_provider(AppType::Claude, "zz", &settings, &mut live), Err(AppError::NotFound(_))));
    assert_eq!(cfg.claude.current_provider_id.as_deref(), Some("o"));
    assert!(matches!(cfg.switch_provider(AppType::Codex, "t", &settings, &mut live), Err(AppError::NotFound(_))));
}
