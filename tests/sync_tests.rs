use cc_switch::app_type::AppType;
use cc_switch::document::Document;
use cc_switch::error::AppError;
use cc_switch::mcp::{McpApps, McpServer};
use cc_switch::sync::{LiveFiles, McpRegistry};

fn server(id: &str, spec: &str, claude: bool, codex: bool, gemini: bool) -> McpServer {
    McpServer {
        id: id.to_string(),
        name: id.to_string(),
        spec: spec.to_string(),
        apps: McpApps { claude, codex, gemini },
        tags: vec![],
    }
}

fn registry() -> McpRegistry {
    McpRegistry {
        servers: vec![
            server("fs", "{\"command\":\"fs\"}", true, false, true),
            server("git", "{\"command\":\"git\"}", true, true, false),
        ],
    }
}

fn doc(text: &str) -> Document {
    Document::parse(text).expect("a JSON object")
}

fn live() -> LiveFiles {
    LiveFiles { claude: doc("{\"foo\":\"bar\"}"), codex: Document::new(), gemini: Document::new() }
}

#[test]
fn section_lists_enabled_servers_only() {
    let r = registry();
    assert_eq!(r.section_for(AppType::Claude), "{\"fs\":{\"command\":\"fs\"},\"git\":{\"command\":\"git\"}}");
    assert_eq!(r.section_for(AppType::Codex), "{\"git\":{\"command\":\"git\"}}");
    assert_eq!(r.section_for(AppType::Gemini), "{\"fs\":{\"command\":\"fs\"}}");
    assert_eq!(McpRegistry::new().section_for(AppType::Claude), "{}");
}

#[test]
fn sync_all_writes_each_app_and_keeps_unrelated_keys() {
    let r = registry();
    let mut files = live();
    r.sync_all_enabled(&mut files);
    assert_eq!(
        files.claude.render_compact(),
        "{\"foo\":\"bar\",\"mcpServers\":{\"fs\":{\"command\":\"fs\"},\"git\":{\"command\":\"git\"}}}"
    );
    assert_eq!(files.codex.render_compact(), "{\"mcp_servers\":{\"git\":{\"command\":\"git\"}}}");
    assert_eq!(files.gemini.render_compact(), "{\"mcpServers\":{\"fs\":{\"command\":\"fs\"}}}");
}

#[test]
fn sync_all_twice_is_byte_identical() {
    let r = registry();
    let mut files = live();
    r.sync_all_enabled(&mut files);
    let first = (files.claude.render(), files.codex.render(), files.gemini.render());
    r.sync_all_enabled(&mut files);
    let second = (files.claude.render(), files.codex.render(), files.gemini.render());
    assert_eq!(first, second);
}

#[test]
fn sync_replaces_hand_edited_section() {
    let r = registry();
    let mut d = doc("{\"mcp_servers\":{\"manual\":{}},\"other\":1}");
    r.sync_app(AppType::Codex, &mut d);
    assert_eq!(d.render_compact(), "{\"mcp_servers\":{\"git\":{\"command\":\"git\"}},\"other\":1}");
}

#[test]
fn toggle_enable_then_disable_restores_section() {
    let mut r = registry();
    let mut d = doc("{\"foo\":\"bar\"}");
    r.sync_app(AppType::Codex, &mut d);
    let before = d.get("mcp_servers");
    r.toggle_app("fs", AppType::Codex, true, &mut d).expect("known server");
    assert_eq!(d.get("mcp_servers"), Some("{\"fs\":{\"command\":\"fs\"},\"git\":{\"command\":\"git\"}}".to_string()));
    r.toggle_app("fs", AppType::Codex, false, &mut d).expect("known server");
    assert_eq!(d.get("mcp_servers"), before);
    assert_eq!(d.get("foo"), Some("\"bar\"".to_string()));
}

#[test]
fn toggle_unknown_server_is_not_found() {
    let mut r = registry();
    let mut d = doc("{\"foo\":\"bar\"}");
    let res = r.toggle_app("nope", AppType::Claude, true, &mut d);
    assert!(matches!(res, Err(AppError::NotFound(_))));
    assert_eq!(d.render_compact(), "{\"foo\":\"bar\"}");
}

#[test]
fn delete_removes_server_from_enabled_apps() {
    let mut r = registry();
    let mut files = live();
    r.sync_all_enabled(&mut files);
    assert!(r.delete_server("fs", &mut files));
    assert!(!r.contains("fs"));
    assert_eq!(files.claude.get("mcpServers"), Some("{\"git\":{\"command\":\"git\"}}".to_string()));
    assert_eq!(files.gemini.get("mcpServers"), Some("{}".to_string()));
    assert_eq!(files.codex.get("mcp_servers"), Some("{\"git\":{\"command\":\"git\"}}".to_string()));
    assert!(!r.delete_server("fs", &mut files));
}

#[test]
fn import_adds_new_ids_once() {
    let mut r = registry();
    let d = doc("{\"mcpServers\":{\"git\":{\"command\":\"other\"},\"web\":{\"url\":\"u\"}}}");
    assert_eq!(r.import_from(AppType::Gemini, &d).expect("object"), 1);
    assert_eq!(r.servers.len(), 3);
    let web = &r.servers[2];
    assert_eq!(web.id, "web");
    assert_eq!(web.spec, "{\"url\":\"u\"}");
    assert_eq!(web.apps, McpApps { claude: false, codex: false, gemini: true });
    assert_eq!(r.servers[1].spec, "{\"command\":\"git\"}");
    assert_eq!(r.import_from(AppType::Gemini, &d).expect("object"), 0);
    assert_eq!(r.servers.len(), 3);
}

#[test]
fn import_of_missing_or_empty_section_adds_nothing() {
    let mut r = registry();
    assert_eq!(r.import_from(AppType::Claude, &doc("{\"foo\":1}")).expect("no section"), 0);
    assert_eq!(r.import_from(AppType::Claude, &doc("{\"mcpServers\":{}}")).expect("empty"), 0);
    assert_eq!(r.servers.len(), 2);
}

#[test]
fn import_of_malformed_section_is_parse_error() {
    let mut r = registry();
    let res = r.import_from(AppType::Codex, &doc("{\"mcp_servers\":[1]}"));
    assert!(matches!(res, Err(AppError::Parse(_))));
    assert_eq!(r.servers.len(), 2);
}

#[test]
fn sync_twice_through_written_text_is_byte_identical() {
    let r = registry();
    let mut files = LiveFiles {
        claude: doc("{\"zeta\":1,\"alpha\":{\"b\":2,\"a\":1}}"),
        codex: doc("{\"zeta\":true}"),
        gemini: Document::new(),
    };
    r.sync_all_enabled(&mut files);
    let first = (files.claude.render(), files.codex.render(), files.gemini.render());
    let mut reread = LiveFiles { claude: doc(&first.0), codex: doc(&first.1), gemini: doc(&first.2) };
    r.sync_all_enabled(&mut reread);
    let second = (reread.claude.render(), reread.codex.render(), reread.gemini.render());
    assert_eq!(first, second);
    assert!(first.0.starts_with("{\n  \"zeta\": 1,\n  \"alpha\": {\"b\":2,\"a\":1},\n  \"mcpServers\""));
}

#[test]
fn import_count_is_number_of_new_distinct_ids() {
    let mut r = registry();
    let d = doc("{\"mcpServers\":{\"a\":{},\"fs\":{},\"b\":{},\"a\":{\"x\":1}}}");
    assert_eq!(r.import_from(AppType::Claude, &d).expect("object"), 2);
    assert_eq!(r.servers.len(), 4);
}
