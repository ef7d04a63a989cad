use cc_switch::backup::{backup_id, create_backup, import_config};
use cc_switch::error::AppError;

#[test]
fn backup_id_is_fresh() {
    let none: Vec<String> = vec![];
    assert_eq!(backup_id("20250101_120000", &none), "backup_20250101_120000");
    let taken = vec!["backup_20250101_120000".to_string(), "backup_20250101_120000_".to_string()];
    assert_eq!(backup_id("20250101_120000", &taken), "backup_20250101_120000__");
}

#[test]
fn backup_of_missing_store_is_empty() {
    let plan = create_backup(None, "1", &vec![]);
    assert_eq!(plan.content, "{}");
    assert_eq!(plan.backup_id, "backup_1");
}

#[test]
fn backup_then_import_restores_store() {
    let store = "{\"apps\":{},\"mcp\":{}}";
    let backup = create_backup(Some(store), "1", &vec![]);
    assert_eq!(backup.content, store);
    let plan = import_config(&backup.content, true, Some("{\"changed\":true}"), "2", &vec![backup.backup_id.clone()])
        .expect("valid backup");
    assert_eq!(plan.new_store, store);
    assert_eq!(plan.backup.content, "{\"changed\":true}");
    assert_eq!(plan.backup.backup_id, "backup_2");
}

#[test]
fn import_of_empty_file_is_parse_error() {
    let res = import_config("", false, Some("{\"apps\":{}}"), "3", &vec![]);
    assert!(matches!(res, Err(AppError::Parse(_))));
}

#[test]
fn backup_of_missing_store_restores_empty_store() {
    let backup = create_backup(None, "5", &vec![]);
    let plan = import_config(&backup.content, true, Some("{\"x\":1}"), "6", &vec![]).expect("parses");
    assert_eq!(plan.new_store, "{}");
}

#[test]
fn import_of_invalid_document_is_parse_error() {
    let res = import_config("{oops", false, Some("{}"), "4", &vec![]);
    assert!(matches!(res, Err(AppError::Parse(_))));
}
