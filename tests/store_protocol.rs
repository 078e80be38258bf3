use mcp_manager::config::{
    validate_claude_config_structure, ClaudeConfig, McpServer, McpServerEdit, Problem,
};
use mcp_manager::name_map::NameMap;
use mcp_manager::store::{
    backup_path_of, resolve_config_path, ConfigStore, ReadResult, Stage, Step, StoreError,
    StoreOutcome, StoreTxn, TxnKind, WriteResult,
};
use mcp_manager::diagnose::{analyze_json_error, JsonErrorKind};
use mcp_manager::recovery::{
    begin_restore, broken_path_of, manual_backup_path_of, manual_backup_result, BackupCheck,
    RestoreError, RestoreStage, RestoreStep,
};

fn server(command: &str, args: &[&str]) -> McpServer {
    McpServer {
        command: command.to_string(),
        args: args.iter().map(|a| a.to_string()).collect(),
        env: None,
    }
}

fn config_with(names: &[&str]) -> ClaudeConfig {
    let mut c = ClaudeConfig::new();
    for n in names {
        c.mcp_servers.insert(n.to_string(), server("npx", &["-y", "pkg"]));
    }
    c
}

fn next(step: Step) -> StoreTxn {
    match step {
        Step::Next(t) => t,
        Step::Finished(_) => panic!("the operation ended early"),
    }
}

fn finished(step: Step) -> Result<StoreOutcome, StoreError> {
    match step {
        Step::Finished(r) => r,
        Step::Next(_) => panic!("the operation is not over"),
    }
}

fn cached_names(store: &ConfigStore) -> Vec<String> {
    store.cached().expect("a cached configuration").mcp_servers.keys()
}

#[test]
fn name_map_keeps_names_sorted_and_unique() {
    let mut m: NameMap<String> = NameMap::new();
    m.insert("b".to_string(), "2".to_string());
    m.insert("a".to_string(), "1".to_string());
    m.insert("b".to_string(), "3".to_string());
    assert_eq!(m.keys(), vec!["a".to_string(), "b".to_string()]);
    assert_eq!(m.get("b"), Some(&"3".to_string()));
    assert_eq!(m.remove("a"), Some("1".to_string()));
    assert_eq!(m.remove("a"), None);
    assert_eq!(m.len(), 1);
}

#[test]
fn validation_accepts_a_good_configuration() {
    let mut c = config_with(&["a"]);
    c.mcp_servers.insert("quoted".to_string(), server("\"my tool\" --x", &[]));
    assert!(validate_claude_config_structure(&c).is_ok());
    assert!(validate_claude_config_structure(&ClaudeConfig::new()).is_ok());
}

#[test]
fn validation_rejects_a_blank_name() {
    let mut c = ClaudeConfig::new();
    c.mcp_servers.insert("  ".to_string(), server("npx", &[]));
    let e = validate_claude_config_structure(&c).unwrap_err();
    assert_eq!(e.problem, Problem::EmptyName);
}

#[test]
fn validation_rejects_a_blank_command() {
    let mut c = ClaudeConfig::new();
    c.mcp_servers.insert("x".to_string(), server(" \t", &[]));
    let e = validate_claude_config_structure(&c).unwrap_err();
    assert_eq!(e.problem, Problem::EmptyCommand);
    assert_eq!(e.server, "x");
}

#[test]
fn validation_rejects_an_unquoted_command_with_spaces() {
    let mut c = config_with(&["a"]);
    c.mcp_servers.insert("b".to_string(), server("npx -y pkg", &[]));
    let e = validate_claude_config_structure(&c).unwrap_err();
    assert_eq!(e.problem, Problem::UnquotedCommand);
    assert_eq!(e.server, "b");
}

#[test]
fn load_caches_a_valid_file_and_remembers_its_path() {
    let mut store = ConfigStore::new();
    let txn = store.begin_load("/cfg.json".to_string());
    assert_eq!(txn.stage(), Stage::Reading);
    assert_eq!(store.config_path(), "/cfg.json");
    let r = finished(store.on_read(txn, ReadResult::Parsed { config: config_with(&["b", "a"]) }));
    assert_eq!(r.ok(), Some(StoreOutcome::Loaded));
    assert_eq!(cached_names(&store), vec!["a".to_string(), "b".to_string()]);
}

#[test]
fn load_of_an_invalid_file_leaves_the_cache_alone() {
    let mut store = ConfigStore::new();
    let txn = store.begin_load("/cfg.json".to_string());
    let mut bad = ClaudeConfig::new();
    bad.mcp_servers.insert("x".to_string(), server("", &[]));
    match finished(store.on_read(txn, ReadResult::Parsed { config: bad })) {
        Err(StoreError::Invalid { problem, server }) => {
            assert_eq!(problem, Problem::EmptyCommand);
            assert_eq!(server, "x");
        }
        _ => panic!("expected a validation error"),
    }
    assert!(store.cached().is_none());
}

#[test]
fn load_of_a_malformed_file_reports_the_diagnosis() {
    let mut store = ConfigStore::new();
    let txn = store.begin_load("/cfg.json".to_string());
    let mut info = analyze_json_error("EOF while parsing an object at line 3 column 1", 3, 1);
    info.has_backup = true;
    let read = ReadResult::Malformed { info, message: "EOF while parsing".to_string() };
    match finished(store.on_read(txn, read)) {
        Err(StoreError::Json { info, .. }) => {
            assert_eq!(info.kind, JsonErrorKind::Incomplete);
            assert!(info.has_backup);
            assert_eq!(info.line, 3);
        }
        _ => panic!("expected a diagnosis"),
    }
    assert!(store.cached().is_none());
}

#[test]
fn load_of_an_unreadable_file_reports_the_path() {
    let mut store = ConfigStore::new();
    let txn = store.begin_load("/missing.json".to_string());
    match finished(store.on_read(txn, ReadResult::Failed { message: "no such file".to_string() })) {
        Err(StoreError::Read { path, message }) => {
            assert_eq!(path, "/missing.json");
            assert_eq!(message, "no such file");
        }
        _ => panic!("expected a read error"),
    }
}

#[test]
fn save_before_any_load_has_no_path() {
    let store = ConfigStore::new();
    match finished(store.begin_save(config_with(&["a"]))) {
        Err(StoreError::PathNotSet) => {}
        _ => panic!("expected PathNotSet"),
    }
}

#[test]
fn save_backs_up_before_writing_and_caches_after() {
    let mut store = ConfigStore::new();
    let txn = store.begin_load("/cfg.json".to_string());
    let _ = store.on_read(txn, ReadResult::Parsed { config: config_with(&["a"]) });
    let txn = next(store.begin_save(config_with(&["a", "z"])));
    assert_eq!(txn.stage(), Stage::Copying);
    assert_eq!(txn.path(), "/cfg.json");
    assert_eq!(txn.backup_path(), "/cfg.json.backup");
    let txn = next(store.on_copied(txn, Ok(())));
    assert_eq!(txn.stage(), Stage::Writing);
    assert_eq!(txn.pending().mcp_servers.keys(), vec!["a".to_string(), "z".to_string()]);
    assert_eq!(cached_names(&store), vec!["a".to_string()]);
    let r = finished(store.on_written(txn, WriteResult::Written));
    assert_eq!(r.ok(), Some(StoreOutcome::Saved));
    assert_eq!(cached_names(&store), vec!["a".to_string(), "z".to_string()]);
}

#[test]
fn failed_backup_stops_the_save_before_any_write() {
    let mut store = ConfigStore::new();
    let txn = store.begin_load("/cfg.json".to_string());
    let _ = store.on_read(txn, ReadResult::Parsed { config: config_with(&["a"]) });
    let txn = next(store.begin_save(config_with(&["b"])));
    match finished(store.on_copied(txn, Err("disk full".to_string()))) {
        Err(StoreError::Backup { message }) => assert_eq!(message, "disk full"),
        _ => panic!("expected a backup error"),
    }
    assert_eq!(cached_names(&store), vec!["a".to_string()]);
}

#[test]
fn failed_write_leaves_the_cache_alone() {
    let mut store = ConfigStore::new();
    let txn = store.begin_load("/cfg.json".to_string());
    let _ = store.on_read(txn, ReadResult::Parsed { config: config_with(&["a"]) });
    let txn = next(store.begin_save(config_with(&["b"])));
    let txn = next(store.on_copied(txn, Ok(())));
    let written = WriteResult::WriteFailed { message: "read-only".to_string() };
    match finished(store.on_written(txn, written)) {
        Err(StoreError::Write { message }) => assert_eq!(message, "read-only"),
        _ => panic!("expected a write error"),
    }
    assert_eq!(cached_names(&store), vec!["a".to_string()]);
}

#[test]
fn adding_a_present_name_is_already_exists_with_no_write() {
    let mut store = ConfigStore::new();
    let txn = store.begin_add("/cfg.json".to_string(), "a".to_string(), server("uvx", &["x"]));
    assert_eq!(txn.kind(), TxnKind::Add);
    let r = finished(store.on_read(txn, ReadResult::Parsed { config: config_with(&["a"]) }));
    assert_eq!(r.ok(), Some(StoreOutcome::AlreadyExists));
    let msg = StoreOutcome::AlreadyExists.to_result("a");
    assert!(!msg.success);
    assert_eq!(msg.message, "Server 'a' already exists");
}

#[test]
fn adding_a_new_name_backs_up_then_writes() {
    let mut store = ConfigStore::new();
    let txn = store.begin_add("/cfg.json".to_string(), "c".to_string(), server("uvx", &["x"]));
    let txn = next(store.on_read(txn, ReadResult::Parsed { config: config_with(&["a"]) }));
    assert_eq!(txn.stage(), Stage::Copying);
    assert_eq!(cached_names(&store), vec!["a".to_string()]);
    let txn = next(store.on_copied(txn, Ok(())));
    let r = finished(store.on_written(txn, WriteResult::Written));
    assert_eq!(r.ok(), Some(StoreOutcome::Added));
    assert_eq!(cached_names(&store), vec!["a".to_string(), "c".to_string()]);
    assert_eq!(StoreOutcome::Added.to_result("c").message, "Server 'c' added successfully");
}

#[test]
fn deleting_an_absent_name_is_not_found_with_no_write() {
    let mut store = ConfigStore::new();
    let txn = store.begin_delete("/cfg.json".to_string(), "zz".to_string());
    let r = finished(store.on_read(txn, ReadResult::Parsed { config: config_with(&["a"]) }));
    assert_eq!(r.ok(), Some(StoreOutcome::NotFound));
    assert_eq!(StoreOutcome::NotFound.to_result("zz").message, "Server 'zz' not found");
}

#[test]
fn deleting_a_present_name_writes_the_rest() {
    let mut store = ConfigStore::new();
    let txn = store.begin_delete("/cfg.json".to_string(), "a".to_string());
    let txn = next(store.on_read(txn, ReadResult::Parsed { config: config_with(&["a", "b"]) }));
    let txn = next(store.on_copied(txn, Ok(())));
    assert_eq!(txn.pending().mcp_servers.keys(), vec!["b".to_string()]);
    let r = finished(store.on_written(txn, WriteResult::Written));
    assert_eq!(r.ok(), Some(StoreOutcome::Deleted));
    assert_eq!(StoreOutcome::Deleted.to_result("a").message, "Server 'a' deleted successfully");
}

#[test]
fn update_backs_up_first_and_leaves_the_cache() {
    let mut store = ConfigStore::new();
    let txn = ConfigStore::begin_update("/cfg.json".to_string(), "a".to_string(), server("docker", &["run"]));
    assert_eq!(txn.stage(), Stage::Copying);
    let txn = next(store.on_copied(txn, Ok(())));
    assert_eq!(txn.stage(), Stage::Reading);
    let txn = next(store.on_read(txn, ReadResult::Parsed { config: config_with(&["a", "b"]) }));
    assert_eq!(txn.stage(), Stage::Writing);
    let written = txn.pending().mcp_servers.get("a").unwrap();
    assert_eq!(written.command, "docker");
    let r = finished(store.on_written(txn, WriteResult::Written));
    assert_eq!(r.ok(), Some(StoreOutcome::Updated));
    assert!(store.cached().is_none());
    assert_eq!(StoreOutcome::Updated.to_result("a").message, "Server 'a' updated successfully");
}

#[test]
fn backup_path_appends_the_suffix() {
    assert_eq!(backup_path_of(&"/x/servers.json".to_string()), "/x/servers.json.backup");
}

#[test]
fn custom_path_wins_unless_blank() {
    let d: Result<String, String> = Ok("/default.json".to_string());
    assert_eq!(resolve_config_path(Some("/mine.json".to_string()), d.clone()), Ok("/mine.json".to_string()));
    assert_eq!(resolve_config_path(Some("   ".to_string()), d.clone()), d);
    assert_eq!(resolve_config_path(None, d.clone()), d);
    let none: Result<String, String> = Err("Could not determine home directory".to_string());
    assert_eq!(resolve_config_path(None, none.clone()), none);
}

#[test]
fn edit_without_environment_stores_none() {
    let edit = McpServerEdit {
        command: "npx".to_string(),
        args: vec!["a".to_string()],
        env: NameMap::new(),
    };
    let s = edit.into_server();
    assert!(s.env.is_none());
    let mut env = NameMap::new();
    env.insert("K".to_string(), "v".to_string());
    let edit = McpServerEdit { command: "npx".to_string(), args: vec![], env };
    assert_eq!(edit.into_server().env.unwrap().keys(), vec!["K".to_string()]);
}

#[test]
fn json_errors_are_classified_by_their_message() {
    assert_eq!(analyze_json_error("EOF while parsing a value", 1, 1).kind, JsonErrorKind::Incomplete);
    assert_eq!(analyze_json_error("expected `:`, found `}`", 2, 5).kind, JsonErrorKind::Syntax);
    assert_eq!(analyze_json_error("trailing comma at line 4", 4, 2).kind, JsonErrorKind::TrailingComma);
    assert_eq!(analyze_json_error("duplicate key `a`", 1, 9).kind, JsonErrorKind::DuplicateKey);
    let i = analyze_json_error("something else", 7, 8);
    assert_eq!(i.kind, JsonErrorKind::Unknown);
    assert_eq!((i.line, i.column, i.has_backup), (7, 8, false));
    assert_eq!(JsonErrorKind::TrailingComma.error_type(), "trailing_comma");
    assert_eq!(JsonErrorKind::DuplicateKey.suggestion(), "Each server must have a unique name");
    assert_eq!(JsonErrorKind::Incomplete.user_message(), "The JSON file appears to be incomplete or truncated");
}

#[test]
fn restore_snapshots_a_present_file_then_copies_back() {
    let step = begin_restore("/c.json".to_string(), BackupCheck::Valid, true);
    let txn = match step {
        RestoreStep::Next(t) => t,
        _ => panic!("expected a snapshot step"),
    };
    assert_eq!(txn.stage(), RestoreStage::Snapshotting);
    assert_eq!(txn.source(), "/c.json");
    assert_eq!(txn.target(), "/c.json.broken");
    let txn = match txn.on_snapshot(Ok(())) {
        RestoreStep::Next(t) => t,
        _ => panic!("expected the copy back"),
    };
    assert_eq!(txn.stage(), RestoreStage::CopyingBack);
    assert_eq!(txn.source(), "/c.json.backup");
    assert_eq!(txn.target(), "/c.json");
    match txn.on_copied_back(Ok(())) {
        RestoreStep::Finished(Ok(true)) => {}
        _ => panic!("expected a restore"),
    }
    let r = RestoreStep::restored_result(true);
    assert!(r.success);
    assert_eq!(r.message, "Configuration restored from backup successfully");
}

#[test]
fn restore_without_a_file_copies_back_directly() {
    match begin_restore("/c.json".to_string(), BackupCheck::Valid, false) {
        RestoreStep::Next(t) => assert_eq!(t.stage(), RestoreStage::CopyingBack),
        _ => panic!("expected the copy back"),
    }
}

#[test]
fn restore_stops_on_a_missing_or_corrupt_backup() {
    match begin_restore("/c.json".to_string(), BackupCheck::Missing, true) {
        RestoreStep::Finished(Ok(false)) => {}
        _ => panic!("expected no backup"),
    }
    assert_eq!(RestoreStep::restored_result(false).message, "No backup file found");
    match begin_restore("/c.json".to_string(), BackupCheck::Corrupt, true) {
        RestoreStep::Finished(Err(RestoreError::Corrupt)) => {}
        _ => panic!("expected a corrupt backup"),
    }
    let unreadable = BackupCheck::Unreadable { message: "denied".to_string() };
    match begin_restore("/c.json".to_string(), unreadable, true) {
        RestoreStep::Finished(Err(RestoreError::ReadBackup { message })) => assert_eq!(message, "denied"),
        _ => panic!("expected a read error"),
    }
}

#[test]
fn failed_snapshot_stops_the_restore() {
    let txn = match begin_restore("/c.json".to_string(), BackupCheck::Valid, true) {
        RestoreStep::Next(t) => t,
        _ => panic!("expected a snapshot step"),
    };
    match txn.on_snapshot(Err("full".to_string())) {
        RestoreStep::Finished(Err(RestoreError::Snapshot { message })) => assert_eq!(message, "full"),
        _ => panic!("expected a snapshot error"),
    }
}

#[test]
fn manual_backups_carry_the_time_in_their_name() {
    let target = manual_backup_path_of(&"/c.json".to_string(), 1700000000);
    assert_eq!(target, "/c.json.manual_backup_1700000000");
    assert_eq!(broken_path_of(&"/c.json".to_string()), "/c.json.broken");
    let done = manual_backup_result(true, &target);
    assert!(done.success);
    assert_eq!(done.message, "Manual backup created: /c.json.manual_backup_1700000000");
    let none = manual_backup_result(false, &target);
    assert!(!none.success);
    assert_eq!(none.message, "Configuration file does not exist");
}

#[test]
fn only_changes_that_reached_the_file_notify() {
    assert_eq!(StoreOutcome::Added.change_event(), Some("server-added"));
    assert_eq!(StoreOutcome::Deleted.change_event(), Some("server-deleted"));
    assert_eq!(StoreOutcome::Updated.change_event(), Some("server-updated"));
    assert_eq!(StoreOutcome::AlreadyExists.change_event(), None);
    assert_eq!(StoreOutcome::NotFound.change_event(), None);
    assert_eq!(StoreOutcome::Loaded.change_event(), None);
}
