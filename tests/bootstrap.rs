use memospot_init::webview::{ensure_webview, WebviewAction, WebviewEvent};
use memospot_init::config::{config, load_config_step, ConfigAction, ConfigError, ConfigEvent};
use memospot_init::locate::{configured_binary, find_memos, search_paths};
use memospot_init::logging::{logging_config_path, setup_logger, LogAction, LogError, LogEvent, LOGGING_CONFIG_YAML};
use memospot_init::memos::Memos;
use memospot_init::migrate::{
    backup_file_name, migrate_database, MigrationAction, MigrationEvent, MigrationOutcome,
    MigrationSettings, Stamp,
};
use memospot_init::num::push_decimal;
use memospot_init::paths::{backup_directory, database, memos_data, remove_demo_database, DirChoice};
use memospot_init::port::{choose_port, memos_port};
use memospot_init::text::{join_path, same_text};
use memospot_init::url::{memos_url, UrlError};

fn resolved(c: DirChoice) -> Option<String> {
    match c {
        DirChoice::Resolved(p) => Some(p),
        DirChoice::Expand(_) => None,
    }
}

fn expand(c: DirChoice) -> Option<String> {
    match c {
        DirChoice::Resolved(_) => None,
        DirChoice::Expand(p) => Some(p),
    }
}

#[test]
fn memos_data_defaults_on_empty_or_dot() {
    for s in [None, Some(""), Some("   "), Some("."), Some(" . ")] {
        let setting = s.map(String::from);
        assert_eq!(resolved(memos_data(&setting, "/data/app")).unwrap(), "/data/app");
    }
}

#[test]
fn memos_data_custom_is_trimmed() {
    let setting = Some(String::from("  ~/memos  "));
    assert_eq!(expand(memos_data(&setting, "/data/app")).unwrap(), "~/memos");
}

#[test]
fn backup_directory_defaults() {
    for s in [None, Some(""), Some("."), Some("backups"), Some(" backups ")] {
        let setting = s.map(String::from);
        assert_eq!(
            resolved(backup_directory(&setting, "/data/app", false)).unwrap(),
            "/data/app/backups"
        );
    }
    assert_eq!(
        resolved(backup_directory(&None, r"C:\app\", true)).unwrap(),
        r"C:\app\backups"
    );
    assert_eq!(
        expand(backup_directory(&Some(String::from("/mnt/b")), "/data/app", false)).unwrap(),
        "/mnt/b"
    );
}

#[test]
fn database_file_names() {
    let f = database("/data/memos", &Some(String::from("prod")), false);
    assert_eq!(f.db, "/data/memos/memos_prod.db");
    assert_eq!(f.wal, "/data/memos/memos_prod.db-wal");
    assert_eq!(f.shm, "/data/memos/memos_prod.db-shm");
    let g = database("/d/", &None, false);
    assert_eq!(g.db, "/d/memos_.db");
}

#[test]
fn demo_database_removed_only_in_dev_demo() {
    let demo = Some(String::from("demo"));
    assert!(remove_demo_database(true, &demo));
    assert!(!remove_demo_database(false, &demo));
    assert!(!remove_demo_database(true, &Some(String::from("prod"))));
    assert!(!remove_demo_database(true, &None));
}

#[test]
fn demo_database_in_dev_is_removed_and_not_migrated() {
    let mut memos = Memos::default_settings();
    memos.port = Some(5230);
    let memos = config(memos, true);
    assert!(remove_demo_database(true, &memos.mode));
    // After removal the database no longer exists: the run ends without migrating.
    let s = MigrationSettings { migrations_enabled: true, backups_enabled: true, db_exists: false };
    assert!(matches!(
        migrate_database(s, MigrationEvent::Start),
        MigrationAction::Stop(MigrationOutcome::NoDatabase)
    ));
}

#[test]
fn default_config_has_known_mode() {
    let m = Memos::default_settings();
    let mode = m.mode.clone().unwrap();
    assert!(["prod", "dev", "demo"].contains(&mode.as_str()));
    assert_eq!(m.port, Some(0));
    assert_eq!(m.addr.as_deref(), Some("127.0.0.1"));
}

#[test]
fn config_load_missing_file_written_then_loaded() {
    assert_eq!(load_config_step(ConfigEvent::Start), ConfigAction::Probe);
    let missing = ConfigEvent::Probed { exists: false, is_dir: false, writable: false };
    assert_eq!(load_config_step(missing), ConfigAction::Create);
    assert_eq!(load_config_step(ConfigEvent::Created(true)), ConfigAction::Probe);
    let ok = ConfigEvent::Probed { exists: true, is_dir: false, writable: true };
    assert_eq!(load_config_step(ok), ConfigAction::Load);
    assert_eq!(load_config_step(ConfigEvent::Loaded(true)), ConfigAction::UseLoaded);
}

#[test]
fn config_load_errors() {
    assert_eq!(
        load_config_step(ConfigEvent::Created(false)),
        ConfigAction::Fatal(ConfigError::CreateFailed)
    );
    assert_eq!(
        load_config_step(ConfigEvent::Probed { exists: true, is_dir: true, writable: true }),
        ConfigAction::Fatal(ConfigError::IsDirectory)
    );
    assert_eq!(
        load_config_step(ConfigEvent::Probed { exists: true, is_dir: false, writable: false }),
        ConfigAction::Fatal(ConfigError::NotWritable)
    );
    assert_eq!(load_config_step(ConfigEvent::Loaded(false)), ConfigAction::AskReset);
    assert_eq!(
        load_config_step(ConfigEvent::ResetAnswered(false)),
        ConfigAction::Fatal(ConfigError::ResetDeclined)
    );
    assert_eq!(load_config_step(ConfigEvent::ResetAnswered(true)), ConfigAction::Reset);
    assert_eq!(load_config_step(ConfigEvent::Reset(true)), ConfigAction::UseDefaults);
    assert_eq!(
        load_config_step(ConfigEvent::Reset(false)),
        ConfigAction::Fatal(ConfigError::ResetFailed)
    );
}

#[test]
fn dev_build_overrides() {
    let mut m = Memos::default_settings();
    m.port = Some(5230);
    let d = config(m.clone(), true);
    assert_eq!(d.mode.as_deref(), Some("demo"));
    assert_eq!(d.port, Some(5231));
    assert_eq!(config(m.clone(), false), m);
    m.port = Some(0);
    assert_eq!(config(m.clone(), true).port, Some(0));
    m.port = Some(65535);
    assert_eq!(config(m.clone(), true).port, Some(0));
    m.port = None;
    assert_eq!(config(m, true).port, None);
}

#[test]
fn backup_name_embeds_timestamp() {
    let t = Stamp { year: 2024, month: 3, day: 7, hour: 9, minute: 5, second: 0 };
    assert_eq!(backup_file_name(&t), "db-20240307-090500-pre-migration.zst.zip");
    let early = Stamp { year: 7, month: 12, day: 31, hour: 23, minute: 59, second: 59 };
    assert_eq!(backup_file_name(&early), "db-00071231-235959-pre-migration.zst.zip");
    let late = Stamp { year: 12345, month: 1, day: 1, hour: 0, minute: 0, second: 0 };
    assert_eq!(backup_file_name(&late), "db-+123450101-000000-pre-migration.zst.zip");
    let bce = Stamp { year: -44, month: 3, day: 15, hour: 12, minute: 0, second: 0 };
    assert_eq!(backup_file_name(&bce), "db--00440315-120000-pre-migration.zst.zip");
}

#[test]
fn migration_run_with_pending_backs_up_once_then_applies() {
    let s = MigrationSettings { migrations_enabled: true, backups_enabled: true, db_exists: true };
    assert!(matches!(migrate_database(s, MigrationEvent::Start), MigrationAction::CountPending));
    match migrate_database(s, MigrationEvent::Counted(3)) {
        MigrationAction::Backup { stamp, file_name } => {
            assert_eq!(file_name, backup_file_name(&stamp));
            assert!(file_name.starts_with("db-") && file_name.ends_with("-pre-migration.zst.zip"));
            assert_eq!(file_name.len(), "db-20240307-090500-pre-migration.zst.zip".len());
        }
        other => panic!("expected a backup, got {:?}", other),
    }
    assert!(matches!(migrate_database(s, MigrationEvent::BackupFinished), MigrationAction::Apply));
    assert!(matches!(
        migrate_database(s, MigrationEvent::Applied(true)),
        MigrationAction::Stop(MigrationOutcome::Migrated)
    ));
    assert!(matches!(
        migrate_database(s, MigrationEvent::Applied(false)),
        MigrationAction::Stop(MigrationOutcome::MigrateFailed)
    ));
}

#[test]
fn migration_run_without_pending_does_nothing() {
    let s = MigrationSettings { migrations_enabled: true, backups_enabled: true, db_exists: true };
    assert!(matches!(
        migrate_database(s, MigrationEvent::Counted(0)),
        MigrationAction::Stop(MigrationOutcome::UpToDate)
    ));
    let no_backup = MigrationSettings { backups_enabled: false, ..s };
    assert!(matches!(migrate_database(no_backup, MigrationEvent::Counted(2)), MigrationAction::Apply));
    let disabled = MigrationSettings { migrations_enabled: false, ..s };
    assert!(matches!(
        migrate_database(disabled, MigrationEvent::Start),
        MigrationAction::Stop(MigrationOutcome::Disabled)
    ));
}

#[test]
fn port_choice() {
    assert_eq!(choose_port(5230, true, Some(17000)), Some(5230));
    assert_eq!(choose_port(5230, false, Some(17000)), Some(17000));
    assert_eq!(choose_port(5230, false, Some(5230)), None);
    assert_eq!(choose_port(0, true, Some(17000)), Some(17000));
    assert_eq!(choose_port(0, false, None), None);
    assert_eq!(choose_port(5230, false, Some(0)), None);
}

#[test]
fn port_found_is_never_zero() {
    if let Some(p) = memos_port(0) {
        assert_ne!(p, 0);
    }
}

#[test]
fn binary_search_order() {
    let paths = search_paths(&None, "/cwd", "/data", false, &None);
    assert_eq!(
        paths,
        vec![
            "/cwd/memos",
            "/data/memos",
            "/usr/local/bin/memos",
            "/var/opt/memos/memos",
            "/usr/local/memos/memos"
        ]
    );
    let win = search_paths(
        &Some(String::from(r"D:\bin\memos.exe")),
        r"C:\cwd",
        r"C:\data",
        true,
        &Some(String::from(r"C:\ProgramData")),
    );
    assert_eq!(
        win,
        vec![
            r"D:\bin\memos.exe",
            r"C:\cwd\memos.exe",
            r"C:\data\memos.exe",
            r"C:\ProgramData\memos\memos.exe"
        ]
    );
    assert_eq!(search_paths(&None, "a", "b", true, &None).len(), 2);
}

#[test]
fn binary_first_existing_wins() {
    assert_eq!(find_memos(&vec![false, true, true]), Some(1));
    assert_eq!(find_memos(&vec![true, true]), Some(0));
    assert_eq!(find_memos(&vec![false, false]), None);
    assert_eq!(find_memos(&vec![]), None);
}

#[test]
fn configured_binary_is_trimmed() {
    assert_eq!(configured_binary(&Some(String::from("  /opt/memos "))).unwrap(), "/opt/memos");
    assert_eq!(configured_binary(&Some(String::from("   "))), None);
    assert_eq!(configured_binary(&None), None);
}

#[test]
fn logging_repair_run() {
    assert_eq!(setup_logger(LogEvent::Start { enabled: false }), LogAction::Done { enabled: false });
    assert_eq!(setup_logger(LogEvent::Start { enabled: true }), LogAction::Init);
    assert_eq!(
        setup_logger(LogEvent::Initialized { ok: false, retried: false }),
        LogAction::Rewrite
    );
    assert_eq!(setup_logger(LogEvent::Rewritten(true)), LogAction::Init);
    assert_eq!(
        setup_logger(LogEvent::Initialized { ok: true, retried: true }),
        LogAction::Done { enabled: true }
    );
    assert_eq!(
        setup_logger(LogEvent::Initialized { ok: false, retried: true }),
        LogAction::Fatal(LogError::InitFailed)
    );
    assert_eq!(
        setup_logger(LogEvent::Rewritten(false)),
        LogAction::Fatal(LogError::WriteFailed)
    );
}

#[test]
fn logging_paths_and_template() {
    assert_eq!(logging_config_path("/data", false), "/data/logging_config.yaml");
    assert!(LOGGING_CONFIG_YAML.contains("path: $ENV{MEMOSPOT_DATA}/memospot.log"));
    assert!(LOGGING_CONFIG_YAML.contains("count: 5"));
    assert!(!LOGGING_CONFIG_YAML.contains("    appenders"));
}

#[test]
fn memos_url_local_and_remote() {
    assert_eq!(memos_url(false, &None, 5230).unwrap(), "http://localhost:5230/");
    assert_eq!(memos_url(false, &None, 0).unwrap(), "http://localhost:0/");
    assert_eq!(memos_url(true, &None, 65535).unwrap(), "http://localhost:65535/");
    let remote = Some(String::from("https://memos.example.com///"));
    assert_eq!(memos_url(true, &remote, 1).unwrap(), "https://memos.example.com/");
    assert_eq!(memos_url(false, &remote, 7).unwrap(), "http://localhost:7/");
    assert_eq!(memos_url(true, &Some(String::from("http")), 1).unwrap(), "http/");
    assert_eq!(memos_url(true, &Some(String::from("ftp://x")), 1), Err(UrlError::InvalidRemoteUrl));
    assert_eq!(memos_url(true, &Some(String::new()), 1), Err(UrlError::InvalidRemoteUrl));
}

#[test]
fn text_helpers() {
    assert_eq!(join_path("/a", "b", false), "/a/b");
    assert_eq!(join_path("/a/", "b", false), "/a/b");
    assert_eq!(join_path("", "b", false), "/b");
    assert!(same_text("abc", "abc"));
    assert!(!same_text("abc", "abd"));
    let mut s = String::from("x");
    push_decimal(&mut s, 42, 4);
    assert_eq!(s, "x0042");
}

#[test]
fn webview_steps() {
    let missing = WebviewEvent::Checked { available: false, installed: false };
    assert_eq!(ensure_webview(missing), WebviewAction::AskInstall);
    assert_eq!(
        ensure_webview(WebviewEvent::Checked { available: true, installed: false }),
        WebviewAction::Ready
    );
    assert_eq!(
        ensure_webview(WebviewEvent::Answered(false)),
        WebviewAction::Exit { open_website: false }
    );
    assert_eq!(ensure_webview(WebviewEvent::Answered(true)), WebviewAction::Install);
    assert_eq!(
        ensure_webview(WebviewEvent::Installed(false)),
        WebviewAction::Exit { open_website: true }
    );
    assert_eq!(ensure_webview(WebviewEvent::Installed(true)), WebviewAction::Check);
    assert_eq!(
        ensure_webview(WebviewEvent::Checked { available: false, installed: true }),
        WebviewAction::Fatal
    );
}
