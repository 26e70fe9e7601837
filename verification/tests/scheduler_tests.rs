use gateway::scheduler::backup_expired;
use gateway::scheduler::backup_file_name;
use gateway::scheduler::backup_full_path;
use gateway::scheduler::backup_job_commands;
use gateway::scheduler::truncate_job_command;
use gateway::storage::SqliteStorageAction;
use gateway::storage::SqliteStorageTruncate;

#[test]
fn backup_name_rule() {
    let ms: i64 = 1700000000000;
    let name = backup_file_name(&String::from("My Gateway One"), ms);

    let expected_iso = chrono::DateTime::from_timestamp_millis(ms)
        .unwrap()
        .with_timezone(&chrono_tz::Europe::Bratislava)
        .format("%+")
        .to_string();
    let expected = format!("my_gateway_one:{}.db", expected_iso);
    assert_eq!(name, expected);
}

#[test]
fn backup_path_join() {
    let p = backup_full_path(&String::from("var/backups"), &String::from("g.db"));
    assert_eq!(p, "var/backups/g.db");
}

#[test]
fn truncate_command_window() {
    let cmd = truncate_job_command(2);
    assert_eq!(
        cmd,
        SqliteStorageAction::Truncate(SqliteStorageTruncate::FixedWindow(7200000))
    );
}

#[test]
fn backup_job_order() {
    let cmds = backup_job_commands(&String::from("GW"), &String::from("b"), 1700000000000, 24);
    assert_eq!(cmds.len(), 2);
    assert!(matches!(
        cmds[0],
        SqliteStorageAction::Truncate(SqliteStorageTruncate::FixedWindow(86400000))
    ));
    match &cmds[1] {
        SqliteStorageAction::BackupDB(path) => {
            assert!(path.starts_with("b/gw:"));
            assert!(path.ends_with(".db"));
        }
        other => panic!("expected a backup command, got {:?}", other),
    }
}

#[test]
fn backup_age_rule() {
    // A day-old file against a 12-hour keep window is swept; a fresh one
    // stays.
    let now: i64 = 1700000000;
    assert!(backup_expired(now - 86400, now, 12));
    assert!(!backup_expired(now - 3600, now, 12));
    assert!(!backup_expired(now - 43200, now, 12));
    assert!(backup_expired(now - 43201, now, 12));
}
