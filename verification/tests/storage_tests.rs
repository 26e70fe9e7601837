use std::sync::mpsc;

use gateway::storage::prepare_compressed_backup;
use gateway::storage::compressed_path_for;
use gateway::storage::Insert;
use gateway::storage::ProcessOutcome;
use gateway::storage::SqliteStorage;
use gateway::storage::SqliteStorageAction;
use gateway::storage::SqliteStorageTruncate;
use gateway::storage::storage_paths;
use gateway::storage::StorageFollowUp;

fn select_ts(path: &str) -> Vec<i64> {
    let conn = rusqlite::Connection::open(path).unwrap();
    let mut stmt = conn.prepare("SELECT ts FROM messages ORDER BY rowid").unwrap();
    let rows = stmt.query_map([], |row| row.get::<_, i64>(0)).unwrap();
    rows.map(|r| r.unwrap()).collect()
}

fn insert_at(ts: i64) -> SqliteStorageAction {
    SqliteStorageAction::InsertBoth(Insert {
        ts,
        device_name: String::from("dev"),
        timeseries_message: Some(String::from("{\"dev\":[]}")),
        attributes_message: Some(String::from("{\"dev\":{}}")),
    })
}

#[test]
fn storage_path_rules() {
    let (path, dir) = storage_paths(&String::from("var/data"));
    assert_eq!(path, "var/data/data.db");
    assert_eq!(dir, "var/data");

    let (path, dir) = storage_paths(&String::from("var/other.db"));
    assert_eq!(path, "var/other.db");
    assert_eq!(dir, "var");
}

#[test]
fn compressed_path_rule() {
    let p = compressed_path_for(&String::from("var/data"), &String::from("g:t.db"));
    assert_eq!(p, "var/data/backup/g:t.db.zst");
}

#[test]
fn retention_window_keeps_only_recent_rows() {
    // Rows three hours old, one hour old, and one hour in the future; a
    // two-hour window at T keeps only the one-hour-old row.
    let t: i64 = 1700000000000;
    let hour: i64 = 3600000;
    let path = "/tmp/gateway_retention_test.db";
    let conn = rusqlite::Connection::open(path).unwrap();
    conn.execute("DROP TABLE IF EXISTS messages", ()).unwrap();
    drop(conn);

    let (_tx, rx) = mpsc::channel::<SqliteStorageAction>();
    let mut storage = SqliteStorage::new(String::from(path), rx).unwrap();
    for ts in [t - 3 * hour, t - hour, t + hour] {
        storage.apply_action(insert_at(ts), t).unwrap();
    }
    assert_eq!(select_ts(path), vec![t - 3 * hour, t - hour, t + hour]);

    storage
        .apply_action(
            SqliteStorageAction::Truncate(SqliteStorageTruncate::FixedWindow(2 * hour)),
            t,
        )
        .unwrap();
    drop(storage);

    assert_eq!(select_ts(path), vec![t - hour]);
}

#[test]
fn no_op_commands_succeed_without_effect() {
    let path = "/tmp/gateway_noop_test.db";
    let conn = rusqlite::Connection::open(path).unwrap();
    conn.execute("DROP TABLE IF EXISTS messages", ()).unwrap();
    drop(conn);

    let (_tx, rx) = mpsc::channel::<SqliteStorageAction>();
    let mut storage = SqliteStorage::new(String::from(path), rx).unwrap();
    storage.apply_action(insert_at(3), 3).unwrap();
    for action in [
        SqliteStorageAction::Timeout,
        SqliteStorageAction::CloseDB,
        SqliteStorageAction::InsertAttributes(match insert_at(4) {
            SqliteStorageAction::InsertBoth(ins) => ins,
            _ => unreachable!(),
        }),
    ] {
        assert_eq!(storage.apply_action(action, 9), Ok(StorageFollowUp::Nothing));
    }
    drop(storage);
    assert_eq!(select_ts(path), vec![3]);
}

#[test]
fn unopenable_database_path_is_an_open_error() {
    let (_tx, rx) = mpsc::channel::<SqliteStorageAction>();
    let r = SqliteStorage::new(String::from("/nonexistent_gateway_dir/data.db"), rx);
    assert_eq!(r.err(), Some(gateway::storage::StorageError::Open));
}

#[test]
fn insert_without_payload_is_rejected() {
    let path = "/tmp/gateway_missing_payload_test.db";
    let (_tx, rx) = mpsc::channel::<SqliteStorageAction>();
    let mut storage = SqliteStorage::new(String::from(path), rx).unwrap();
    let action = SqliteStorageAction::InsertBoth(Insert {
        ts: 1,
        device_name: String::from("dev"),
        timeseries_message: None,
        attributes_message: Some(String::from("{}")),
    });
    assert!(storage.apply_action(action, 1).is_err());
}

#[test]
fn backup_produces_identical_copy_twice() {
    // Two consecutive successful backups: each decompressed copy holds the
    // same rows as the source at its capture instant.
    let path = "/tmp/gateway_backup_src_test.db";
    let conn = rusqlite::Connection::open(path).unwrap();
    conn.execute("DROP TABLE IF EXISTS messages", ()).unwrap();
    drop(conn);

    let (_tx, rx) = mpsc::channel::<SqliteStorageAction>();
    let mut storage = SqliteStorage::new(String::from(path), rx).unwrap();
    storage.apply_action(insert_at(11), 11).unwrap();
    storage.apply_action(insert_at(22), 22).unwrap();

    let first = "/tmp/gateway_backup_copy_one.db";
    let second = "/tmp/gateway_backup_copy_two.db";
    for dest in [first, second] {
        let conn = rusqlite::Connection::open(dest).unwrap();
        conn.execute("DROP TABLE IF EXISTS messages", ()).unwrap();
        drop(conn);
        let follow = storage
            .apply_action(SqliteStorageAction::BackupDB(String::from(dest)), 33)
            .unwrap();
        assert_eq!(follow, StorageFollowUp::CompressBackup(String::from(dest)));
    }

    assert_eq!(select_ts(first), vec![11, 22]);
    assert_eq!(select_ts(second), vec![11, 22]);
    assert_eq!(select_ts(path), vec![11, 22]);
}

#[test]
fn compression_round_trips() {
    let data: Vec<u8> = (0u16..2048).map(|i| (i % 251) as u8).collect();
    let (path, packed) =
        prepare_compressed_backup(&String::from("var/data"), &String::from("g.db"), &data).unwrap();
    assert_eq!(path, "var/data/backup/g.db.zst");
    assert!(packed.len() < data.len());
    assert_ne!(packed, data);
    let unpacked = zstd::bulk::decompress(&packed, data.len()).unwrap();
    assert_eq!(unpacked, data);

    let (_, packed_again) =
        prepare_compressed_backup(&String::from("var/data"), &String::from("g.db"), &data).unwrap();
    let unpacked_again = zstd::bulk::decompress(&packed_again, data.len()).unwrap();
    assert_eq!(unpacked_again, data);
}

#[test]
fn process_drains_queue_and_stops() {
    let path = "/tmp/gateway_process_test.db";
    let conn = rusqlite::Connection::open(path).unwrap();
    conn.execute("DROP TABLE IF EXISTS messages", ()).unwrap();
    drop(conn);

    let (tx, rx) = mpsc::channel::<SqliteStorageAction>();
    let mut storage = SqliteStorage::new(String::from(path), rx).unwrap();
    tx.send(insert_at(5)).unwrap();
    tx.send(SqliteStorageAction::Timeout).unwrap();
    drop(tx);

    assert_eq!(storage.process(), ProcessOutcome::Continue);
    assert_eq!(storage.process(), ProcessOutcome::Continue);
    assert_eq!(storage.process(), ProcessOutcome::Stopped);
    drop(storage);
    assert_eq!(select_ts(path), vec![5]);
}
