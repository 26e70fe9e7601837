//! The storage worker: the single-writer owner of the local database.  Every
//! mutation arrives as a command on its queue; the effect of each command on
//! the table is modelled as a ghost sequence of rows, and the retention and
//! serialisation laws are proved over that model.

use vstd::prelude::*;
use vstd::string::StrSliceExecFns;
use vstd::string::StringExecFns;

use crate::queue::channel_recv;

verus! {

/// The unit of database insertion: one batch's timestamp, device and the two
/// rendered envelopes.
#[derive(Debug, PartialEq)]
pub struct Insert {
    pub ts: i64,
    pub device_name: String,
    pub timeseries_message: Option<String>,
    pub attributes_message: Option<String>,
}

/// The retention policy: rows are kept only inside a window of this many
/// milliseconds before the wall clock.
#[derive(Debug, Clone, Copy, PartialEq, Eq, Structural)]
pub enum SqliteStorageTruncate {
    FixedWindow(i64),
}

/// A command for the storage worker.
#[derive(Debug, PartialEq)]
pub enum SqliteStorageAction {
    InsertAttributes(Insert),
    InsertTimeseries(Insert),
    InsertBoth(Insert),
    CloseDB,
    BackupDB(String),
    Truncate(SqliteStorageTruncate),
    Timeout,
}

/// The mathematical content of one persisted row of `messages`.
pub struct RowModel {
    pub ts: int,
    pub device: Seq<char>,
    pub series: Seq<char>,
    pub attrs: Seq<char>,
}

/// The row an insert command appends.
pub open spec fn row_of_insert(ins: Insert) -> RowModel {
    RowModel {
        ts: ins.ts as int,
        device: ins.device_name@,
        series: ins.timeseries_message->0@,
        attrs: ins.attributes_message->0@,
    }
}

/// An insert command must carry both envelopes; every other command is
/// always well formed.
pub open spec fn action_wf(a: SqliteStorageAction) -> bool {
    match a {
        SqliteStorageAction::InsertBoth(ins) => ins.timeseries_message is Some
            && ins.attributes_message is Some,
        _ => true,
    }
}

/// The rows whose timestamp lies inside the window, in their stored order.
pub open spec fn retain_window(rows: Seq<RowModel>, lo: int, hi: int) -> Seq<RowModel>
    decreases rows.len(),
{
    if rows.len() == 0 {
        Seq::empty()
    } else {
        let rest = retain_window(rows.drop_first(), lo, hi);
        if lo <= rows[0].ts && rows[0].ts <= hi {
            seq![rows[0]] + rest
        } else {
            rest
        }
    }
}

/// Subtraction clamped to the 64-bit signed range, as the truncation bound
/// is computed.
pub open spec fn sat_sub_i64(a: int, b: int) -> int {
    if a - b < i64::MIN {
        i64::MIN as int
    } else if a - b > i64::MAX {
        i64::MAX as int
    } else {
        a - b
    }
}

fn sat_sub(a: i64, b: i64) -> (r: i64)
    ensures
        r as int == sat_sub_i64(a as int, b as int),
{
    match a.checked_sub(b) {
        Some(v) => v,
        None => if b >= 0 {
            i64::MIN
        } else {
            i64::MAX
        },
    }
}

/// What one well-formed command does to the table: an insert appends its
/// row, a truncation keeps exactly the rows of the window ending at the
/// wall clock, and every other command leaves the rows as they are.
pub open spec fn storage_effect(rows: Seq<RowModel>, a: SqliteStorageAction, now: int) -> Seq<
    RowModel,
> {
    match a {
        SqliteStorageAction::InsertBoth(ins) => rows.push(row_of_insert(ins)),
        SqliteStorageAction::Truncate(SqliteStorageTruncate::FixedWindow(w)) => retain_window(
            rows,
            sat_sub_i64(now, w as int),
            now,
        ),
        _ => rows,
    }
}

/// Truncation boundary: after a fixed-window truncation at wall time `now`,
/// no row dated before `now - window` or after `now` remains, and every row
/// inside the window is kept.
pub proof fn lemma_truncation_boundary(rows: Seq<RowModel>, now: int, window: int)
    requires
        i64::MIN <= now - window <= i64::MAX,
    ensures
        forall|k: int|
            0 <= k < retain_window(rows, now - window, now).len() ==> !((#[trigger] retain_window(
                rows,
                now - window,
                now,
            )[k]).ts < now - window || retain_window(rows, now - window, now)[k].ts > now),
        forall|k: int|
            0 <= k < rows.len() && now - window <= (#[trigger] rows[k]).ts && rows[k].ts <= now
                ==> retain_window(rows, now - window, now).contains(rows[k]),
    decreases rows.len(),
{
    if rows.len() > 0 {
        lemma_truncation_boundary(rows.drop_first(), now, window);
        let lo = now - window;
        let kept = retain_window(rows, lo, now);
        let rest = retain_window(rows.drop_first(), lo, now);
        assert forall|k: int| 0 <= k < kept.len() implies !((#[trigger] kept[k]).ts < lo
            || kept[k].ts > now) by {
            if lo <= rows[0].ts && rows[0].ts <= now {
                if k > 0 {
                    assert(kept[k] == rest[k - 1]);
                }
            } else {
                assert(kept[k] == rest[k]);
            }
        }
        assert forall|k: int|
            0 <= k < rows.len() && lo <= (#[trigger] rows[k]).ts && rows[k].ts
                <= now implies kept.contains(rows[k]) by {
            if k == 0 {
                assert(kept[0] == rows[0]);
            } else {
                assert(rows.drop_first()[k - 1] == rows[k]);
                assert(rest.contains(rows[k]));
                let j = choose|j: int| 0 <= j < rest.len() && rest[j] == rows[k];
                if lo <= rows[0].ts && rows[0].ts <= now {
                    assert(kept[j + 1] == rest[j]);
                } else {
                    assert(kept[j] == rest[j]);
                }
            }
        }
    }
}

/// A queue of commands, each paired with the wall time at which the worker
/// would execute it.
pub open spec fn apply_all(rows: Seq<RowModel>, cmds: Seq<(SqliteStorageAction, int)>) -> Seq<
    RowModel,
>
    decreases cmds.len(),
{
    if cmds.len() == 0 {
        rows
    } else {
        apply_all(storage_effect(rows, cmds[0].0, cmds[0].1), cmds.drop_first())
    }
}

/// Single writer: the effects of the command queue compose serially in
/// arrival order — running a queue and then a second one is the same as
/// running their concatenation, so the table's history is exactly the
/// serial order of the storage worker's queue.
pub proof fn lemma_single_writer(
    rows: Seq<RowModel>,
    first: Seq<(SqliteStorageAction, int)>,
    second: Seq<(SqliteStorageAction, int)>,
)
    ensures
        apply_all(rows, first + second) == apply_all(apply_all(rows, first), second),
    decreases first.len(),
{
    if first.len() == 0 {
        assert(first + second =~= second);
    } else {
        assert((first + second)[0] == first[0]);
        assert((first + second).drop_first() =~= first.drop_first() + second);
        lemma_single_writer(storage_effect(rows, first[0].0, first[0].1), first.drop_first(), second);
    }
}

/// Backup idempotence at the model: a backup command never changes the
/// table, so two consecutive backups — with nothing in between — capture
/// identical row sequences, and equal captures compress to equal bytes
/// because the compressor's output is a function of its input alone.  What
/// the copied files hold on disk lies outside the model; the backup tests
/// exercise it.
pub proof fn lemma_backup_idempotence(
    rows: Seq<RowModel>,
    first: String,
    second: String,
    t1: int,
    t2: int,
)
    ensures
        storage_effect(rows, SqliteStorageAction::BackupDB(first), t1) == rows,
        apply_all(
            rows,
            seq![
                (SqliteStorageAction::BackupDB(first), t1),
                (SqliteStorageAction::BackupDB(second), t2),
            ],
        ) == rows,
{
    let tail = seq![(SqliteStorageAction::BackupDB(second), t2)];
    let cmds = seq![(SqliteStorageAction::BackupDB(first), t1)] + tail;
    assert(cmds =~= seq![
        (SqliteStorageAction::BackupDB(first), t1),
        (SqliteStorageAction::BackupDB(second), t2),
    ]);
    assert(cmds[0] == (SqliteStorageAction::BackupDB(first), t1));
    assert(cmds.drop_first() =~= tail);
    assert(tail[0] == (SqliteStorageAction::BackupDB(second), t2));
    assert(tail.drop_first() =~= Seq::<(SqliteStorageAction, int)>::empty());
    assert(storage_effect(rows, SqliteStorageAction::BackupDB(second), t2) == rows);
    assert(apply_all(rows, tail) == apply_all(rows, tail.drop_first()));
    assert(apply_all(rows, cmds) == apply_all(rows, cmds.drop_first()));
}

/// The storage worker's failure modes.
#[derive(Debug, Clone, Copy, PartialEq, Eq, Structural)]
pub enum StorageError {
    /// The database file could not be opened.
    Open,
    /// A SQL statement failed; the table is unchanged.
    Sql,
    /// The online backup failed.
    Backup,
    /// An insert command arrived without both envelopes.
    MissingPayload,
}

/// What the worker asks its surroundings to do after a command.
#[derive(Debug, PartialEq)]
pub enum StorageFollowUp {
    /// Nothing to do.
    Nothing,
    /// Compress the fresh backup file at this path and remove the original.
    CompressBackup(String),
}

/// The outcome of draining one command from the queue.
#[derive(Debug, PartialEq)]
pub enum ProcessOutcome {
    /// The command was handled; keep draining.
    Continue,
    /// A backup finished; its file wants compression.
    CompressBackup(String),
    /// Every sender is gone; shut down.
    Stopped,
}

#[verifier::external_type_specification]
#[verifier::external_body]
pub struct ExConnection(rusqlite::Connection);

#[verifier::external_type_specification]
#[verifier::external_body]
pub struct ExSqliteError(rusqlite::Error);

/// The path ends in the database suffix `.db`.
pub open spec fn ends_with_db(s: Seq<char>) -> bool {
    s.len() >= 3 && s.subrange(s.len() - 3, s.len() as int) == seq!['.', 'd', 'b']
}

/// The position of the last path separator, or -1 when there is none.
pub open spec fn last_slash_index(s: Seq<char>) -> int
    decreases s.len(),
{
    if s.len() == 0 {
        -1
    } else if s.last() == '/' {
        s.len() - 1
    } else {
        last_slash_index(s.drop_last())
    }
}

/// The directory part of a path: everything before the last separator.
pub open spec fn parent_dir(s: Seq<char>) -> Seq<char> {
    if last_slash_index(s) >= 0 {
        s.take(last_slash_index(s))
    } else {
        Seq::empty()
    }
}

/// The file the store opens for a configured folder: the folder itself when
/// it already names a `.db` file, otherwise `data.db` inside it.
pub open spec fn resolved_data_path(folder: Seq<char>) -> Seq<char> {
    if ends_with_db(folder) {
        folder
    } else {
        folder + seq!['/', 'd', 'a', 't', 'a', '.', 'd', 'b']
    }
}

fn path_ends_with_db(s: &String) -> (r: bool)
    ensures
        r == ends_with_db(s@),
{
    let sl = s.as_str();
    let len = sl.unicode_len();
    if len < 3 {
        return false;
    }
    let r = sl.get_char(len - 3) == '.' && sl.get_char(len - 2) == 'd' && sl.get_char(len - 1)
        == 'b';
    proof {
        assert(s@.subrange(s@.len() - 3, s@.len() as int) =~= seq![
            s@[s@.len() - 3],
            s@[s@.len() - 2],
            s@[s@.len() - 1],
        ]);
        if r {
            assert(s@.subrange(s@.len() - 3, s@.len() as int) =~= seq!['.', 'd', 'b']);
        }
    }
    r
}

proof fn lemma_last_slash_range(s: Seq<char>)
    ensures
        -1 <= last_slash_index(s) < s.len(),
    decreases s.len(),
{
    if s.len() > 0 {
        lemma_last_slash_range(s.drop_last());
    }
}

proof fn lemma_last_slash_after(s: Seq<char>, k: int)
    requires
        0 <= k < s.len(),
        s[k] == '/',
        forall|j: int| k < j < s.len() ==> s[j] != '/',
    ensures
        last_slash_index(s) == k,
    decreases s.len(),
{
    if s.len() - 1 == k {
    } else {
        assert(s.last() != '/');
        assert(s.drop_last()[k] == s[k]);
        lemma_last_slash_after(s.drop_last(), k);
    }
}

proof fn lemma_no_slash(s: Seq<char>)
    requires
        forall|j: int| 0 <= j < s.len() ==> s[j] != '/',
    ensures
        last_slash_index(s) == -1,
    decreases s.len(),
{
    if s.len() > 0 {
        lemma_no_slash(s.drop_last());
    }
}

/// The directory part of a path, for the backup folder rules.
pub fn parent_of(s: &String) -> (r: String)
    ensures
        r@ == parent_dir(s@),
{
    let sl = s.as_str();
    let len = sl.unicode_len();
    let mut i: usize = len;
    while i > 0
        invariant
            sl@ == s@,
            len == sl@.len(),
            i <= len,
            forall|j: int| i <= j < len ==> sl@[j] != '/',
        decreases i,
    {
        if sl.get_char(i - 1) == '/' {
            proof {
                lemma_last_slash_after(sl@, i as int - 1);
                assert(last_slash_index(s@) == i as int - 1);
                assert(parent_dir(s@) == s@.take(i as int - 1));
            }
            let prefix = sl.substring_char(0, i - 1);
            proof {
                assert(prefix@ =~= sl@.take(i as int - 1));
            }
            return prefix.to_owned();
        }
        i -= 1;
    }
    proof {
        lemma_no_slash(sl@);
    }
    String::new()
}

/// Resolves the configured folder into the database path and its directory.
pub fn storage_paths(data_folder: &String) -> (r: (String, String))
    ensures
        r.0@ == resolved_data_path(data_folder@),
        r.1@ == parent_dir(resolved_data_path(data_folder@)),
{
    let data_path: String = if path_ends_with_db(data_folder) {
        data_folder.clone()
    } else {
        proof {
            reveal_strlit("/data.db");
        }
        let mut p = data_folder.clone();
        p.append("/data.db");
        proof {
            assert("/data.db"@ =~= seq!['/', 'd', 'a', 't', 'a', '.', 'd', 'b']);
        }
        p
    };
    let dir = parent_of(&data_path);
    (data_path, dir)
}

/// Relies on rusqlite Connection::open: opens or creates the database file.
#[verifier::external_body]
fn open_connection(path: &String) -> (r: Result<rusqlite::Connection, rusqlite::Error>) {
    rusqlite::Connection::open(path.as_str())
}

/// Relies on rusqlite Connection::execute: issues the idempotent CREATE
/// TABLE for `messages`.
#[verifier::external_body]
fn create_messages_table(conn: &rusqlite::Connection) -> (r: Result<usize, rusqlite::Error>) {
    conn.execute(
        "CREATE TABLE IF NOT EXISTS messages(ts INTEGER, device_name TEXT, timeseries_message TEXT, attributes_message TEXT)",
        (),
    )
}

/// The single-writer owner of the local database: the open connection, the
/// command queue's receiving end, the data directory, and the ghost mirror
/// of the `messages` table that the trusted statements maintain.
pub struct SqliteStorage {
    connection: rusqlite::Connection,
    rx: std::sync::mpsc::Receiver<SqliteStorageAction>,
    data_dir: String,
    rows: Ghost<Seq<RowModel>>,
}

impl SqliteStorage {
    /// The model of the `messages` table.
    pub closed spec fn rows(&self) -> Seq<RowModel> {
        self.rows@
    }

    /// The directory the database lives in.
    pub closed spec fn data_dir_view(&self) -> Seq<char> {
        self.data_dir@
    }

    /// The directory the database lives in, for the compression step that
    /// runs at the edge after a backup.
    pub fn data_dir(&self) -> (r: &String)
        ensures
            r@ == self.data_dir_view(),
    {
        &self.data_dir
    }

    /// Opens (or creates) the database under the configured folder and
    /// issues the idempotent table creation; only a file that cannot be
    /// opened is fatal.
    pub fn new(data_folder: String, rx: std::sync::mpsc::Receiver<SqliteStorageAction>) -> (r:
        Result<SqliteStorage, StorageError>)
        ensures
            match r {
                Ok(s) => s.data_dir_view() == parent_dir(resolved_data_path(data_folder@)),
                Err(e) => e == StorageError::Open,
            },
    {
        let (data_path, data_dir) = storage_paths(&data_folder);
        match open_connection(&data_path) {
            Ok(conn) => {
                let _ = create_messages_table(&conn);
                Ok(
                    SqliteStorage {
                        connection: conn,
                        rx,
                        data_dir,
                        rows: Ghost(arbitrary()),
                    },
                )
            },
            Err(_) => Err(StorageError::Open),
        }
    }

    /// Relies on rusqlite's transaction with commit-on-drop and the INSERT
    /// statement: on success exactly one row holding these four values is
    /// appended to `messages`; on failure the table is unchanged.
    #[verifier::external_body]
    fn db_insert(&mut self, ts: i64, device: &String, series: &String, attrs: &String) -> (r:
        Result<(), rusqlite::Error>)
        ensures
            r is Ok ==> final(self).rows@ == old(self).rows@.push(
                RowModel { ts: ts as int, device: device@, series: series@, attrs: attrs@ },
            ),
            r is Err ==> final(self).rows@ == old(self).rows@,
            final(self).data_dir@ == old(self).data_dir@,
    {
        let tx = self.connection.transaction()?;
        tx.execute(
            "INSERT INTO messages (ts, device_name, timeseries_message, attributes_message) VALUES(?1, ?2, ?3, ?4)",
            (ts, device.as_str(), series.as_str(), attrs.as_str()),
        )?;
        tx.commit()
    }

    /// Relies on the DELETE statement with NOT BETWEEN: on success exactly
    /// the rows dated outside [lo, hi] are removed, the others keep their
    /// order; on failure the table is unchanged.
    #[verifier::external_body]
    fn db_truncate(&mut self, lo: i64, hi: i64) -> (r: Result<usize, rusqlite::Error>)
        ensures
            r is Ok ==> final(self).rows@ == retain_window(old(self).rows@, lo as int, hi as int),
            r is Err ==> final(self).rows@ == old(self).rows@,
            final(self).data_dir@ == old(self).data_dir@,
    {
        self.connection.execute("DELETE FROM messages WHERE ts NOT BETWEEN ?1 AND ?2", (lo, hi))
    }

    /// Relies on rusqlite's online backup API: a page-by-page copy of the
    /// live database into a fresh file at the destination, five pages per
    /// step, 250 ms between steps; the live table is not changed.
    #[verifier::external_body]
    fn db_backup(&self, dest: &String) -> (r: Result<(), rusqlite::Error>) {
        let mut dst = rusqlite::Connection::open(dest.as_str())?;
        let backup = rusqlite::backup::Backup::new(&self.connection, &mut dst)?;
        backup.run_to_completion(5, std::time::Duration::from_millis(250), None)
    }

    /// Executes one storage command at the given wall time.  On success the
    /// table model changes exactly by the command's effect; on any failure
    /// it is unchanged, and the worker goes on draining its queue.
    pub fn apply_action(&mut self, action: SqliteStorageAction, now_ms: i64) -> (r: Result<
        StorageFollowUp,
        StorageError,
    >)
        ensures
            final(self).data_dir_view() == old(self).data_dir_view(),
            !action_wf(action) ==> r == Err::<StorageFollowUp, StorageError>(
                StorageError::MissingPayload,
            ) && final(self).rows() == old(self).rows(),
            action_wf(action) && r is Ok ==> final(self).rows() == storage_effect(
                old(self).rows(),
                action,
                now_ms as int,
            ),
            r is Err ==> final(self).rows() == old(self).rows(),
            match r {
                Ok(StorageFollowUp::CompressBackup(p)) => action matches
                    SqliteStorageAction::BackupDB(q) && p@ == q@,
                Ok(StorageFollowUp::Nothing) => !(action is BackupDB),
                Err(_) => true,
            },
            action_wf(action) ==> r != Err::<StorageFollowUp, StorageError>(
                StorageError::MissingPayload,
            ),
            action is Timeout || action is CloseDB || action is InsertAttributes
                || action is InsertTimeseries ==> r == Ok::<StorageFollowUp, StorageError>(
                StorageFollowUp::Nothing,
            ),
            action matches SqliteStorageAction::InsertBoth(_) && action_wf(action) ==> r is Ok
                || r == Err::<StorageFollowUp, StorageError>(StorageError::Sql),
            action is Truncate ==> r is Ok || r == Err::<StorageFollowUp, StorageError>(
                StorageError::Sql,
            ),
            action is BackupDB ==> (r matches Ok(StorageFollowUp::CompressBackup(_))) || r
                == Err::<StorageFollowUp, StorageError>(StorageError::Backup),
    {
        match action {
            SqliteStorageAction::InsertBoth(ins) => {
                let Insert { ts, device_name, timeseries_message, attributes_message } = ins;
                match (timeseries_message, attributes_message) {
                    (Some(series), Some(attrs)) => {
                        match self.db_insert(ts, &device_name, &series, &attrs) {
                            Ok(_) => Ok(StorageFollowUp::Nothing),
                            Err(_) => Err(StorageError::Sql),
                        }
                    },
                    _ => Err(StorageError::MissingPayload),
                }
            },
            SqliteStorageAction::Truncate(SqliteStorageTruncate::FixedWindow(window)) => {
                let lo = sat_sub(now_ms, window);
                match self.db_truncate(lo, now_ms) {
                    Ok(_) => Ok(StorageFollowUp::Nothing),
                    Err(_) => Err(StorageError::Sql),
                }
            },
            SqliteStorageAction::BackupDB(path) => {
                match self.db_backup(&path) {
                    Ok(_) => Ok(StorageFollowUp::CompressBackup(path)),
                    Err(_) => Err(StorageError::Backup),
                }
            },
            SqliteStorageAction::InsertAttributes(_) => Ok(StorageFollowUp::Nothing),
            SqliteStorageAction::InsertTimeseries(_) => Ok(StorageFollowUp::Nothing),
            SqliteStorageAction::CloseDB => Ok(StorageFollowUp::Nothing),
            SqliteStorageAction::Timeout => Ok(StorageFollowUp::Nothing),
        }
    }

    /// Blocks for the next command and executes it at the current wall
    /// clock.  Failures are swallowed, as the worker never unwinds; a
    /// drained, sender-less queue asks for shutdown.  Whatever command
    /// arrived, the table either stands unchanged or has taken exactly one
    /// command's effect: the single-writer step at the worker itself.
    pub fn process(&mut self) -> (r: ProcessOutcome)
        ensures
            final(self).data_dir_view() == old(self).data_dir_view(),
            final(self).rows() == old(self).rows() || exists|a: SqliteStorageAction, t: int|
                final(self).rows() == storage_effect(old(self).rows(), a, t),
    {
        match channel_recv(&self.rx) {
            None => ProcessOutcome::Stopped,
            Some(action) => {
                let ghost received = action;
                let now_ms = crate::clock::now_millis();
                let outcome = match self.apply_action(action, now_ms) {
                    Ok(StorageFollowUp::CompressBackup(path)) => ProcessOutcome::CompressBackup(
                        path,
                    ),
                    Ok(StorageFollowUp::Nothing) => ProcessOutcome::Continue,
                    Err(_) => ProcessOutcome::Continue,
                };
                proof {
                    if self.rows() != old(self).rows() {
                        assert(self.rows() == storage_effect(
                            old(self).rows(),
                            received,
                            now_ms as int,
                        ));
                    }
                }
                outcome
            },
        }
    }
}

/// The bytes a finished backup file is compressed to.
pub uninterp spec fn zstd_level1_of(data: Seq<u8>) -> Seq<u8>;

/// Relies on zstd's bulk compression at level one: the output depends on
/// the input bytes alone.  Success is relied on too: the level is valid,
/// no dictionary is loaded, and the destination is sized by the
/// compressor's own worst-case bound, so no failure arm of the call is
/// reachable short of allocation failure, which the surrounding
/// allocations already turn into aborts.
#[verifier::external_body]
fn zstd_compress_level1(data: &Vec<u8>) -> (r: Option<Vec<u8>>)
    ensures
        r is Some,
        r matches Some(v) ==> v@ == zstd_level1_of(data@),
{
    zstd::bulk::compress(data.as_slice(), 1).ok()
}

/// The whole compression step after a backup: the compressed bytes and the
/// path they belong under, `backup/` inside the data directory with the
/// `.zst` suffix on the backup's name.
pub fn prepare_compressed_backup(data_dir: &String, backup_name: &String, bytes: &Vec<u8>) -> (r:
    Option<(String, Vec<u8>)>)
    ensures
        r is Some,
        r matches Some(p) ==> p.0@ == compressed_backup_path(data_dir@, backup_name@) && p.1@
            == zstd_level1_of(bytes@),
{
    match zstd_compress_level1(bytes) {
        Some(packed) => Some((compressed_path_for(data_dir, backup_name), packed)),
        None => None,
    }
}

/// The path a compressed backup is written to: a `backup` directory inside
/// the data directory, and the backup's own name with the `.zst` suffix.
pub open spec fn compressed_backup_path(data_dir: Seq<char>, backup_name: Seq<char>) -> Seq<char> {
    data_dir + seq!['/', 'b', 'a', 'c', 'k', 'u', 'p', '/'] + backup_name + seq!['.', 'z', 's', 't']
}

/// Builds the compressed file's path for a finished backup.
pub fn compressed_path_for(data_dir: &String, backup_name: &String) -> (r: String)
    ensures
        r@ == compressed_backup_path(data_dir@, backup_name@),
{
    proof {
        reveal_strlit("/backup/");
        reveal_strlit(".zst");
    }
    let mut out = data_dir.clone();
    out.append("/backup/");
    out.append(backup_name.as_str());
    out.append(".zst");
    proof {
        assert("/backup/"@ =~= seq!['/', 'b', 'a', 'c', 'k', 'u', 'p', '/']);
        assert(".zst"@ =~= seq!['.', 'z', 's', 't']);
    }
    out
}

} // verus!
