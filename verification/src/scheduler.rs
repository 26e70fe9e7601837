//! The scheduler's decisions: the backup file name rule, the commands the
//! two periodic jobs enqueue against the storage worker, and the age rule
//! for sweeping old backups.  The cron evaluation and the sleep loop run at
//! the edge and only enqueue what is built here.

use vstd::prelude::*;
use vstd::string::StringExecFns;

use crate::clock::bratislava_iso_of;
use crate::clock::iso_bratislava;
use crate::storage::SqliteStorageAction;
use crate::storage::SqliteStorageTruncate;
use crate::text::replace_spaces;
use crate::text::spaces_to_underscores;

verus! {

/// The lowercased text of a string, as std's case folding renders it.
pub uninterp spec fn lower_of(s: Seq<char>) -> Seq<char>;

/// Relies on str::to_lowercase: the result depends on the characters alone.
#[verifier::external_body]
fn lowercase(s: &String) -> (r: String)
    ensures
        r@ == lower_of(s@),
{
    s.as_str().to_lowercase()
}

/// A backup's file name: the gateway name with spaces underscored and
/// lowercased, a colon, the ISO-8601 local timestamp, and the `.db` suffix.
pub open spec fn backup_file_name_of(gateway: Seq<char>, ms: int) -> Seq<char> {
    lower_of(replace_spaces(gateway)) + seq![':'] + bratislava_iso_of(ms) + seq!['.', 'd', 'b']
}

/// Builds the filesystem-safe name of a backup taken now.
pub fn backup_file_name(gateway_name: &String, now_ms: i64) -> (r: String)
    ensures
        r@ == backup_file_name_of(gateway_name@, now_ms as int),
{
    let underscored = spaces_to_underscores(gateway_name);
    let mut name = lowercase(&underscored);
    name.push(':');
    let iso = iso_bratislava(now_ms);
    name.append(iso.as_str());
    proof {
        reveal_strlit(".db");
        assert(".db"@ =~= seq!['.', 'd', 'b']);
    }
    name.append(".db");
    name
}

/// Joins the backup folder and a file name with a path separator.
pub fn backup_full_path(backup_folder: &String, file_name: &String) -> (r: String)
    ensures
        r@ == backup_folder@ + seq!['/'] + file_name@,
{
    let mut out = backup_folder.clone();
    out.push('/');
    out.append(file_name.as_str());
    out
}

/// The retention window in milliseconds for a time-to-live in hours.
pub open spec fn ttl_millis(hours: int) -> int {
    hours * 3600000
}

/// The command the truncate job enqueues: a fixed-window truncation over
/// the configured number of hours.
pub fn truncate_job_command(messages_ttl_hours: i32) -> (r: SqliteStorageAction)
    ensures
        r == SqliteStorageAction::Truncate(
            SqliteStorageTruncate::FixedWindow(ttl_millis(messages_ttl_hours as int) as i64),
        ),
{
    SqliteStorageAction::Truncate(
        SqliteStorageTruncate::FixedWindow((messages_ttl_hours as i64) * 3600000),
    )
}

/// The commands the backup job enqueues, in order: first the retention
/// truncation over the message window, then the backup into the folder,
/// named after the gateway and the instant.
pub fn backup_job_commands(
    gateway_name: &String,
    backup_folder: &String,
    now_ms: i64,
    messages_ttl_hours: i32,
) -> (r: Vec<SqliteStorageAction>)
    ensures
        r@.len() == 2,
        r@[0] == SqliteStorageAction::Truncate(
            SqliteStorageTruncate::FixedWindow(ttl_millis(messages_ttl_hours as int) as i64),
        ),
        r@[1] matches SqliteStorageAction::BackupDB(p) && p@ == backup_folder@ + seq!['/']
            + backup_file_name_of(gateway_name@, now_ms as int),
{
    let name = backup_file_name(gateway_name, now_ms);
    let path = backup_full_path(backup_folder, &name);
    let mut commands: Vec<SqliteStorageAction> = Vec::new();
    commands.push(truncate_job_command(messages_ttl_hours));
    commands.push(SqliteStorageAction::BackupDB(path));
    commands
}

/// Whether a backup file has outlived the keep window: it was created more
/// than the time-to-live, in hours, before now.  Both instants are seconds
/// since the Unix epoch.
pub fn backup_expired(created_secs: i64, now_secs: i64, backup_ttl_hours: i32) -> (r: bool)
    ensures
        r == (created_secs as int + 3600 * (backup_ttl_hours as int) < now_secs as int),
{
    let delta: i64 = (backup_ttl_hours as i64) * 3600;
    match created_secs.checked_add(delta) {
        Some(threshold) => threshold < now_secs,
        None => delta < 0,
    }
}

} // verus!
