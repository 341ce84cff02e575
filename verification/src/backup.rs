//! Setting the encrypted database aside: the names under which the database
//! file and its two sidecar files are kept when the vault starts afresh.

use crate::hex::{digit_str, hex_digit};
use vstd::prelude::*;
use vstd::string::StringExecFns;

verus! {

/// The name of the encrypted database file.
pub const SECURE_DB_FILE_NAME: &'static str = "journai_secure.db";

/// Which of the database's files exist.
#[derive(Clone, Copy, Debug, PartialEq, Eq, Structural)]
pub struct DatabaseFiles {
    pub database: bool,
    pub write_ahead_log: bool,
    pub shared_memory: bool,
}

/// One file to rename.
#[derive(Debug)]
pub struct Rename {
    pub from: String,
    pub to: String,
}

/// What a reset does: the renames, in the order in which they are made, and
/// the name of the database's backup, if the database existed.
#[derive(Debug)]
pub struct BackupPlan {
    pub renames: Vec<Rename>,
    pub backup: Option<String>,
}

/// A number in decimal, without leading zeros.
pub open spec fn decimal_text(n: nat) -> Seq<char>
    decreases n,
{
    if n < 10 {
        seq![hex_digit(n as int)]
    } else {
        decimal_text(n / 10).push(hex_digit((n % 10) as int))
    }
}

/// The name of the backup of `name`.
pub open spec fn backup_name(name: Seq<char>, backup_suffix: Seq<char>) -> Seq<char> {
    name + ".backup-"@ + backup_suffix
}

/// The rename that sets `name` aside.
pub open spec fn rename_of(name: Seq<char>, backup_suffix: Seq<char>) -> (Seq<char>, Seq<char>) {
    (name, backup_name(name, backup_suffix))
}

/// The renames of a reset: the database, its write-ahead log and its shared
/// memory file, each only if it exists.
pub open spec fn planned_renames(name: Seq<char>, files: DatabaseFiles, backup_suffix: Seq<char>) -> Seq<
    (Seq<char>, Seq<char>),
> {
    (if files.database {
        seq![rename_of(name, backup_suffix)]
    } else {
        seq![]
    }) + (if files.write_ahead_log {
        seq![rename_of(name + "-wal"@, backup_suffix)]
    } else {
        seq![]
    }) + (if files.shared_memory {
        seq![rename_of(name + "-shm"@, backup_suffix)]
    } else {
        seq![]
    })
}

impl BackupPlan {
    /// The renames as pairs of names.
    pub open spec fn rename_pairs(&self) -> Seq<(Seq<char>, Seq<char>)> {
        Seq::new(self.renames@.len(), |i: int| (self.renames@[i].from@, self.renames@[i].to@))
    }
}

/// `path` with `suffix` behind it.
pub fn append_path_suffix(path: &str, suffix: &str) -> (output: String)
    ensures
        output@ == path@ + suffix@,
{
    String::from_str(path).concat(suffix)
}

/// The name under which a file is set aside, or `None` where the file does
/// not exist and nothing is to be done.
pub fn move_to_backup(name: &str, exists: bool, backup_suffix: &str) -> (backup: Option<String>)
    ensures
        match backup {
            Some(to) => exists && to@ == backup_name(name@, backup_suffix@),
            None => !exists,
        },
{
    if !exists {
        return None;
    }
    Some(String::from_str(name).concat(".backup-").concat(backup_suffix))
}

/// Plans a reset of the database `name`: every file of it that exists is
/// renamed to its backup name, which ends in `backup_suffix`, the time in
/// seconds. The plan names the database's backup, or none if there was no
/// database.
pub fn backup_and_reset_secure_database(name: &str, files: DatabaseFiles, backup_suffix: &str) -> (plan:
    BackupPlan)
    ensures
        plan.rename_pairs() == planned_renames(name@, files, backup_suffix@),
        match plan.backup {
            Some(to) => files.database && to@ == backup_name(name@, backup_suffix@),
            None => !files.database,
        },
{
    let mut renames: Vec<Rename> = Vec::new();
    let backup = move_to_backup(name, files.database, backup_suffix);
    if let Some(to) = &backup {
        renames.push(Rename { from: String::from_str(name), to: to.clone() });
    }
    let wal = append_path_suffix(name, "-wal");
    if let Some(to) = move_to_backup(wal.as_str(), files.write_ahead_log, backup_suffix) {
        renames.push(Rename { from: wal, to });
    }
    let shm = append_path_suffix(name, "-shm");
    if let Some(to) = move_to_backup(shm.as_str(), files.shared_memory, backup_suffix) {
        renames.push(Rename { from: shm, to });
    }
    let plan = BackupPlan { renames, backup };
    assert(plan.rename_pairs() =~= planned_renames(name@, files, backup_suffix@));
    plan
}

/// Writes `n` in decimal behind `output`.
fn append_decimal(output: &mut String, n: u64)
    ensures
        final(output)@ == old(output)@ + decimal_text(n as nat),
    decreases n,
{
    if n >= 10 {
        append_decimal(output, n / 10);
    }
    let ghost before = output@;
    output.append(digit_str((n % 10) as u8));
    proof {
        if n >= 10 {
            assert(output@ =~= old(output)@ + decimal_text((n / 10) as nat).push(
                hex_digit((n % 10) as int),
            ));
        } else {
            assert(output@ =~= old(output)@ + seq![hex_digit(n as int)]);
        }
    }
}

/// The suffix of a backup made at `unix_seconds`: the number in decimal.
pub fn backup_suffix(unix_seconds: u64) -> (suffix: String)
    ensures
        suffix@ == decimal_text(unix_seconds as nat),
{
    let mut suffix = String::new();
    append_decimal(&mut suffix, unix_seconds);
    assert(suffix@ =~= decimal_text(unix_seconds as nat));
    suffix
}

/// Sets the database `name` aside at the time `unix_seconds`: the plan of
/// the reset whose backup names end in that number.
pub fn app_lock_backup_and_reset_secure_db(name: &str, files: DatabaseFiles, unix_seconds: u64) -> (plan:
    BackupPlan)
    ensures
        plan.rename_pairs() == planned_renames(name@, files, decimal_text(unix_seconds as nat)),
        match plan.backup {
            Some(to) => files.database && to@ == backup_name(
                name@,
                decimal_text(unix_seconds as nat),
            ),
            None => !files.database,
        },
{
    let suffix = backup_suffix(unix_seconds);
    backup_and_reset_secure_database(name, files, suffix.as_str())
}

} // verus!
