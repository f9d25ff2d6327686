//! Where the database lies and where its backups go.

use crate::calendar::{lemma_stamp_injective, CalendarDate, DateView};
use vstd::prelude::*;
use vstd::string::StringExecFns;

verus! {

/// Name of the database file inside the configuration directory.
pub const SOURCE_FILE_NAME: &'static str = "aerowis.db";

/// Name of the directory, inside the data directory, that holds the backups.
pub const BACKUP_DIR_NAME: &'static str = "backupDB";

/// The path that `std::path::Path::join` gives for `child` adjoined to
/// `base`, on the platform the crate is built for.
pub uninterp spec fn joined_path(base: Seq<char>, child: Seq<char>) -> Seq<char>;

/// Adjoins `child` to `base` with `std::path::Path::join`.  The separator and
/// the treatment of an absolute `child` are the platform's, so the result is
/// only named here, not spelled out.
#[verifier::external_body]
fn join_path(base: &str, child: &str) -> (joined: String)
    ensures
        joined@ == joined_path(base@, child@),
{
    std::path::Path::new(base).join(child).to_string_lossy().into_owned()
}

/// Path of the database file for a configuration directory.
pub open spec fn source_path_of(config_dir: Seq<char>) -> Seq<char> {
    joined_path(config_dir, SOURCE_FILE_NAME@)
}

/// Path of the backup directory for a data directory.
pub open spec fn backup_dir_of(data_dir: Seq<char>) -> Seq<char> {
    joined_path(data_dir, BACKUP_DIR_NAME@)
}

/// File name of the backup taken on `date`: `BackUp_(DD-MM-YYYY).db`.
pub open spec fn backup_file_name_of(date: DateView) -> Seq<char> {
    "BackUp_("@ + date.stamp() + ").db"@
}

/// Path, inside `backup_dir`, of the backup taken on `date`.
pub open spec fn backup_path_of(backup_dir: Seq<char>, date: DateView) -> Seq<char> {
    joined_path(backup_dir, backup_file_name_of(date))
}

/// Path of the database file for a configuration directory.
pub fn source_path(config_dir: &str) -> (path: String)
    ensures
        path@ == source_path_of(config_dir@),
{
    join_path(config_dir, SOURCE_FILE_NAME)
}

/// Path of the backup directory for a data directory.
pub fn backup_dir(data_dir: &str) -> (path: String)
    ensures
        path@ == backup_dir_of(data_dir@),
{
    join_path(data_dir, BACKUP_DIR_NAME)
}

/// File name of the backup taken on `date`.
pub fn backup_file_name(date: &CalendarDate) -> (name: String)
    ensures
        name@ == backup_file_name_of(date@),
{
    let mut name = String::from_str("BackUp_(");
    let stamp = date.stamp();
    name.append(stamp.as_str());
    name.append(").db");
    name
}

/// Path, inside `backup_dir`, of the backup taken on `date`.
pub fn backup_path(backup_dir: &str, date: &CalendarDate) -> (path: String)
    ensures
        path@ == backup_path_of(backup_dir@, date@),
{
    let name = backup_file_name(date);
    join_path(backup_dir, name.as_str())
}

/// Backups taken on different days have different file names.
pub proof fn lemma_backup_file_name_injective(a: DateView, b: DateView)
    requires
        a.valid(),
        b.valid(),
        backup_file_name_of(a) == backup_file_name_of(b),
    ensures
        a == b,
{
    let (head, tail) = ("BackUp_("@, ").db"@);
    let (name_a, name_b) = (backup_file_name_of(a), backup_file_name_of(b));
    assert(name_a.len() == head.len() + a.stamp().len() + tail.len());
    assert(name_b.len() == head.len() + b.stamp().len() + tail.len());
    let start = head.len() as int;
    assert(a.stamp() == name_a.subrange(start, start + a.stamp().len()));
    assert(b.stamp() == name_b.subrange(start, start + b.stamp().len()));
    lemma_stamp_injective(a, b);
}

} // verus!
