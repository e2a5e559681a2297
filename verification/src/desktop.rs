//! File naming rules of the desktop store: one SQLite file per vault, a
//! settings file, sync envelopes and timestamped backups.
use vstd::prelude::*;
use vstd::string::StringExecFns;
use crate::text::{chars_of, decimal, decimal_string};
use crate::platform::PlatformError;
use crate::crypto::EncryptedBlob;
use crate::settings::{AppSettings, SyncEnvelope, is_initial_settings};

verus! {

broadcast use vstd::string::group_string_axioms;

/// The desktop platform: SQLite vault files and JSON settings in the
/// per-user application directories.
pub struct DesktopStore;

/// The desktop platform services.
pub fn desktop_store() -> (s: DesktopStore) {
    DesktopStore
}

/// A character allowed in a file-name fragment: ASCII letters and digits,
/// `-` and `_`.
pub open spec fn is_name_char(c: char) -> bool {
    ||| ('a' <= c && c <= 'z')
    ||| ('A' <= c && c <= 'Z')
    ||| ('0' <= c && c <= '9')
    ||| c == '-'
    ||| c == '_'
}

/// The characters of `s` that may appear in a file name, in order.
pub open spec fn name_chars(s: Seq<char>) -> Seq<char> {
    s.filter(|c: char| is_name_char(c))
}

fn name_char(c: char) -> (r: bool)
    ensures
        r == is_name_char(c),
{
    ('a' <= c && c <= 'z') || ('A' <= c && c <= 'Z') || ('0' <= c && c <= '9') || c == '-' || c
        == '_'
}

/// Keeps the file-name characters of a backup name and drops the rest.
pub fn sanitize_backup_name(name: &str) -> (r: String)
    ensures
        r@ == name_chars(name@),
{
    let v = chars_of(name);
    let mut r = String::new();
    let mut i: usize = 0;
    while i < v.len()
        invariant
            i <= v@.len(),
            v@ == name@,
            r@ == name_chars(v@.take(i as int)),
        decreases v@.len() - i,
    {
        reveal_with_fuel(Seq::<_>::filter, 1);
        assert(v@.take(i + 1).drop_last() =~= v@.take(i as int));
        if name_char(v[i]) {
            r.push(v[i]);
        }
        i += 1;
    }
    assert(v@.take(v@.len() as int) =~= v@);
    r
}

/// The SQLite file of a vault: `vault-<id>.sqlite3` with the id reduced to
/// file-name characters, or `vault.sqlite3` when there is no id or nothing is
/// left of it.
pub open spec fn vault_file_text(vault_id: Option<Seq<char>>) -> Seq<char> {
    match vault_id {
        Some(id) if name_chars(id).len() > 0 => "vault-"@ + name_chars(id) + ".sqlite3"@,
        _ => "vault.sqlite3"@,
    }
}

/// The SQLite file name of a vault.
pub fn vault_file_name(vault_id: Option<&str>) -> (r: String)
    ensures
        r@ == vault_file_text(
            match vault_id {
                Some(id) => Some(id@),
                None => None,
            },
        ),
{
    match vault_id {
        Some(id) => {
            let sanitized = sanitize_backup_name(id);
            if sanitized.as_str().is_empty() {
                "vault.sqlite3".to_string()
            } else {
                let mut r = "vault-".to_string();
                r.append(sanitized.as_str());
                r.append(".sqlite3");
                r
            }
        },
        None => "vault.sqlite3".to_string(),
    }
}

/// The name a backup is filed under: the vault name reduced to file-name
/// characters, or `vault` when there is none or nothing is left of it.
pub open spec fn backup_label(vault_name: Option<Seq<char>>) -> Seq<char> {
    match vault_name {
        Some(n) if name_chars(n).len() > 0 => name_chars(n),
        _ => "vault"@,
    }
}

/// `jpass-backup-<label>-<millis>.json`.
pub open spec fn backup_file_text(vault_name: Option<Seq<char>>, millis: u128) -> Seq<char> {
    "jpass-backup-"@ + backup_label(vault_name) + "-"@ + decimal(millis as nat) + ".json"@
}

/// The file name of a backup taken `millis` milliseconds after the Unix epoch.
pub fn backup_file_name(vault_name: Option<&str>, millis: u128) -> (r: String)
    ensures
        r@ == backup_file_text(
            match vault_name {
                Some(n) => Some(n@),
                None => None,
            },
            millis,
        ),
{
    let label = match vault_name {
        Some(n) => {
            let s = sanitize_backup_name(n);
            if s.as_str().is_empty() {
                "vault".to_string()
            } else {
                s
            }
        },
        None => "vault".to_string(),
    };
    let mut r = "jpass-backup-".to_string();
    r.append(label.as_str());
    r.append("-");
    r.append(decimal_string(millis).as_str());
    r.append(".json");
    r
}

/// The settings file in the configuration directory.
pub fn settings_file_name() -> (r: String)
    ensures
        r@ == "settings.json"@,
{
    "settings.json".to_string()
}

/// The envelope file in a sync folder.
pub fn sync_file_name() -> (r: String)
    ensures
        r@ == "jpass-sync.json"@,
{
    "jpass-sync.json".to_string()
}

/// What reading a file and parsing its contents gave.
pub enum FileRead<T> {
    Parsed(T),
    Unparsable(String),
    Missing,
    Failed(String),
}

/// What serializing a value and writing it to a file gave.
pub enum FileWrite {
    Written,
    Unserializable(String),
    Failed(String),
}

/// What removing a file gave.
pub enum FileRemoval {
    Removed,
    Missing,
    Failed(String),
}

/// What looking up (and creating) a per-user directory gave.
pub enum DirLookup {
    Ready(String),
    Unresolved,
    CreateFailed(String),
}

/// A storage error whose text is `prefix` followed by `detail`.
pub open spec fn storage_text(e: PlatformError, prefix: Seq<char>, detail: Seq<char>) -> bool {
    e matches PlatformError::Storage(m) && m@ == prefix + detail
}

/// A path error whose text is `prefix` followed by `detail`.
pub open spec fn path_text(e: PlatformError, prefix: Seq<char>, detail: Seq<char>) -> bool {
    e matches PlatformError::Path(m) && m@ == prefix + detail
}

fn storage_error(prefix: &str, detail: &str) -> (e: PlatformError)
    ensures
        storage_text(e, prefix@, detail@),
{
    let mut m = prefix.to_string();
    m.append(detail);
    PlatformError::Storage(m)
}

fn path_error(prefix: &str, detail: &str) -> (e: PlatformError)
    ensures
        path_text(e, prefix@, detail@),
{
    let mut m = prefix.to_string();
    m.append(detail);
    PlatformError::Path(m)
}

/// The outcome of writing a file, with the step that failed named in the error.
pub open spec fn write_reply(
    attempt: FileWrite,
    r: Result<(), PlatformError>,
    serialize_prefix: Seq<char>,
    write_prefix: Seq<char>,
) -> bool {
    match attempt {
        FileWrite::Written => r is Ok,
        FileWrite::Unserializable(e) => r matches Err(x) && storage_text(x, serialize_prefix, e@),
        FileWrite::Failed(e) => r matches Err(x) && storage_text(x, write_prefix, e@),
    }
}

fn write_result(attempt: FileWrite, serialize_prefix: &str, write_prefix: &str) -> (r: Result<
    (),
    PlatformError,
>)
    ensures
        write_reply(attempt, r, serialize_prefix@, write_prefix@),
{
    match attempt {
        FileWrite::Written => Ok(()),
        FileWrite::Unserializable(e) => Err(storage_error(serialize_prefix, e.as_str())),
        FileWrite::Failed(e) => Err(storage_error(write_prefix, e.as_str())),
    }
}

/// The outcome of a directory lookup, with the failing step named in the error.
pub open spec fn dir_reply(
    lookup: DirLookup,
    r: Result<String, PlatformError>,
    unresolved: Seq<char>,
    create_prefix: Seq<char>,
) -> bool {
    match lookup {
        DirLookup::Ready(d) => r matches Ok(p) && p@ == d@,
        DirLookup::Unresolved => r matches Err(PlatformError::Path(m)) && m@ == unresolved,
        DirLookup::CreateFailed(e) => r matches Err(x) && path_text(x, create_prefix, e@),
    }
}

fn dir_result(lookup: DirLookup, unresolved: &str, create_prefix: &str) -> (r: Result<
    String,
    PlatformError,
>)
    ensures
        dir_reply(lookup, r, unresolved@, create_prefix@),
{
    match lookup {
        DirLookup::Ready(d) => Ok(d),
        DirLookup::Unresolved => Err(PlatformError::Path(unresolved.to_string())),
        DirLookup::CreateFailed(e) => Err(path_error(create_prefix, e.as_str())),
    }
}

impl DesktopStore {
    /// The settings from a read of the settings file: a missing file gives
    /// the initial settings.
    pub fn settings_from(&self, read: FileRead<AppSettings>) -> (r: Result<AppSettings, PlatformError>)
        ensures
            match read {
                FileRead::Parsed(s) => r matches Ok(t) && t == s,
                FileRead::Unparsable(e) => r matches Err(x) && storage_text(
                    x,
                    "failed to parse settings: "@,
                    e@,
                ),
                FileRead::Missing => r matches Ok(t) && is_initial_settings(t),
                FileRead::Failed(e) => r matches Err(x) && storage_text(
                    x,
                    "failed to read settings: "@,
                    e@,
                ),
            },
    {
        match read {
            FileRead::Parsed(s) => Ok(s),
            FileRead::Unparsable(e) => Err(storage_error("failed to parse settings: ", e.as_str())),
            FileRead::Missing => Ok(AppSettings::default()),
            FileRead::Failed(e) => Err(storage_error("failed to read settings: ", e.as_str())),
        }
    }

    /// The outcome of saving the settings file.
    pub fn settings_saved(&self, attempt: FileWrite) -> (r: Result<(), PlatformError>)
        ensures
            write_reply(attempt, r, "failed to serialize settings: "@, "failed to write settings: "@),
    {
        write_result(attempt, "failed to serialize settings: ", "failed to write settings: ")
    }

    /// The outcome of deleting a vault file: one that is already gone counts
    /// as deleted.
    pub fn vault_deleted(&self, removal: FileRemoval) -> (r: Result<(), PlatformError>)
        ensures
            match removal {
                FileRemoval::Removed | FileRemoval::Missing => r is Ok,
                FileRemoval::Failed(e) => r matches Err(x) && storage_text(
                    x,
                    "failed to delete vault: "@,
                    e@,
                ),
            },
    {
        match removal {
            FileRemoval::Removed => Ok(()),
            FileRemoval::Missing => Ok(()),
            FileRemoval::Failed(e) => Err(storage_error("failed to delete vault: ", e.as_str())),
        }
    }

    /// The data directory, or why it is not available.
    pub fn data_dir_from(&self, lookup: DirLookup) -> (r: Result<String, PlatformError>)
        ensures
            dir_reply(
                lookup,
                r,
                "could not resolve app data directory"@,
                "failed to create data dir: "@,
            ),
    {
        dir_result(lookup, "could not resolve app data directory", "failed to create data dir: ")
    }

    /// The configuration directory, or why it is not available.
    pub fn config_dir_from(&self, lookup: DirLookup) -> (r: Result<String, PlatformError>)
        ensures
            dir_reply(
                lookup,
                r,
                "could not resolve config directory"@,
                "failed to create config dir: "@,
            ),
    {
        dir_result(lookup, "could not resolve config directory", "failed to create config dir: ")
    }
}

/// The step at which writing a backup failed, with the reason.
pub enum BackupFailure {
    CreateDir(String),
    Clock(String),
    Serialize(String),
    Write(String),
}

/// The text of a failed backup step.
pub open spec fn backup_failure_text(f: BackupFailure) -> Seq<char> {
    match f {
        BackupFailure::CreateDir(e) => "failed to create backup directory: "@ + e@,
        BackupFailure::Clock(e) => "failed to determine backup timestamp: "@ + e@,
        BackupFailure::Serialize(e) => "failed to serialize backup: "@ + e@,
        BackupFailure::Write(e) => "failed to write backup: "@ + e@,
    }
}

impl DesktopStore {
    /// The storage error for a failed backup step.
    pub fn backup_error(&self, failure: BackupFailure) -> (e: PlatformError)
        ensures
            e matches PlatformError::Storage(m) && m@ == backup_failure_text(failure),
    {
        match failure {
            BackupFailure::CreateDir(d) => storage_error("failed to create backup directory: ", d.as_str()),
            BackupFailure::Clock(d) => storage_error("failed to determine backup timestamp: ", d.as_str()),
            BackupFailure::Serialize(d) => storage_error("failed to serialize backup: ", d.as_str()),
            BackupFailure::Write(d) => storage_error("failed to write backup: ", d.as_str()),
        }
    }

    /// The blob from reading a backup file (`read`) and parsing it (inner).
    pub fn backup_from(&self, read: Result<Result<EncryptedBlob, String>, String>) -> (r: Result<
        EncryptedBlob,
        PlatformError,
    >)
        ensures
            match read {
                Ok(Ok(b)) => r matches Ok(c) && c == b,
                Ok(Err(e)) => r matches Err(x) && storage_text(x, "failed to parse backup file: "@, e@),
                Err(e) => r matches Err(x) && storage_text(x, "failed to read backup file: "@, e@),
            },
    {
        match read {
            Ok(Ok(b)) => Ok(b),
            Ok(Err(e)) => Err(storage_error("failed to parse backup file: ", e.as_str())),
            Err(e) => Err(storage_error("failed to read backup file: ", e.as_str())),
        }
    }
}

/// Sync through a folder (such as one kept in step by a file-sync service):
/// the envelope is a single JSON file in it.
pub struct LocalFolderSync {
    folder: String,
}

impl LocalFolderSync {
    /// The sync folder.
    pub closed spec fn folder_view(&self) -> Seq<char> {
        self.folder@
    }

    /// A sync through `folder`, once creating the folder gave `created`.
    pub fn new(folder: String, created: Result<(), String>) -> (r: Result<Self, PlatformError>)
        ensures
            match created {
                Ok(()) => r matches Ok(s) && s.folder_view() == folder@,
                Err(e) => r matches Err(x) && storage_text(
                    x,
                    "failed to create sync folder: "@,
                    e@,
                ),
            },
    {
        match created {
            Ok(()) => Ok(Self { folder }),
            Err(e) => Err(storage_error("failed to create sync folder: ", e.as_str())),
        }
    }

    /// The sync folder.
    pub fn folder(&self) -> (r: &str)
        ensures
            r@ == self.folder_view(),
    {
        self.folder.as_str()
    }

    /// The outcome of uploading an envelope.
    pub fn uploaded(&self, attempt: FileWrite) -> (r: Result<(), PlatformError>)
        ensures
            write_reply(
                attempt,
                r,
                "failed to serialize sync envelope: "@,
                "failed to write sync envelope: "@,
            ),
    {
        write_result(attempt, "failed to serialize sync envelope: ", "failed to write sync envelope: ")
    }

    /// The envelope from a read of the sync file: none when there is no file.
    pub fn downloaded(&self, read: FileRead<SyncEnvelope>) -> (r: Result<
        Option<SyncEnvelope>,
        PlatformError,
    >)
        ensures
            match read {
                FileRead::Parsed(env) => r matches Ok(Some(e)) && e == env,
                FileRead::Unparsable(e) => r matches Err(x) && storage_text(
                    x,
                    "failed to parse sync envelope: "@,
                    e@,
                ),
                FileRead::Missing => r matches Ok(None),
                FileRead::Failed(e) => r matches Err(x) && storage_text(
                    x,
                    "failed to read sync envelope: "@,
                    e@,
                ),
            },
    {
        match read {
            FileRead::Parsed(env) => Ok(Some(env)),
            FileRead::Unparsable(e) => Err(storage_error("failed to parse sync envelope: ", e.as_str())),
            FileRead::Missing => Ok(None),
            FileRead::Failed(e) => Err(storage_error("failed to read sync envelope: ", e.as_str())),
        }
    }
}

/// A sync through `folder`, once creating the folder gave `created`.
pub fn local_folder_sync(folder: String, created: Result<(), String>) -> (r: Result<
    LocalFolderSync,
    PlatformError,
>)
    ensures
        match created {
            Ok(()) => r matches Ok(s) && s.folder_view() == folder@,
            Err(e) => r matches Err(x) && storage_text(x, "failed to create sync folder: "@, e@),
        },
{
    LocalFolderSync::new(folder, created)
}

} // verus!
