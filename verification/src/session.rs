//! The decisions of the vault screens: checking a new master password,
//! opening the stored vault, and preparing a sync upload or a restore from
//! the sync folder. Reading and writing files, and turning vault bytes into a
//! vault, are the caller's; each function here takes what they gave.
use vstd::prelude::*;
use vstd::string::StringExecFns;
use crate::crypto::{
    EncryptedBlob, GCM_MAX_PLAINTEXT, base64_len, blob_decrypts_to, decrypt, encrypt, password_bytes,
    seals,
};
use crate::settings::{AppSettings, SyncEnvelope, CURRENT_SCHEMA_VERSION, conflict_text, next_sync_revision};
use crate::storage::{StorageError, storage_error_text};
use crate::text::{decimal, decimal_string, trim, trimmed};

verus! {

broadcast use vstd::string::group_string_axioms;

/// Master passwords are at least this many bytes long.
pub const MIN_MASTER_PASSWORD_LEN: usize = 8;

/// Whether a new vault may be created with this password, confirmation and
/// name: the trimmed name, or the first rule that is broken.
pub open spec fn new_vault_check(password: &str, confirm: &str, name: Seq<char>) -> Result<
    Seq<char>,
    Seq<char>,
> {
    if password_bytes(password).len() < MIN_MASTER_PASSWORD_LEN {
        Err("Master password must be at least 8 characters."@)
    } else if password@ != confirm@ {
        Err("Passwords do not match."@)
    } else if trimmed(name).len() == 0 {
        Err("Vault name cannot be empty."@)
    } else {
        Ok(trimmed(name))
    }
}

/// Checks the fields of the new-vault form; returns the vault name to use.
pub fn check_new_vault(password: &str, confirm: &str, vault_name: &str) -> (r: Result<
    String,
    String,
>)
    ensures
        match new_vault_check(password, confirm, vault_name@) {
            Ok(n) => r matches Ok(s) && s@ == n,
            Err(m) => r matches Err(s) && s@ == m,
        },
        r is Ok ==> confirm@ == password@ && password_bytes(password).len() >= 8,
        password_bytes(password).len() >= 8 && confirm@ != password@ ==> (r matches Err(m) && m@
            == "Passwords do not match."@),
{
    if password.as_bytes().len() < MIN_MASTER_PASSWORD_LEN {
        return Err("Master password must be at least 8 characters.".to_string());
    }
    let a = password.to_owned();
    let b = confirm.to_owned();
    if !a.eq(&b) {
        return Err("Passwords do not match.".to_string());
    }
    let name = trim(vault_name);
    if name.as_str().is_empty() {
        return Err("Vault name cannot be empty.".to_string());
    }
    Ok(name)
}

/// What unlocking gives for the stored vault and a password: its plaintext,
/// or the message shown.
pub open spec fn unlock_outcome(
    loaded: Result<Option<EncryptedBlob>, StorageError>,
    password: &str,
) -> Result<Seq<u8>, Seq<char>> {
    match loaded {
        Err(e) => Err("Storage error: "@ + storage_error_text(e)),
        Ok(None) => Err("No vault found."@),
        Ok(Some(b)) => match blob_decrypts_to(b, password_bytes(password)) {
            Ok(p) => Ok(p),
            Err(_) => Err("Incorrect master password."@),
        },
    }
}

/// Decrypts the stored vault (as loaded) with the master password.
pub fn open_vault_blob(loaded: Result<Option<EncryptedBlob>, StorageError>, password: &str) -> (r:
    Result<Vec<u8>, String>)
    ensures
        match unlock_outcome(loaded, password) {
            Ok(p) => r matches Ok(v) && v@ == p,
            Err(m) => r matches Err(s) && s@ == m,
        },
{
    let blob = match loaded {
        Err(e) => {
            let mut m = "Storage error: ".to_string();
            m.append(e.message().as_str());
            return Err(m);
        },
        Ok(None) => return Err("No vault found.".to_string()),
        Ok(Some(b)) => b,
    };
    match decrypt(&blob, password) {
        Ok(p) => Ok(p),
        Err(_) => Err("Incorrect master password.".to_string()),
    }
}

/// The envelope to upload for the encrypted vault `blob`, given the revision
/// found in the sync folder: one past the local revision, from this device;
/// refused when the remote copy is newer.
pub fn sync_envelope(settings: &AppSettings, blob: EncryptedBlob, remote_revision: Option<u64>) -> (r:
    Result<SyncEnvelope, String>)
    requires
        settings.sync_revision < u64::MAX,
    ensures
        match remote_revision {
            Some(remote) if remote > settings.sync_revision => r matches Err(e) && e@
                == conflict_text(remote, settings.sync_revision),
            _ => r matches Ok(env) && {
                &&& env.revision == settings.sync_revision + 1
                &&& env.device_id@ == settings.sync_device_id@
                &&& env.vault == blob
                &&& env.schema_version == CURRENT_SCHEMA_VERSION
            },
        },
{
    let revision = match next_sync_revision(settings.sync_revision, remote_revision) {
        Ok(r) => r,
        Err(e) => return Err(e),
    };
    Ok(SyncEnvelope::new(settings.sync_device_id.clone(), revision, blob))
}

/// The notice after a successful sync.
pub fn synced_text(revision: u64) -> (s: String)
    ensures
        s@ == "Vault synced at revision "@ + decimal(revision as nat),
{
    let mut s = "Vault synced at revision ".to_string();
    s.append(decimal_string(revision as u128).as_str());
    s
}

/// What restoring from the sync folder gives for the envelope found there and
/// the master password: the vault plaintext, or the message shown.
pub open spec fn remote_outcome(remote: Option<SyncEnvelope>, password: &str) -> Result<
    Seq<u8>,
    Seq<char>,
> {
    match remote {
        None => Err("No remote vault was found in the sync folder."@),
        Some(env) => match blob_decrypts_to(env.vault, password_bytes(password)) {
            Ok(p) => Ok(p),
            Err(_) => Err("Restore failed: remote vault could not be decrypted."@),
        },
    }
}

/// Decrypts the envelope found in the sync folder; returns it with the vault
/// plaintext.
pub fn open_remote(remote: Option<SyncEnvelope>, password: &str) -> (r: Result<
    (SyncEnvelope, Vec<u8>),
    String,
>)
    ensures
        match remote_outcome(remote, password) {
            Ok(p) => r matches Ok((env, v)) && Some(env) == remote && v@ == p,
            Err(m) => r matches Err(s) && s@ == m,
        },
{
    let env = match remote {
        None => return Err("No remote vault was found in the sync folder.".to_string()),
        Some(env) => env,
    };
    match decrypt(&env.vault, password) {
        Ok(p) => Ok((env, p)),
        Err(_) => Err("Restore failed: remote vault could not be decrypted.".to_string()),
    }
}

/// The notice after restoring a remote revision, naming the safety backup.
pub fn restored_text(revision: u64, backup_path: &str) -> (s: String)
    ensures
        s@ == "Restored remote revision "@ + decimal(revision as nat) + "; local backup: "@
            + backup_path@,
{
    let mut s = "Restored remote revision ".to_string();
    s.append(decimal_string(revision as u128).as_str());
    s.append("; local backup: ");
    s.append(backup_path);
    s
}

/// What re-reading decrypted vault bytes gave: the vault serialized again,
/// bytes that are no vault, or a vault that could not be serialized (with the
/// reason).
pub enum Reread {
    Reserialized(Vec<u8>),
    Unparsable,
    Unserializable(String),
}

/// Why a backup is validated: one the user asked for, or the safety backup of
/// the current vault taken before a restore. Each words its failures its own
/// way.
#[derive(Clone, Copy)]
pub enum BackupPurpose {
    Requested,
    BeforeRestore,
}

/// The message when the decrypted bytes are no vault.
pub open spec fn unparsable_text(p: BackupPurpose) -> Seq<char> {
    match p {
        BackupPurpose::Requested => "backup validation failed: vault data could not be parsed"@,
        BackupPurpose::BeforeRestore => "Restore failed: safety backup vault data could not be parsed."@,
    }
}

/// The message when the vault read back differs from the one backed up.
pub open spec fn mismatch_text(p: BackupPurpose) -> Seq<char> {
    match p {
        BackupPurpose::Requested => "backup validation failed: restored data does not match the vault"@,
        BackupPurpose::BeforeRestore => "Restore failed: safety backup validation did not match the vault."@,
    }
}

/// The outcome for a backup `blob` of `json` whose decrypted bytes re-read as
/// `x`: the blob when they serialize back to exactly `json`, else the failure.
pub open spec fn backup_reply(
    purpose: BackupPurpose,
    json: Seq<u8>,
    x: Reread,
    blob: EncryptedBlob,
    r: Result<EncryptedBlob, String>,
) -> bool {
    match x {
        Reread::Reserialized(out) => if out@ == json {
            r == Ok::<EncryptedBlob, String>(blob)
        } else {
            r matches Err(m) && m@ == mismatch_text(purpose)
        },
        Reread::Unparsable => r matches Err(m) && m@ == unparsable_text(purpose),
        Reread::Unserializable(e) => r matches Err(m) && m@ == e@,
    }
}

/// A fresh encryption of `json` under `password` that decrypts back to it.
pub open spec fn backup_of(blob: EncryptedBlob, json: Seq<u8>, password: &str) -> bool {
    &&& blob_decrypts_to(blob, password_bytes(password)) == Ok::<Seq<u8>, crate::crypto::CryptoError>(json)
    &&& exists|salt: Seq<u8>, nonce: Seq<u8>| seals(blob, json, password_bytes(password), salt, nonce)
}

/// Some encryption of `json` was made, its decryption (equal to `json`) was
/// re-read by `reread`, and `r` is the outcome for what that gave.
pub open spec fn validated_reply<F: FnOnce(Vec<u8>) -> Reread>(
    reread: F,
    json: Seq<u8>,
    password: &str,
    purpose: BackupPurpose,
    r: Result<EncryptedBlob, String>,
) -> bool {
    exists|v: Vec<u8>, x: Reread, blob: EncryptedBlob|
        #[trigger] call_ensures(reread, (v,), x) && v@ == json && #[trigger] backup_of(blob, json, password)
            && backup_reply(purpose, json, x, blob, r)
}

fn same_bytes(a: &[u8], b: &[u8]) -> (r: bool)
    ensures
        r == (a@ == b@),
{
    if a.len() != b.len() {
        return false;
    }
    let mut i: usize = 0;
    while i < a.len()
        invariant
            i <= a@.len() == b@.len(),
            forall|k: int| 0 <= k < i ==> a@[k] == b@[k],
        decreases a@.len() - i,
    {
        if a[i] != b[i] {
            return false;
        }
        i += 1;
    }
    assert(a@ =~= b@);
    true
}

/// Encrypts the vault JSON for a backup and validates it before it is
/// written: the backup must decrypt, and the vault read back from it
/// (`reread` parses and serializes it again) must give exactly `json`.
pub fn validated_backup(
    json: &[u8],
    password: &str,
    purpose: BackupPurpose,
    reread: impl FnOnce(Vec<u8>) -> Reread,
) -> (r: Result<EncryptedBlob, String>)
    requires
        base64_len(json@.len() + 16int) <= usize::MAX,
        forall|v: Vec<u8>| call_requires(reread, (v,)),
    ensures
        !(password_bytes(password).len() <= 0xFFFF_FFFF && json@.len() <= GCM_MAX_PLAINTEXT) ==> (r matches Err(
            m,
        ) && m@ == "encryption failed"@),
        password_bytes(password).len() <= 0xFFFF_FFFF && json@.len() <= GCM_MAX_PLAINTEXT
            ==> validated_reply(reread, json@, password, purpose, r),
{
    let blob = match encrypt(json, password) {
        Ok(b) => b,
        Err(_) => return Err("encryption failed".to_string()),
    };
    let restored = match decrypt(&blob, password) {
        Ok(p) => p,
        Err(_) => {
            let m = match purpose {
                BackupPurpose::Requested => "backup validation failed: encrypted data could not be decrypted".to_string(),
                BackupPurpose::BeforeRestore => "Restore failed: safety backup could not be validated.".to_string(),
            };
            return Err(m);
        },
    };
    let ghost v = restored;
    let x = reread(restored);
    let ghost xg = x;
    let r = match x {
        Reread::Reserialized(out) => {
            if same_bytes(out.as_slice(), json) {
                Ok(blob)
            } else {
                match purpose {
                    BackupPurpose::Requested => Err("backup validation failed: restored data does not match the vault".to_string()),
                    BackupPurpose::BeforeRestore => Err("Restore failed: safety backup validation did not match the vault.".to_string()),
                }
            }
        },
        Reread::Unparsable => match purpose {
            BackupPurpose::Requested => Err("backup validation failed: vault data could not be parsed".to_string()),
            BackupPurpose::BeforeRestore => Err("Restore failed: safety backup vault data could not be parsed.".to_string()),
        },
        Reread::Unserializable(e) => Err(e),
    };
    assert(backup_of(blob, json@, password));
    assert(backup_reply(purpose, json@, xg, blob, r));
    r
}

/// How a refusal on a locked or unloaded vault is worded: plainly, or as a
/// failed restore.
#[derive(Clone, Copy)]
pub enum Wording {
    Plain,
    Restore,
}

/// The refusal when no master password is held.
pub open spec fn locked_text(w: Wording) -> Seq<char> {
    match w {
        Wording::Plain => "Vault is locked."@,
        Wording::Restore => "Restore failed: vault is locked."@,
    }
}

/// The refusal when the vault is not loaded.
pub open spec fn unavailable_text(w: Wording) -> Seq<char> {
    match w {
        Wording::Plain => "Vault is unavailable."@,
        Wording::Restore => "Restore failed: vault is unavailable."@,
    }
}

/// Whether a vault operation may go on: the master password must be held,
/// then the vault must be loaded.
pub fn check_unlocked(password: &Option<String>, vault_loaded: bool, wording: Wording) -> (r: Result<
    (),
    String,
>)
    ensures
        password is None ==> (r matches Err(m) && m@ == locked_text(wording)),
        password is Some && !vault_loaded ==> (r matches Err(m) && m@ == unavailable_text(wording)),
        password is Some && vault_loaded ==> r is Ok,
{
    if password.is_none() {
        return match wording {
            Wording::Plain => Err("Vault is locked.".to_string()),
            Wording::Restore => Err("Restore failed: vault is locked.".to_string()),
        };
    }
    if !vault_loaded {
        return match wording {
            Wording::Plain => Err("Vault is unavailable.".to_string()),
            Wording::Restore => Err("Restore failed: vault is unavailable.".to_string()),
        };
    }
    Ok(())
}

/// Decrypts a backup chosen for a restore.
pub fn open_backup(blob: &EncryptedBlob, password: &str) -> (r: Result<Vec<u8>, String>)
    ensures
        match blob_decrypts_to(*blob, password_bytes(password)) {
            Ok(p) => r matches Ok(v) && v@ == p,
            Err(_) => r matches Err(m) && m@ == "Restore failed: backup could not be decrypted."@,
        },
{
    match decrypt(blob, password) {
        Ok(p) => Ok(p),
        Err(_) => Err("Restore failed: backup could not be decrypted.".to_string()),
    }
}

} // verus!
