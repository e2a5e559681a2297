use jpass::crypto::{decrypt, encrypt};
use jpass::session::{check_unlocked, open_backup, validated_backup, BackupPurpose, Reread, Wording};
use jpass::session::{
    check_new_vault, open_remote, open_vault_blob, restored_text, sync_envelope, synced_text,
    MIN_MASTER_PASSWORD_LEN,
};
use jpass::settings::{AppSettings, SyncEnvelope};
use jpass::storage::{
    load_encrypted, load_settings, save_encrypted, save_encrypted_backup, save_settings,
    StorageError,
};
use jpass::toast::copied_toast;

#[test]
fn new_vault_form_rules() {
    assert_eq!(MIN_MASTER_PASSWORD_LEN, 8);
    assert_eq!(
        check_new_vault("short", "short", "Work").unwrap_err(),
        "Master password must be at least 8 characters."
    );
    assert_eq!(
        check_new_vault("long enough", "long enougH", "Work").unwrap_err(),
        "Passwords do not match."
    );
    assert_eq!(
        check_new_vault("long enough", "long enough", "  ").unwrap_err(),
        "Vault name cannot be empty."
    );
    assert_eq!(check_new_vault("long enough", "long enough", " Work ").unwrap(), "Work");
    // The length counts bytes: four two-byte characters are enough.
    assert!(check_new_vault("éééé", "éééé", "V").is_ok());
}

#[test]
fn add_vault_profile_sets_active_and_first_default() {
    let mut s = AppSettings::default();
    let first = s.add_vault_profile("Personal".to_string());
    assert_eq!(s.active_vault_id.as_deref(), Some(first.as_str()));
    assert_eq!(s.default_vault_id.as_deref(), Some(first.as_str()));
    let second = s.add_vault_profile("Work".to_string());
    assert_eq!(s.active_vault_id.as_deref(), Some(second.as_str()));
    assert_eq!(s.default_vault_id.as_deref(), Some(first.as_str()));
    assert_eq!(s.vaults.len(), 2);
    assert_eq!(s.vaults[1].name, "Work");
    assert_ne!(first, second);
}

#[test]
fn unlocking_outcomes() {
    let blob = encrypt(b"{}", "master password").unwrap();
    assert_eq!(open_vault_blob(Ok(Some(blob.clone())), "master password").unwrap(), b"{}".to_vec());
    assert_eq!(
        open_vault_blob(Ok(Some(blob)), "other password").unwrap_err(),
        "Incorrect master password."
    );
    assert_eq!(open_vault_blob(Ok(None), "x").unwrap_err(), "No vault found.");
    assert_eq!(
        open_vault_blob(Err(StorageError::Backend("locked db".to_string())), "x").unwrap_err(),
        "Storage error: storage backend error: locked db"
    );
}

#[test]
fn sync_upload_is_one_past_local_and_refuses_newer_remote() {
    let mut s = AppSettings::default();
    s.sync_revision = 4;
    let blob = encrypt(b"v", "pw").unwrap();
    let env = sync_envelope(&s, blob.clone(), Some(4)).unwrap();
    assert_eq!(env.revision, 5);
    assert_eq!(env.device_id, s.sync_device_id);
    assert_eq!(env.vault.ciphertext, blob.ciphertext);
    assert_eq!(sync_envelope(&s, blob.clone(), None).unwrap().revision, 5);
    assert_eq!(
        sync_envelope(&s, blob, Some(6)).unwrap_err(),
        "Sync conflict: remote revision 6 is newer than local revision 4."
    );
    assert_eq!(synced_text(5), "Vault synced at revision 5");
}

#[test]
fn restoring_from_the_sync_folder() {
    let blob = encrypt(b"[1]", "pw").unwrap();
    let env = SyncEnvelope::new("d".to_string(), 8, blob);
    let (got, plain) = open_remote(Some(env.clone()), "pw").unwrap();
    assert_eq!(got.revision, 8);
    assert_eq!(plain, b"[1]".to_vec());
    assert_eq!(
        open_remote(Some(env), "nope").unwrap_err(),
        "Restore failed: remote vault could not be decrypted."
    );
    assert_eq!(
        open_remote(None, "pw").unwrap_err(),
        "No remote vault was found in the sync folder."
    );
    assert_eq!(
        restored_text(8, "/b/x.json"),
        "Restored remote revision 8; local backup: /b/x.json"
    );
}

#[test]
fn storage_relays_the_desktop_action() {
    assert_eq!(
        load_settings(|| Ok(AppSettings::default())).unwrap().clipboard_timeout_secs,
        10
    );
    let err = save_settings(|| Err("read-only".to_string())).unwrap_err();
    assert_eq!(err.message(), "storage backend error: read-only");
    assert!(load_encrypted(|| Ok(None)).unwrap().is_none());
    assert!(save_encrypted(|| Ok(())).is_ok());
    let blob = encrypt(b"v", "pw").unwrap();
    assert_eq!(save_encrypted_backup(&blob, || Ok("/b.json".to_string())).unwrap(), "/b.json");
}

#[test]
fn copied_secret_countdown() {
    let t = copied_toast("Password copied".to_string(), 15);
    assert_eq!(t.duration_ms, 15_000);
    assert_eq!(t.remaining_ms, 15_000);
    assert_eq!(t.label, "Password copied");
    assert_eq!(copied_toast("x".to_string(), 0).duration_ms, 1000);
    assert_eq!(copied_toast("x".to_string(), u64::MAX).duration_ms, u64::MAX);
}

#[test]
fn validated_backup_that_reads_back() {
    let json = b"{\"entries\":[]}";
    let ok = validated_backup(json, "pw", BackupPurpose::Requested, |b| Reread::Reserialized(b)).unwrap();
    assert_eq!(decrypt(&ok, "pw").unwrap(), json.to_vec());
}

#[test]
fn backup_whose_bytes_are_no_vault() {
    assert_eq!(
        validated_backup(b"{}", "pw", BackupPurpose::Requested, |_| Reread::Unparsable).unwrap_err(),
        "backup validation failed: vault data could not be parsed"
    );
}

#[test]
fn safety_backup_that_reads_back_differently() {
    assert_eq!(
        validated_backup(b"[1]", "pw", BackupPurpose::BeforeRestore, |_| Reread::Reserialized(b"{}".to_vec()))
            .unwrap_err(),
        "Restore failed: safety backup validation did not match the vault."
    );
}

#[test]
fn backup_that_cannot_be_serialized_again() {
    assert_eq!(
        validated_backup(b"[2]", "pw", BackupPurpose::Requested, |_| Reread::Unserializable("io".to_string()))
            .unwrap_err(),
        "io"
    );
}

#[test]
fn safety_backup_whose_bytes_are_no_vault() {
    assert_eq!(
        validated_backup(b"[3]", "pw", BackupPurpose::BeforeRestore, |_| Reread::Unparsable).unwrap_err(),
        "Restore failed: safety backup vault data could not be parsed."
    );
}

#[test]
fn locked_and_unloaded_vaults_are_refused() {
    assert_eq!(check_unlocked(&None, true, Wording::Plain).unwrap_err(), "Vault is locked.");
    assert_eq!(
        check_unlocked(&Some("pw".to_string()), false, Wording::Plain).unwrap_err(),
        "Vault is unavailable."
    );
    assert_eq!(
        check_unlocked(&None, false, Wording::Restore).unwrap_err(),
        "Restore failed: vault is locked."
    );
    assert_eq!(
        check_unlocked(&Some("pw".to_string()), false, Wording::Restore).unwrap_err(),
        "Restore failed: vault is unavailable."
    );
    assert!(check_unlocked(&Some("pw".to_string()), true, Wording::Plain).is_ok());
}

#[test]
fn opening_a_backup() {
    let blob = encrypt(b"[9]", "pw").unwrap();
    assert_eq!(open_backup(&blob, "pw").unwrap(), b"[9]".to_vec());
    assert_eq!(
        open_backup(&blob, "other").unwrap_err(),
        "Restore failed: backup could not be decrypted."
    );
}
