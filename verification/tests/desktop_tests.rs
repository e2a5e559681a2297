use jpass::desktop::{
    backup_file_name, sanitize_backup_name, settings_file_name, sync_file_name, vault_file_name,
};

#[test]
fn sanitize_keeps_letters_digits_dash_and_underscore() {
    assert_eq!(sanitize_backup_name("My Vault #1_a-b!"), "MyVault1_a-b");
    assert_eq!(sanitize_backup_name("ünï cödé"), "ncd");
    assert_eq!(sanitize_backup_name(""), "");
}

#[test]
fn vault_file_name_uses_the_sanitized_id() {
    assert_eq!(vault_file_name(None), "vault.sqlite3");
    assert_eq!(vault_file_name(Some("abc-123")), "vault-abc-123.sqlite3");
    assert_eq!(vault_file_name(Some("a/b c")), "vault-abc.sqlite3");
    assert_eq!(vault_file_name(Some("///")), "vault.sqlite3");
}

#[test]
fn backup_file_name_exact_values() {
    assert_eq!(
        backup_file_name(Some("Work Vault"), 1_700_000_000_123),
        "jpass-backup-WorkVault-1700000000123.json"
    );
    assert_eq!(backup_file_name(None, 0), "jpass-backup-vault-0.json");
    assert_eq!(backup_file_name(Some("***"), 42), "jpass-backup-vault-42.json");
}

#[test]
fn fixed_file_names() {
    assert_eq!(settings_file_name(), "settings.json");
    assert_eq!(sync_file_name(), "jpass-sync.json");
}

use jpass::desktop::{
    desktop_store, local_folder_sync, BackupFailure, DirLookup, FileRead, FileRemoval, FileWrite,
    LocalFolderSync,
};
use jpass::crypto::EncryptedBlob;
use jpass::platform::PlatformError;
use jpass::settings::{AppSettings, SyncEnvelope};

fn storage_text(r: PlatformError) -> String {
    match r {
        PlatformError::Storage(m) => m,
        other => panic!("expected a storage error, got {:?}", other),
    }
}

fn blob() -> EncryptedBlob {
    EncryptedBlob {
        salt: "s".to_string(),
        nonce: "n".to_string(),
        ciphertext: "c".to_string(),
        vault_id: None,
        vault_name: Some("Work".to_string()),
    }
}

#[test]
fn settings_file_outcomes() {
    let store = desktop_store();
    let mut saved = AppSettings::default();
    saved.sync_revision = 9;
    assert_eq!(store.settings_from(FileRead::Parsed(saved)).unwrap().sync_revision, 9);
    let fresh = store.settings_from(FileRead::Missing).unwrap();
    assert_eq!(fresh.sync_revision, 0);
    assert!(fresh.vaults.is_empty());
    assert_eq!(
        storage_text(store.settings_from(FileRead::Unparsable("bad json".to_string())).unwrap_err()),
        "failed to parse settings: bad json"
    );
    assert_eq!(
        storage_text(store.settings_from(FileRead::Failed("denied".to_string())).unwrap_err()),
        "failed to read settings: denied"
    );
    assert!(store.settings_saved(FileWrite::Written).is_ok());
    assert_eq!(
        storage_text(store.settings_saved(FileWrite::Unserializable("x".to_string())).unwrap_err()),
        "failed to serialize settings: x"
    );
    assert_eq!(
        storage_text(store.settings_saved(FileWrite::Failed("disk full".to_string())).unwrap_err()),
        "failed to write settings: disk full"
    );
}

#[test]
fn deleting_a_missing_vault_file_succeeds() {
    let store = desktop_store();
    assert!(store.vault_deleted(FileRemoval::Removed).is_ok());
    assert!(store.vault_deleted(FileRemoval::Missing).is_ok());
    assert_eq!(
        storage_text(store.vault_deleted(FileRemoval::Failed("busy".to_string())).unwrap_err()),
        "failed to delete vault: busy"
    );
}

#[test]
fn directory_lookups() {
    let store = desktop_store();
    assert_eq!(store.data_dir_from(DirLookup::Ready("/d".to_string())).unwrap(), "/d");
    assert_eq!(
        store.data_dir_from(DirLookup::Unresolved).unwrap_err().message(),
        "path resolution error: could not resolve app data directory"
    );
    assert_eq!(
        store.config_dir_from(DirLookup::CreateFailed("ro".to_string())).unwrap_err().message(),
        "path resolution error: failed to create config dir: ro"
    );
    assert_eq!(
        store.config_dir_from(DirLookup::Unresolved).unwrap_err().message(),
        "path resolution error: could not resolve config directory"
    );
}

#[test]
fn backup_steps() {
    let store = desktop_store();
    assert_eq!(
        storage_text(store.backup_error(BackupFailure::CreateDir("a".to_string()))),
        "failed to create backup directory: a"
    );
    assert_eq!(
        storage_text(store.backup_error(BackupFailure::Clock("b".to_string()))),
        "failed to determine backup timestamp: b"
    );
    assert_eq!(
        storage_text(store.backup_error(BackupFailure::Serialize("c".to_string()))),
        "failed to serialize backup: c"
    );
    assert_eq!(
        storage_text(store.backup_error(BackupFailure::Write("d".to_string()))),
        "failed to write backup: d"
    );
    assert_eq!(store.backup_from(Ok(Ok(blob()))).unwrap().vault_name.as_deref(), Some("Work"));
    assert_eq!(
        storage_text(store.backup_from(Ok(Err("eof".to_string()))).unwrap_err()),
        "failed to parse backup file: eof"
    );
    assert_eq!(
        storage_text(store.backup_from(Err("gone".to_string())).unwrap_err()),
        "failed to read backup file: gone"
    );
}

#[test]
fn local_folder_sync_outcomes() {
    let sync: LocalFolderSync = local_folder_sync("/sync".to_string(), Ok(())).unwrap();
    assert_eq!(sync.folder(), "/sync");
    assert_eq!(
        storage_text(
            LocalFolderSync::new("/x".to_string(), Err("denied".to_string())).err().unwrap()
        ),
        "failed to create sync folder: denied"
    );
    let envelope = SyncEnvelope::new("device".to_string(), 3, blob());
    let got = sync.downloaded(FileRead::Parsed(envelope)).unwrap().unwrap();
    assert_eq!(got.revision, 3);
    assert!(sync.downloaded(FileRead::Missing).unwrap().is_none());
    assert_eq!(
        storage_text(sync.downloaded(FileRead::Unparsable("bad".to_string())).unwrap_err()),
        "failed to parse sync envelope: bad"
    );
    assert_eq!(
        storage_text(sync.downloaded(FileRead::Failed("io".to_string())).unwrap_err()),
        "failed to read sync envelope: io"
    );
    assert!(sync.uploaded(FileWrite::Written).is_ok());
    assert_eq!(
        storage_text(sync.uploaded(FileWrite::Unserializable("s".to_string())).unwrap_err()),
        "failed to serialize sync envelope: s"
    );
    assert_eq!(
        storage_text(sync.uploaded(FileWrite::Failed("w".to_string())).unwrap_err()),
        "failed to write sync envelope: w"
    );
}
