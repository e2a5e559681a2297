use jpass::crypto::EncryptedBlob;
use jpass::platform::{
    android_store, ios_store, BackupService, ClipboardService, PlatformAdapter, PlatformError,
    PlatformKind, PlatformPaths, VaultStore,
};
use jpass::settings::AppSettings;
use jpass::storage::StorageError;

fn blob() -> EncryptedBlob {
    EncryptedBlob {
        salt: String::new(),
        nonce: String::new(),
        ciphertext: String::new(),
        vault_id: None,
        vault_name: None,
    }
}

fn text<T>(r: Result<T, PlatformError>) -> String {
    match r {
        Ok(_) => panic!("expected an error"),
        Err(e) => e.message(),
    }
}

#[test]
fn android_stub_replies() {
    let s = android_store();
    assert_eq!(
        text(s.load_vault()),
        "platform storage error: Android storage not implemented yet; use Android app-private storage or Keystore-backed persistence"
    );
    assert_eq!(text(s.save_vault(&blob())), text(s.load_vault()));
    assert_eq!(
        text(s.copy_text("x")),
        "platform clipboard error: Android clipboard integration requires the Android runtime binding"
    );
    assert_eq!(
        text(s.clear()),
        "platform clipboard error: Android clipboard clear requires the Android runtime binding"
    );
    assert_eq!(
        text(s.save_encrypted_backup(&blob())),
        "platform storage error: Android backup destination requires the native file picker binding"
    );
    assert_eq!(
        text(s.load_encrypted_backup("/x")),
        "platform storage error: Android backup loading requires the native file picker binding"
    );
    assert_eq!(s.data_dir().unwrap(), "/data/data/jpass");
    assert_eq!(s.config_dir().unwrap(), "/data/data/jpass");
    let settings = s.load_settings().unwrap();
    assert_eq!(settings.clipboard_timeout_secs, AppSettings::default().clipboard_timeout_secs);
    assert!(settings.vaults.is_empty());
    assert!(s.save_settings(&settings).is_ok());
}

#[test]
fn ios_stub_replies() {
    let s = ios_store();
    assert_eq!(
        text(s.load_vault()),
        "platform storage error: iOS storage not implemented yet; use Keychain or app sandbox persistence"
    );
    assert_eq!(
        text(s.copy_text("x")),
        "platform clipboard error: iOS clipboard integration requires the iOS runtime binding"
    );
    assert_eq!(
        text(s.clear()),
        "platform clipboard error: iOS clipboard clear requires the iOS runtime binding"
    );
    assert_eq!(
        text(s.save_encrypted_backup(&blob())),
        "platform storage error: iOS backup destination requires the native document picker binding"
    );
    assert!(s.load_settings().unwrap().vaults.is_empty());
    assert!(s.save_settings(&AppSettings::default()).is_ok());
}

#[test]
fn desktop_adapter_runs_the_desktop_action() {
    let a = PlatformAdapter::current();
    assert_eq!(a.kind(), PlatformKind::Desktop);
    assert_eq!(a.save_vault(|| Err("disk full".to_string())).unwrap_err(), "disk full");
    assert!(a.load_vault(|| Ok(None)).unwrap().is_none());
    assert_eq!(
        a.save_encrypted_backup(&blob(), || Ok("/b/x.json".to_string())).unwrap(),
        "/b/x.json"
    );
    assert!(a.copy_text("secret", || Ok(())).is_ok());
    assert!(a.clear(|| Ok(())).is_ok());
    assert!(a.save_settings(|| Ok(())).is_ok());
    assert_eq!(a.load_settings(|| Ok(AppSettings::default())).unwrap().generator_length, 20);
}

#[test]
fn error_messages() {
    assert_eq!(PlatformError::Path("p".to_string()).message(), "path resolution error: p");
    assert_eq!(PlatformError::Storage("s".to_string()).message(), "platform storage error: s");
    assert_eq!(PlatformError::Clipboard("c".to_string()).message(), "platform clipboard error: c");
    assert_eq!(StorageError::Backend("b".to_string()).message(), "storage backend error: b");
}
