use jpass::crypto::EncryptedBlob;
use jpass::settings::{AppSettings, VaultProfile};
use jpass::startup::{Screen, Startup, StartupAction, StartupEvent, StartupPhase};
use jpass::storage::StorageError;

fn blob() -> EncryptedBlob {
    EncryptedBlob {
        salt: "s".to_string(),
        nonce: "n".to_string(),
        ciphertext: "c".to_string(),
        vault_id: None,
        vault_name: None,
    }
}

fn shown(a: StartupAction) -> (Screen, Option<String>) {
    match a {
        StartupAction::Show(screen, error) => (screen, error),
        _ => panic!("expected a screen"),
    }
}

#[test]
fn no_profiles_and_no_old_vault_asks_for_a_new_vault() {
    let mut s = Startup::new(AppSettings::default());
    assert!(matches!(s.step(StartupEvent::Begin), StartupAction::LoadLegacyVault));
    assert_eq!(s.phase, StartupPhase::LoadingLegacy);
    let (screen, error) = shown(s.step(StartupEvent::LegacyLoaded(Ok(None))));
    assert_eq!(screen, Screen::CreateMaster);
    assert_eq!(error, None);
}

#[test]
fn a_storage_error_is_reported() {
    let mut s = Startup::new(AppSettings::default());
    s.step(StartupEvent::Begin);
    let (screen, error) = shown(s.step(StartupEvent::LegacyLoaded(Err(StorageError::Backend("db".to_string())))));
    assert_eq!(screen, Screen::CreateMaster);
    assert_eq!(error.as_deref(), Some("Storage error: storage backend error: db"));
}

#[test]
fn an_old_vault_is_migrated_then_listed() {
    let mut s = Startup::new(AppSettings::default());
    s.step(StartupEvent::Begin);
    let id = match s.step(StartupEvent::LegacyLoaded(Ok(Some(blob())))) {
        StartupAction::SaveMigrated(id, b) => {
            assert_eq!(b.ciphertext, "c");
            id
        }
        _ => panic!("expected a migration"),
    };
    assert_eq!(s.settings.vaults.len(), 1);
    assert_eq!(s.settings.vaults[0].name, "Primary");
    assert_eq!(s.settings.active_vault_id.as_deref(), Some(id.as_str()));
    let (screen, error) = shown(s.step(StartupEvent::Saved(Ok(()))));
    assert_eq!(screen, Screen::SelectVault);
    assert_eq!(error, None);
}

#[test]
fn a_failed_migration_is_reported() {
    let mut s = Startup::new(AppSettings::default());
    s.step(StartupEvent::Begin);
    s.step(StartupEvent::LegacyLoaded(Ok(Some(blob()))));
    let (screen, error) = shown(s.step(StartupEvent::Saved(Err(StorageError::Backend("full".to_string())))));
    assert_eq!(screen, Screen::CreateMaster);
    assert_eq!(
        error.as_deref(),
        Some("Failed to migrate the existing vault: storage backend error: full")
    );
}

#[test]
fn a_missing_default_is_repaired_and_saved() {
    let mut settings = AppSettings::default();
    settings.vaults = vec![VaultProfile { id: "a".to_string(), name: "A".to_string() }];
    settings.default_vault_id = Some("gone".to_string());
    let mut s = Startup::new(settings);
    assert!(matches!(s.step(StartupEvent::Begin), StartupAction::SaveSettings));
    assert_eq!(s.settings.default_vault_id.as_deref(), Some("a"));
    let (screen, error) = shown(s.step(StartupEvent::Saved(Err(StorageError::Backend("ro".to_string())))));
    assert_eq!(screen, Screen::SelectVault);
    assert_eq!(error.as_deref(), Some("Failed to save the default vault: storage backend error: ro"));
}

#[test]
fn a_valid_default_goes_straight_to_the_vault_list() {
    let mut settings = AppSettings::default();
    settings.vaults = vec![VaultProfile { id: "a".to_string(), name: "A".to_string() }];
    settings.default_vault_id = Some("a".to_string());
    let mut s = Startup::new(settings);
    let (screen, error) = shown(s.step(StartupEvent::Begin));
    assert_eq!(screen, Screen::SelectVault);
    assert_eq!(error, None);
    assert_eq!(s.phase, StartupPhase::Done);
}

#[test]
fn a_missing_default_becomes_the_active_vault_when_that_is_a_profile() {
    let mut settings = AppSettings::default();
    settings.vaults = vec![
        VaultProfile { id: "a".to_string(), name: "A".to_string() },
        VaultProfile { id: "b".to_string(), name: "B".to_string() },
    ];
    settings.active_vault_id = Some("b".to_string());
    settings.default_vault_id = Some("x".to_string());
    let mut s = Startup::new(settings);
    assert!(matches!(s.step(StartupEvent::Begin), StartupAction::SaveSettings));
    assert_eq!(s.settings.default_vault_id.as_deref(), Some("b"));
    assert_eq!(s.settings.active_vault_id.as_deref(), Some("b"));
    let (screen, error) = shown(s.step(StartupEvent::Saved(Ok(()))));
    assert_eq!(screen, Screen::SelectVault);
    assert_eq!(error, None);
}
