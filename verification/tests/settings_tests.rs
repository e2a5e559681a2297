use jpass::settings::{
    default_confirm_delete, default_generator_length, default_sync_device_id, default_true,
    next_sync_revision, sync_folder_for, AppSettings, AppTheme, EditPasswordGenerationMode,
    EntryActionDisplay, PrimaryActionDisplay, SyncEnvelope, ToastPosition, VaultError,
    VaultProfile, CURRENT_SCHEMA_VERSION,
};
use jpass::crypto::EncryptedBlob;

fn is_uuid_text(s: &str) -> bool {
    s.len() == 36
        && s.char_indices().all(|(i, c)| {
            if i == 8 || i == 13 || i == 18 || i == 23 {
                c == '-'
            } else {
                c.is_ascii_digit() || ('a'..='f').contains(&c)
            }
        })
}

fn profile(id: &str, name: &str) -> VaultProfile {
    VaultProfile { id: id.to_string(), name: name.to_string() }
}

#[test]
fn app_settings_tracks_multiple_vaults() {
    let default_settings = AppSettings::default();
    assert!(!default_settings.has_active_vault());

    let primary = VaultProfile {
        id: "vault-primary".to_string(),
        name: "Primary".to_string(),
    };
    let work = VaultProfile {
        id: "vault-work".to_string(),
        name: "Work".to_string(),
    };

    let mut updated = AppSettings::default();
    updated.vaults = vec![primary.clone(), work.clone()];
    updated.active_vault_id = Some(primary.id.clone());
    updated.default_vault_id = Some(primary.id.clone());

    assert!(updated.has_active_vault());
    assert_eq!(updated.vaults.len(), 2);
    assert_eq!(
        updated.active_vault_id.as_deref(),
        Some(primary.id.as_str())
    );
}

#[test]
fn default_settings_values() {
    let s = AppSettings::default();
    assert_eq!(s.clipboard_timeout_secs, 10);
    assert_eq!(AppSettings::default_timeout(), 10);
    assert!(matches!(s.theme, AppTheme::Dark));
    assert!(s.confirm_delete);
    assert!(matches!(s.entry_action_display, EntryActionDisplay::Text));
    assert!(matches!(s.primary_action_display, PrimaryActionDisplay::Text));
    assert!(s.show_primary_action_icons);
    assert!(s.vaults.is_empty());
    assert!(matches!(s.toast_position, ToastPosition::BottomRight));
    assert_eq!(s.generator_length, 20);
    assert!(s.generator_lowercase && s.generator_uppercase && s.generator_digits && s.generator_symbols);
    assert!(matches!(s.edit_password_generation_mode, EditPasswordGenerationMode::AutoGenerate));
    assert!(!s.sync_enabled);
    assert_eq!(s.sync_folder, None);
    assert!(is_uuid_text(&s.sync_device_id));
    assert_eq!(s.sync_revision, 0);
    assert!(s.last_sync_at.is_none());
    assert!(default_confirm_delete());
    assert!(default_true());
    assert_eq!(default_generator_length(), 20);
    assert!(is_uuid_text(&default_sync_device_id()));
    let p = VaultProfile::default();
    assert_eq!(p.name, "Primary");
    assert!(is_uuid_text(&p.id));
}

#[test]
fn has_active_vault_with_only_profiles() {
    let mut s = AppSettings::default();
    s.vaults.push(profile("a", "A"));
    assert!(s.has_active_vault());
    let mut t = AppSettings::default();
    t.active_vault_id = Some("x".to_string());
    assert!(t.has_active_vault());
}

#[test]
fn adopt_legacy_vault_adds_primary_as_active_and_default() {
    let mut s = AppSettings::default();
    s.vaults.push(profile("old", "Old"));
    let id = s.adopt_legacy_vault();
    assert!(is_uuid_text(&id));
    assert_eq!(s.vaults.len(), 2);
    assert_eq!(s.vaults[1].id, id);
    assert_eq!(s.vaults[1].name, "Primary");
    assert_eq!(s.active_vault_id.as_deref(), Some(id.as_str()));
    assert_eq!(s.default_vault_id.as_deref(), Some(id.as_str()));
}

#[test]
fn repair_default_vault_keeps_a_valid_default() {
    let mut s = AppSettings::default();
    s.vaults = vec![profile("a", "A"), profile("b", "B")];
    s.default_vault_id = Some("b".to_string());
    s.active_vault_id = Some("a".to_string());
    assert!(!s.repair_default_vault());
    assert_eq!(s.default_vault_id.as_deref(), Some("b"));
}

#[test]
fn repair_default_vault_prefers_the_active_vault() {
    let mut s = AppSettings::default();
    s.vaults = vec![profile("a", "A"), profile("b", "B")];
    s.default_vault_id = Some("gone".to_string());
    s.active_vault_id = Some("b".to_string());
    assert!(s.repair_default_vault());
    assert_eq!(s.default_vault_id.as_deref(), Some("b"));
}

#[test]
fn repair_default_vault_falls_back_to_the_first_profile_or_none() {
    let mut s = AppSettings::default();
    s.vaults = vec![profile("a", "A"), profile("b", "B")];
    s.active_vault_id = Some("gone".to_string());
    assert!(s.repair_default_vault());
    assert_eq!(s.default_vault_id.as_deref(), Some("a"));

    let mut empty = AppSettings::default();
    empty.default_vault_id = Some("gone".to_string());
    assert!(empty.repair_default_vault());
    assert_eq!(empty.default_vault_id, None);
}

#[test]
fn mark_synced_records_the_revision() {
    let mut s = AppSettings::default();
    s.sync_enabled = true;
    s.theme = AppTheme::Light;
    s.generator_length = 32;
    s.mark_synced(7);
    assert!(matches!(s.theme, AppTheme::Light));
    assert_eq!(s.generator_length, 32);
    assert_eq!(s.sync_revision, 7);
    assert!(s.last_sync_at.is_some());
    assert!(s.sync_enabled);
}

#[test]
fn sync_folder_needs_sync_on_and_a_folder() {
    let mut s = AppSettings::default();
    assert_eq!(sync_folder_for(&s).unwrap_err(), "Sync is disabled in Settings.");
    s.sync_enabled = true;
    assert_eq!(
        sync_folder_for(&s).unwrap_err(),
        "Choose a local sync folder in Settings first."
    );
    s.sync_folder = Some("/tmp/sync".to_string());
    assert_eq!(sync_folder_for(&s).unwrap(), "/tmp/sync");
}

#[test]
fn next_sync_revision_refuses_a_newer_remote() {
    assert_eq!(next_sync_revision(3, None).unwrap(), 4);
    assert_eq!(next_sync_revision(3, Some(3)).unwrap(), 4);
    assert_eq!(next_sync_revision(3, Some(1)).unwrap(), 4);
    assert_eq!(
        next_sync_revision(3, Some(12)).unwrap_err(),
        "Sync conflict: remote revision 12 is newer than local revision 3."
    );
}

#[test]
fn sync_envelope_is_of_the_current_layout() {
    let blob = EncryptedBlob {
        salt: "salt".to_string(),
        nonce: "nonce".to_string(),
        ciphertext: "ciphertext".to_string(),
        vault_id: None,
        vault_name: None,
    };
    let e = SyncEnvelope::new("device".to_string(), 5, blob);
    assert_eq!(e.schema_version, CURRENT_SCHEMA_VERSION);
    assert_eq!(CURRENT_SCHEMA_VERSION, 1);
    assert_eq!(e.device_id, "device");
    assert_eq!(e.revision, 5);
    assert_eq!(e.vault.ciphertext, "ciphertext");
}

#[test]
fn vault_error_messages() {
    assert_eq!(
        VaultError::Serialization("x".to_string()).message(),
        "vault serialization failed: x"
    );
    assert_eq!(
        VaultError::Deserialization("y".to_string()).message(),
        "vault deserialization failed: y"
    );
    assert_eq!(VaultError::Unavailable.message(), "vault unavailable");
}

#[test]
fn choosing_the_active_and_the_default_vault() {
    let mut s = AppSettings::default();
    s.vaults = vec![profile("a", "A"), profile("b", "B")];
    s.default_vault_id = Some("a".to_string());
    s.select_vault("b".to_string());
    assert_eq!(s.active_vault_id.as_deref(), Some("b"));
    assert_eq!(s.default_vault_id.as_deref(), Some("a"));
    s.set_default_vault("b".to_string());
    assert_eq!(s.default_vault_id.as_deref(), Some("b"));
    assert_eq!(s.active_vault_id.as_deref(), Some("b"));
    assert_eq!(s.vaults.len(), 2);
}
