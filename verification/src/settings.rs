//! Application settings, vault profiles and the sync envelope, with the
//! decisions taken on them at startup and when syncing.
use vstd::prelude::*;
use vstd::string::StringExecFns;
use crate::crypto::EncryptedBlob;
use crate::ids::{Timestamp, now, new_uuid_string, uuid_text};
use crate::text::{decimal, decimal_string};

verus! {

broadcast use vstd::string::group_string_axioms;

/// Colour theme of the interface.
#[derive(Debug, Clone, Copy, PartialEq, Eq, Structural)]
pub enum AppTheme {
    Dark,
    Light,
    System,
}

impl Default for AppTheme {
    fn default() -> (r: Self)
        ensures
            r == AppTheme::Dark,
    {
        Self::Dark
    }
}

/// How actions on an entry row are shown.
#[derive(Debug, Clone, Copy, PartialEq, Eq, Structural)]
pub enum EntryActionDisplay {
    Text,
    Icons,
}

impl Default for EntryActionDisplay {
    fn default() -> (r: Self)
        ensures
            r == EntryActionDisplay::Text,
    {
        Self::Text
    }
}

/// How the toolbar's primary actions are shown.
#[derive(Debug, Clone, Copy, PartialEq, Eq, Structural)]
pub enum PrimaryActionDisplay {
    Text,
    Icons,
}

impl Default for PrimaryActionDisplay {
    fn default() -> (r: Self)
        ensures
            r == PrimaryActionDisplay::Text,
    {
        Self::Text
    }
}

/// Where toast notifications appear.
#[derive(Debug, Clone, Copy, PartialEq, Eq, Structural)]
pub enum ToastPosition {
    TopLeft,
    TopCenter,
    TopRight,
    CenterLeft,
    Center,
    CenterRight,
    BottomLeft,
    BottomCenter,
    BottomRight,
}

impl Default for ToastPosition {
    fn default() -> (r: Self)
        ensures
            r == ToastPosition::BottomRight,
    {
        Self::BottomRight
    }
}

/// What "Generate" does in the entry editor.
#[derive(Debug, Clone, Copy, PartialEq, Eq, Structural)]
pub enum EditPasswordGenerationMode {
    AutoGenerate,
    FullGenerator,
}

impl Default for EditPasswordGenerationMode {
    fn default() -> (r: Self)
        ensures
            r == EditPasswordGenerationMode::AutoGenerate,
    {
        Self::AutoGenerate
    }
}

/// A vault the user can choose at startup.
#[derive(Debug, Clone)]
pub struct VaultProfile {
    pub id: String,
    pub name: String,
}

impl Default for VaultProfile {
    /// A profile named "Primary" with a fresh random id.
    fn default() -> (r: Self)
        ensures
            r.name@ == "Primary"@,
            exists|u: u128| r.id@ == uuid_text(u),
    {
        VaultProfile { id: new_uuid_string(), name: "Primary".to_string() }
    }
}

/// Everything the user can configure, plus the vault list and sync state.
#[derive(Debug, Clone)]
pub struct AppSettings {
    pub clipboard_timeout_secs: u64,
    pub theme: AppTheme,
    pub confirm_delete: bool,
    pub entry_action_display: EntryActionDisplay,
    pub primary_action_display: PrimaryActionDisplay,
    pub show_primary_action_icons: bool,
    pub vaults: Vec<VaultProfile>,
    pub active_vault_id: Option<String>,
    pub default_vault_id: Option<String>,
    pub toast_position: ToastPosition,
    pub generator_length: usize,
    pub generator_lowercase: bool,
    pub generator_uppercase: bool,
    pub generator_digits: bool,
    pub generator_symbols: bool,
    pub edit_password_generation_mode: EditPasswordGenerationMode,
    pub sync_enabled: bool,
    pub sync_folder: Option<String>,
    pub sync_device_id: String,
    pub sync_revision: u64,
    pub last_sync_at: Option<Timestamp>,
}

/// Delete confirmation is on unless the user turns it off.
pub fn default_confirm_delete() -> (r: bool)
    ensures
        r,
{
    true
}

/// Generated passwords are 20 characters long unless configured otherwise.
pub fn default_generator_length() -> (r: usize)
    ensures
        r == 20,
{
    20
}

/// The default for switches that start enabled.
pub fn default_true() -> (r: bool)
    ensures
        r,
{
    true
}

/// A fresh random device id for sync.
pub fn default_sync_device_id() -> (r: String)
    ensures
        exists|u: u128| r@ == uuid_text(u),
{
    new_uuid_string()
}

/// The settings a fresh installation starts with.
pub open spec fn is_initial_settings(s: AppSettings) -> bool {
    &&& s.clipboard_timeout_secs == 10
    &&& s.theme == AppTheme::Dark
    &&& s.confirm_delete
    &&& s.entry_action_display == EntryActionDisplay::Text
    &&& s.primary_action_display == PrimaryActionDisplay::Text
    &&& s.show_primary_action_icons
    &&& s.vaults@.len() == 0
    &&& s.active_vault_id is None
    &&& s.default_vault_id is None
    &&& s.toast_position == ToastPosition::BottomRight
    &&& s.generator_length == 20
    &&& s.generator_lowercase && s.generator_uppercase && s.generator_digits && s.generator_symbols
    &&& s.edit_password_generation_mode == EditPasswordGenerationMode::AutoGenerate
    &&& !s.sync_enabled
    &&& s.sync_folder is None
    &&& (exists|u: u128| s.sync_device_id@ == uuid_text(u))
    &&& s.sync_revision == 0
    &&& s.last_sync_at is None
}

impl Default for AppSettings {
    fn default() -> (r: Self)
        ensures
            is_initial_settings(r),
    {
        Self {
            clipboard_timeout_secs: Self::default_timeout(),
            theme: AppTheme::default(),
            confirm_delete: true,
            entry_action_display: EntryActionDisplay::default(),
            primary_action_display: PrimaryActionDisplay::default(),
            show_primary_action_icons: true,
            vaults: Vec::new(),
            active_vault_id: None,
            default_vault_id: None,
            toast_position: ToastPosition::default(),
            generator_length: default_generator_length(),
            generator_lowercase: true,
            generator_uppercase: true,
            generator_digits: true,
            generator_symbols: true,
            edit_password_generation_mode: EditPasswordGenerationMode::default(),
            sync_enabled: false,
            sync_folder: None,
            sync_device_id: default_sync_device_id(),
            sync_revision: 0,
            last_sync_at: None,
        }
    }
}

/// Some profile has this id.
pub open spec fn has_profile(vaults: Seq<VaultProfile>, id: Seq<char>) -> bool {
    exists|i: int| 0 <= i < vaults.len() && #[trigger] vaults[i].id@ == id
}

/// The default vault names an existing profile.
pub open spec fn default_is_valid(s: AppSettings) -> bool {
    s.default_vault_id matches Some(d) && has_profile(s.vaults@, d@)
}

/// The profile list, ids and names as text.
pub open spec fn profile_views(vaults: Seq<VaultProfile>) -> Seq<(Seq<char>, Seq<char>)> {
    vaults.map_values(|p: VaultProfile| (p.id@, p.name@))
}

/// The user's choices are equal: every field but the vault list, the active
/// and the default vault, and the sync revision and time.
pub open spec fn same_choices(a: AppSettings, b: AppSettings) -> bool {
    &&& a.clipboard_timeout_secs == b.clipboard_timeout_secs
    &&& a.theme == b.theme
    &&& a.confirm_delete == b.confirm_delete
    &&& a.entry_action_display == b.entry_action_display
    &&& a.primary_action_display == b.primary_action_display
    &&& a.show_primary_action_icons == b.show_primary_action_icons
    &&& a.toast_position == b.toast_position
    &&& a.generator_length == b.generator_length
    &&& a.generator_lowercase == b.generator_lowercase
    &&& a.generator_uppercase == b.generator_uppercase
    &&& a.generator_digits == b.generator_digits
    &&& a.generator_symbols == b.generator_symbols
    &&& a.edit_password_generation_mode == b.edit_password_generation_mode
    &&& a.sync_enabled == b.sync_enabled
    &&& a.sync_folder == b.sync_folder
    &&& a.sync_device_id == b.sync_device_id
}

/// All fields but the vault list, the active and the default vault are equal.
pub open spec fn same_preferences(a: AppSettings, b: AppSettings) -> bool {
    &&& same_choices(a, b)
    &&& a.sync_revision == b.sync_revision
    &&& a.last_sync_at == b.last_sync_at
}

fn string_eq(a: &String, b: &String) -> (r: bool)
    ensures
        r == (a@ == b@),
{
    a.eq(b)
}

fn find_profile(vaults: &Vec<VaultProfile>, id: &String) -> (r: bool)
    ensures
        r == has_profile(vaults@, id@),
{
    let mut i: usize = 0;
    while i < vaults.len()
        invariant
            i <= vaults@.len(),
            forall|j: int| 0 <= j < i ==> #[trigger] vaults@[j].id@ != id@,
        decreases vaults@.len() - i,
    {
        if string_eq(&vaults[i].id, id) {
            return true;
        }
        i += 1;
    }
    false
}

impl AppSettings {
    /// Seconds the clipboard keeps a copied secret by default.
    pub fn default_timeout() -> (r: u64)
        ensures
            r == 10,
    {
        10
    }

    /// A vault has been chosen or at least one exists.
    pub fn has_active_vault(&self) -> (r: bool)
        ensures
            r == (self.active_vault_id is Some || self.vaults@.len() > 0),
    {
        self.active_vault_id.is_some() || self.vaults.len() > 0
    }

    /// Takes a vault that predates profiles into the profile list: a new
    /// profile "Primary" with a fresh id, made the active and the default
    /// vault. Returns the new id.
    pub fn adopt_legacy_vault(&mut self) -> (id: String)
        ensures
            exists|u: u128| id@ == uuid_text(u),
            profile_views(final(self).vaults@) == profile_views(old(self).vaults@).push(
                (id@, "Primary"@),
            ),
            final(self).active_vault_id matches Some(a) && a@ == id@,
            final(self).default_vault_id matches Some(d) && d@ == id@,
            default_is_valid(*final(self)),
            same_preferences(*final(self), *old(self)),
    {
        let vault_id = new_uuid_string();
        let ghost before = profile_views(self.vaults@);
        self.vaults.push(VaultProfile { id: vault_id.clone(), name: "Primary".to_string() });
        assert(profile_views(self.vaults@) =~= before.push((vault_id@, "Primary"@)));
        self.active_vault_id = Some(vault_id.clone());
        self.default_vault_id = Some(vault_id.clone());
        assert(self.vaults@[self.vaults@.len() - 1].id@ == vault_id@);
        vault_id
    }

    /// Registers a newly created vault: a profile named `name` with a fresh
    /// id, made the active vault, and the default one when there is none yet.
    /// Returns the new id.
    pub fn add_vault_profile(&mut self, name: String) -> (id: String)
        ensures
            exists|u: u128| id@ == uuid_text(u),
            profile_views(final(self).vaults@) == profile_views(old(self).vaults@).push(
                (id@, name@),
            ),
            final(self).active_vault_id matches Some(a) && a@ == id@,
            match old(self).default_vault_id {
                None => final(self).default_vault_id matches Some(d) && d@ == id@,
                Some(_) => final(self).default_vault_id == old(self).default_vault_id,
            },
            same_preferences(*final(self), *old(self)),
    {
        let vault_id = new_uuid_string();
        let ghost before = profile_views(self.vaults@);
        let ghost name_view = name@;
        self.vaults.push(VaultProfile { id: vault_id.clone(), name });
        assert(profile_views(self.vaults@) =~= before.push((vault_id@, name_view)));
        self.active_vault_id = Some(vault_id.clone());
        if self.default_vault_id.is_none() {
            self.default_vault_id = Some(vault_id.clone());
        }
        vault_id
    }

    /// Makes `vault_id` the active vault, the one unlocked next.
    pub fn select_vault(&mut self, vault_id: String)
        ensures
            final(self).active_vault_id == Some(vault_id),
            final(self).vaults@ == old(self).vaults@,
            final(self).default_vault_id == old(self).default_vault_id,
            same_preferences(*final(self), *old(self)),
    {
        self.active_vault_id = Some(vault_id);
    }

    /// Makes `vault_id` the default vault.
    pub fn set_default_vault(&mut self, vault_id: String)
        ensures
            final(self).default_vault_id == Some(vault_id),
            final(self).vaults@ == old(self).vaults@,
            final(self).active_vault_id == old(self).active_vault_id,
            same_preferences(*final(self), *old(self)),
    {
        self.default_vault_id = Some(vault_id);
    }

    /// Makes the default vault name an existing profile again: when it does
    /// not, it becomes the active vault if that exists, else the first
    /// profile, else none. Returns whether it was changed (and needs saving).
    pub fn repair_default_vault(&mut self) -> (changed: bool)
        ensures
            changed == !default_is_valid(*old(self)),
            final(self).vaults@.len() > 0 ==> default_is_valid(*final(self)),
            final(self).vaults@ == old(self).vaults@,
            final(self).active_vault_id == old(self).active_vault_id,
            same_preferences(*final(self), *old(self)),
            !changed ==> final(self).default_vault_id == old(self).default_vault_id,
            changed ==> match old(self).active_vault_id {
                Some(a) if has_profile(old(self).vaults@, a@) => final(self).default_vault_id
                    matches Some(d) && d@ == a@,
                _ => if old(self).vaults@.len() > 0 {
                    final(self).default_vault_id matches Some(d) && d@ == old(self).vaults@[0].id@
                } else {
                    final(self).default_vault_id is None
                },
            },
    {
        let valid = match &self.default_vault_id {
            Some(d) => find_profile(&self.vaults, d),
            None => false,
        };
        if valid {
            return false;
        }
        let active_ok = match &self.active_vault_id {
            Some(a) => find_profile(&self.vaults, a),
            None => false,
        };
        if active_ok {
            self.default_vault_id = self.active_vault_id.clone();
        } else if self.vaults.len() > 0 {
            self.default_vault_id = Some(self.vaults[0].id.clone());
        } else {
            self.default_vault_id = None;
        }
        true
    }

    /// Records a successful sync (or restore) at `revision`, stamped now.
    pub fn mark_synced(&mut self, revision: u64)
        ensures
            final(self).sync_revision == revision,
            final(self).last_sync_at is Some,
            final(self).vaults@ == old(self).vaults@,
            final(self).active_vault_id == old(self).active_vault_id,
            final(self).default_vault_id == old(self).default_vault_id,
            same_choices(*final(self), *old(self)),
    {
        self.sync_revision = revision;
        self.last_sync_at = Some(now());
    }
}

/// An encrypted vault as exchanged with other devices.
#[derive(Debug, Clone)]
pub struct SyncEnvelope {
    pub schema_version: u32,
    pub device_id: String,
    pub revision: u64,
    pub modified_at: Timestamp,
    pub vault: EncryptedBlob,
}

/// The envelope layout written by this version.
pub const CURRENT_SCHEMA_VERSION: u32 = 1;

impl SyncEnvelope {
    /// An envelope of the current layout, stamped now.
    pub fn new(device_id: String, revision: u64, vault: EncryptedBlob) -> (e: Self)
        ensures
            e.schema_version == CURRENT_SCHEMA_VERSION,
            e.device_id == device_id,
            e.revision == revision,
            e.vault == vault,
    {
        Self {
            schema_version: CURRENT_SCHEMA_VERSION,
            device_id,
            revision,
            modified_at: now(),
            vault,
        }
    }
}

/// Why a vault operation could not be carried out.
#[derive(Debug, Clone)]
pub enum VaultError {
    Serialization(String),
    Deserialization(String),
    Unavailable,
}

/// The text of a vault error.
pub open spec fn vault_error_text(e: VaultError) -> Seq<char> {
    match e {
        VaultError::Serialization(m) => "vault serialization failed: "@ + m@,
        VaultError::Deserialization(m) => "vault deserialization failed: "@ + m@,
        VaultError::Unavailable => "vault unavailable"@,
    }
}

impl VaultError {
    /// The text shown for this error.
    pub fn message(&self) -> (s: String)
        ensures
            s@ == vault_error_text(*self),
    {
        match self {
            VaultError::Serialization(m) => {
                let mut s = "vault serialization failed: ".to_string();
                s.append(m.as_str());
                s
            },
            VaultError::Deserialization(m) => {
                let mut s = "vault deserialization failed: ".to_string();
                s.append(m.as_str());
                s
            },
            VaultError::Unavailable => "vault unavailable".to_string(),
        }
    }
}

/// Where sync reads and writes: the configured folder, when sync is on.
pub open spec fn sync_target(s: AppSettings) -> Result<Seq<char>, Seq<char>> {
    if !s.sync_enabled {
        Err("Sync is disabled in Settings."@)
    } else {
        match s.sync_folder {
            None => Err("Choose a local sync folder in Settings first."@),
            Some(f) => Ok(f@),
        }
    }
}

/// The sync folder, or why sync cannot run.
pub fn sync_folder_for(settings: &AppSettings) -> (r: Result<String, String>)
    ensures
        match r {
            Ok(f) => sync_target(*settings) == Ok::<Seq<char>, Seq<char>>(f@),
            Err(e) => sync_target(*settings) == Err::<Seq<char>, Seq<char>>(e@),
        },
        !settings.sync_enabled ==> (r matches Err(e) && e@ == "Sync is disabled in Settings."@),
        r matches Ok(f) ==> (settings.sync_enabled && (settings.sync_folder matches Some(g) && g@ == f@)),
{
    if !settings.sync_enabled {
        return Err("Sync is disabled in Settings.".to_string());
    }
    match &settings.sync_folder {
        None => Err("Choose a local sync folder in Settings first.".to_string()),
        Some(f) => Ok(f.clone()),
    }
}

/// The message refusing to overwrite a newer remote vault.
pub open spec fn conflict_text(remote: u64, local: u64) -> Seq<char> {
    "Sync conflict: remote revision "@ + decimal(remote as nat) + " is newer than local revision "@
        + decimal(local as nat) + "."@
}

/// The revision an upload is written at: one past the local revision. Refused
/// when the remote copy is newer than the local one.
pub fn next_sync_revision(local_revision: u64, remote_revision: Option<u64>) -> (r: Result<
    u64,
    String,
>)
    requires
        local_revision < u64::MAX,
    ensures
        match remote_revision {
            Some(remote) if remote > local_revision => r matches Err(e) && e@ == conflict_text(
                remote,
                local_revision,
            ),
            _ => r == Ok::<u64, String>((local_revision + 1) as u64),
        },
{
    if let Some(remote) = remote_revision {
        if remote > local_revision {
            let mut e = "Sync conflict: remote revision ".to_string();
            e.append(decimal_string(remote as u128).as_str());
            e.append(" is newer than local revision ");
            e.append(decimal_string(local_revision as u128).as_str());
            e.append(".");
            return Err(e);
        }
    }
    Ok(local_revision + 1)
}

} // verus!
