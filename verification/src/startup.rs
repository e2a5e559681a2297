//! Startup: before the first screen, a vault saved before vault profiles
//! existed is taken into the profile list, and the default vault is repaired.
//! The steps alternate with storage work, so the decisions form a step
//! function: from the current phase and what the last action gave, to the
//! next phase and the next action.
use vstd::prelude::*;
use vstd::string::StringExecFns;
use crate::crypto::EncryptedBlob;
use crate::ids::uuid_text;
use crate::settings::{AppSettings, default_is_valid, has_profile, profile_views, same_preferences};
use crate::storage::{StorageError, storage_error_text};

verus! {

broadcast use vstd::string::group_string_axioms;

/// The screen the application opens on.
#[derive(Debug, Clone, Copy, PartialEq, Eq, Structural)]
pub enum Screen {
    SelectVault,
    CreateMaster,
}

/// Where startup stands.
#[derive(Debug, Clone, Copy, PartialEq, Eq, Structural)]
pub enum StartupPhase {
    Start,
    LoadingLegacy,
    Migrating,
    SavingDefault,
    Done,
}

/// What the caller reports back.
pub enum StartupEvent {
    /// Startup begins (with the settings given to `Startup::new`).
    Begin,
    /// The vault saved without a profile, as loaded.
    LegacyLoaded(Result<Option<EncryptedBlob>, StorageError>),
    /// Saving what the last action asked to save.
    Saved(Result<(), StorageError>),
}

/// What the caller does next.
pub enum StartupAction {
    /// Load the vault saved without a profile.
    LoadLegacyVault,
    /// Save the blob as the vault with this id, then save the settings.
    SaveMigrated(String, EncryptedBlob),
    /// Save the settings.
    SaveSettings,
    /// Show the screen, with the error message if there is one.
    Show(Screen, Option<String>),
}

/// The state of startup: its phase and the settings as they now stand.
pub struct Startup {
    pub phase: StartupPhase,
    pub settings: AppSettings,
}

/// The events each phase waits for.
pub open spec fn expects(phase: StartupPhase, event: StartupEvent) -> bool {
    match phase {
        StartupPhase::Start => event is Begin,
        StartupPhase::LoadingLegacy => event is LegacyLoaded,
        StartupPhase::Migrating | StartupPhase::SavingDefault => event is Saved,
        StartupPhase::Done => false,
    }
}

/// `a` shows `screen` with the message `text` (none when `text` is none).
pub open spec fn shows(a: StartupAction, screen: Screen, text: Option<Seq<char>>) -> bool {
    a matches StartupAction::Show(s, m) && s == screen && match text {
        None => m is None,
        Some(t) => m matches Some(x) && x@ == t,
    }
}

/// After the profiles exist: a default vault that names no profile is
/// repaired (it becomes the active vault when that is a profile, else the
/// first profile, else none) and the settings are saved; a valid default
/// leads straight to the vault list.
pub open spec fn repair_step(before: AppSettings, after: Startup, a: StartupAction) -> bool {
    &&& after.settings.vaults@ == before.vaults@
    &&& after.settings.active_vault_id == before.active_vault_id
    &&& same_preferences(after.settings, before)
    &&& (before.vaults@.len() > 0 ==> default_is_valid(after.settings))
    &&& if default_is_valid(before) {
        &&& after.settings.default_vault_id == before.default_vault_id
        &&& after.phase == StartupPhase::Done
        &&& shows(a, Screen::SelectVault, None)
    } else {
        &&& after.phase == StartupPhase::SavingDefault
        &&& a is SaveSettings
        &&& match before.active_vault_id {
            Some(x) if has_profile(before.vaults@, x@) => after.settings.default_vault_id
                matches Some(d) && d@ == x@,
            _ => if before.vaults@.len() > 0 {
                after.settings.default_vault_id matches Some(d) && d@ == before.vaults@[0].id@
            } else {
                after.settings.default_vault_id is None
            },
        }
    }
}

/// The vault saved without a profile becomes a profile "Primary" with a
/// fresh id, made active and default, and is to be saved under that id.
pub open spec fn migrate_step(before: AppSettings, after: Startup, a: StartupAction, blob: EncryptedBlob) -> bool {
    &&& after.phase == StartupPhase::Migrating
    &&& same_preferences(after.settings, before)
    &&& a matches StartupAction::SaveMigrated(id, b) && {
        &&& b == blob
        &&& exists|u: u128| id@ == uuid_text(u)
        &&& profile_views(after.settings.vaults@) == profile_views(before.vaults@).push((id@, "Primary"@))
        &&& after.settings.active_vault_id matches Some(x) && x@ == id@
        &&& after.settings.default_vault_id matches Some(d) && d@ == id@
    }
}

fn text_with(prefix: &str, e: &StorageError) -> (m: String)
    ensures
        m@ == prefix@ + storage_error_text(*e),
{
    let mut m = prefix.to_string();
    m.append(e.message().as_str());
    m
}

impl Startup {
    /// Startup with the settings as loaded (the initial settings when none
    /// could be loaded).
    pub fn new(settings: AppSettings) -> (s: Self)
        ensures
            s.phase == StartupPhase::Start,
            s.settings == settings,
    {
        Startup { phase: StartupPhase::Start, settings }
    }

    fn repair(&mut self) -> (a: StartupAction)
        ensures
            repair_step(old(self).settings, *final(self), a),
    {
        if self.settings.repair_default_vault() {
            self.phase = StartupPhase::SavingDefault;
            StartupAction::SaveSettings
        } else {
            self.phase = StartupPhase::Done;
            StartupAction::Show(Screen::SelectVault, None)
        }
    }

    /// One step of startup.
    pub fn step(&mut self, event: StartupEvent) -> (a: StartupAction)
        requires
            expects(old(self).phase, event),
        ensures
            match event {
                StartupEvent::Begin => if old(self).settings.vaults@.len() == 0 {
                    &&& final(self).phase == StartupPhase::LoadingLegacy
                    &&& final(self).settings == old(self).settings
                    &&& a is LoadLegacyVault
                } else {
                    repair_step(old(self).settings, *final(self), a)
                },
                StartupEvent::LegacyLoaded(loaded) => match loaded {
                    Ok(Some(blob)) => migrate_step(old(self).settings, *final(self), a, blob),
                    Ok(None) => {
                        &&& final(self).phase == StartupPhase::Done
                        &&& final(self).settings == old(self).settings
                        &&& shows(a, Screen::CreateMaster, None)
                    },
                    Err(e) => {
                        &&& final(self).phase == StartupPhase::Done
                        &&& final(self).settings == old(self).settings
                        &&& shows(a, Screen::CreateMaster, Some("Storage error: "@ + storage_error_text(e)))
                    },
                },
                StartupEvent::Saved(saved) => match old(self).phase {
                    StartupPhase::Migrating => match saved {
                        Ok(()) => repair_step(old(self).settings, *final(self), a),
                        Err(e) => {
                            &&& final(self).phase == StartupPhase::Done
                            &&& final(self).settings == old(self).settings
                            &&& shows(
                                a,
                                Screen::CreateMaster,
                                Some("Failed to migrate the existing vault: "@ + storage_error_text(e)),
                            )
                        },
                    },
                    _ => {
                        &&& final(self).phase == StartupPhase::Done
                        &&& final(self).settings == old(self).settings
                        &&& match saved {
                            Ok(()) => shows(a, Screen::SelectVault, None),
                            Err(e) => shows(
                                a,
                                Screen::SelectVault,
                                Some("Failed to save the default vault: "@ + storage_error_text(e)),
                            ),
                        }
                    },
                },
            },
    {
        match event {
            StartupEvent::Begin => {
                if self.settings.vaults.len() == 0 {
                    self.phase = StartupPhase::LoadingLegacy;
                    StartupAction::LoadLegacyVault
                } else {
                    self.repair()
                }
            },
            StartupEvent::LegacyLoaded(loaded) => match loaded {
                Ok(Some(blob)) => {
                    let id = self.settings.adopt_legacy_vault();
                    self.phase = StartupPhase::Migrating;
                    StartupAction::SaveMigrated(id, blob)
                },
                Ok(None) => {
                    self.phase = StartupPhase::Done;
                    StartupAction::Show(Screen::CreateMaster, None)
                },
                Err(e) => {
                    self.phase = StartupPhase::Done;
                    StartupAction::Show(Screen::CreateMaster, Some(text_with("Storage error: ", &e)))
                },
            },
            StartupEvent::Saved(saved) => {
                if self.phase == StartupPhase::Migrating {
                    match saved {
                        Ok(()) => self.repair(),
                        Err(e) => {
                            self.phase = StartupPhase::Done;
                            StartupAction::Show(
                                Screen::CreateMaster,
                                Some(text_with("Failed to migrate the existing vault: ", &e)),
                            )
                        },
                    }
                } else {
                    self.phase = StartupPhase::Done;
                    match saved {
                        Ok(()) => StartupAction::Show(Screen::SelectVault, None),
                        Err(e) => StartupAction::Show(
                            Screen::SelectVault,
                            Some(text_with("Failed to save the default vault: ", &e)),
                        ),
                    }
                }
            },
        }
    }
}

} // verus!
