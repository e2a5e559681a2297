//! Platform contracts (storage, clipboard, paths, backups), the mobile stubs,
//! and the adapter that routes each request to the current platform.
use vstd::prelude::*;
use vstd::string::StringExecFns;
use crate::crypto::EncryptedBlob;
use crate::settings::{AppSettings, is_initial_settings};

verus! {

broadcast use vstd::string::group_string_axioms;

/// Why a platform service failed.
#[derive(Debug, Clone)]
pub enum PlatformError {
    Storage(String),
    Clipboard(String),
    Path(String),
}

/// The text of a platform error.
pub open spec fn platform_error_text(e: PlatformError) -> Seq<char> {
    match e {
        PlatformError::Storage(m) => "platform storage error: "@ + m@,
        PlatformError::Clipboard(m) => "platform clipboard error: "@ + m@,
        PlatformError::Path(m) => "path resolution error: "@ + m@,
    }
}

impl PlatformError {
    /// The text shown for this error.
    pub fn message(&self) -> (s: String)
        ensures
            s@ == platform_error_text(*self),
    {
        let (prefix, m) = match self {
            PlatformError::Storage(m) => ("platform storage error: ", m),
            PlatformError::Clipboard(m) => ("platform clipboard error: ", m),
            PlatformError::Path(m) => ("path resolution error: ", m),
        };
        let mut s = prefix.to_string();
        s.append(m.as_str());
        s
    }
}

/// Where the encrypted vault and the settings are kept.
pub trait VaultStore {
    type Error;

    fn load_vault(&self) -> Result<Option<EncryptedBlob>, Self::Error>;

    fn save_vault(&self, blob: &EncryptedBlob) -> Result<(), Self::Error>;

    fn load_settings(&self) -> Result<AppSettings, Self::Error>;

    fn save_settings(&self, settings: &AppSettings) -> Result<(), Self::Error>;
}

/// The system clipboard.
pub trait ClipboardService {
    type Error;

    fn copy_text(&self, text: &str) -> Result<(), Self::Error>;

    fn clear(&self) -> Result<(), Self::Error>;
}

/// Where the platform keeps application data and configuration.
pub trait PlatformPaths {
    type Error;

    fn data_dir(&self) -> Result<String, Self::Error>;

    fn config_dir(&self) -> Result<String, Self::Error>;
}

/// Encrypted backups of the vault.
pub trait BackupService {
    type Error;

    fn save_encrypted_backup(&self, blob: &EncryptedBlob) -> Result<String, Self::Error>;

    fn load_encrypted_backup(&self, path: &str) -> Result<EncryptedBlob, Self::Error>;
}

/// Everything a platform provides.
pub trait PlatformServices: VaultStore + ClipboardService + PlatformPaths {

}

/// The Android platform, whose native bindings are not written yet.
pub struct AndroidStore;

/// The iOS platform, whose native bindings are not written yet.
pub struct IosStore;

/// The Android platform services.
pub fn android_store() -> (s: AndroidStore) {
    AndroidStore
}

/// The iOS platform services.
pub fn ios_store() -> (s: IosStore) {
    IosStore
}

/// A storage error with the given text.
pub open spec fn storage_failure(e: PlatformError, text: Seq<char>) -> bool {
    e matches PlatformError::Storage(m) && m@ == text
}

/// A clipboard error with the given text.
pub open spec fn clipboard_failure(e: PlatformError, text: Seq<char>) -> bool {
    e matches PlatformError::Clipboard(m) && m@ == text
}

pub open spec fn android_storage_text() -> Seq<char> {
    "Android storage not implemented yet; use Android app-private storage or Keystore-backed persistence"@
}

pub open spec fn ios_storage_text() -> Seq<char> {
    "iOS storage not implemented yet; use Keychain or app sandbox persistence"@
}

impl VaultStore for AndroidStore {
    type Error = PlatformError;

    fn load_vault(&self) -> (r: Result<Option<EncryptedBlob>, PlatformError>)
        ensures
            r matches Err(e) && storage_failure(e, android_storage_text()),
    {
        Err(
            PlatformError::Storage(
                "Android storage not implemented yet; use Android app-private storage or Keystore-backed persistence".to_string(),
            ),
        )
    }

    fn save_vault(&self, _blob: &EncryptedBlob) -> (r: Result<(), PlatformError>)
        ensures
            r matches Err(e) && storage_failure(e, android_storage_text()),
    {
        Err(
            PlatformError::Storage(
                "Android storage not implemented yet; use Android app-private storage or Keystore-backed persistence".to_string(),
            ),
        )
    }

    fn load_settings(&self) -> (r: Result<AppSettings, PlatformError>)
        ensures
            r matches Ok(s) && is_initial_settings(s),
    {
        Ok(AppSettings::default())
    }

    fn save_settings(&self, _settings: &AppSettings) -> (r: Result<(), PlatformError>)
        ensures
            r is Ok,
    {
        Ok(())
    }
}

impl ClipboardService for AndroidStore {
    type Error = PlatformError;

    fn copy_text(&self, _text: &str) -> (r: Result<(), PlatformError>)
        ensures
            r matches Err(e) && clipboard_failure(
                e,
                "Android clipboard integration requires the Android runtime binding"@,
            ),
    {
        Err(
            PlatformError::Clipboard(
                "Android clipboard integration requires the Android runtime binding".to_string(),
            ),
        )
    }

    fn clear(&self) -> (r: Result<(), PlatformError>)
        ensures
            r matches Err(e) && clipboard_failure(
                e,
                "Android clipboard clear requires the Android runtime binding"@,
            ),
    {
        Err(
            PlatformError::Clipboard(
                "Android clipboard clear requires the Android runtime binding".to_string(),
            ),
        )
    }
}

impl BackupService for AndroidStore {
    type Error = PlatformError;

    fn save_encrypted_backup(&self, _blob: &EncryptedBlob) -> (r: Result<String, PlatformError>)
        ensures
            r matches Err(e) && storage_failure(
                e,
                "Android backup destination requires the native file picker binding"@,
            ),
    {
        Err(
            PlatformError::Storage(
                "Android backup destination requires the native file picker binding".to_string(),
            ),
        )
    }

    fn load_encrypted_backup(&self, _path: &str) -> (r: Result<EncryptedBlob, PlatformError>)
        ensures
            r matches Err(e) && storage_failure(
                e,
                "Android backup loading requires the native file picker binding"@,
            ),
    {
        Err(
            PlatformError::Storage(
                "Android backup loading requires the native file picker binding".to_string(),
            ),
        )
    }
}

impl PlatformPaths for AndroidStore {
    type Error = PlatformError;

    fn data_dir(&self) -> (r: Result<String, PlatformError>)
        ensures
            r matches Ok(p) && p@ == "/data/data/jpass"@,
    {
        Ok("/data/data/jpass".to_string())
    }

    fn config_dir(&self) -> (r: Result<String, PlatformError>)
        ensures
            r matches Ok(p) && p@ == "/data/data/jpass"@,
    {
        Ok("/data/data/jpass".to_string())
    }
}

impl VaultStore for IosStore {
    type Error = PlatformError;

    fn load_vault(&self) -> (r: Result<Option<EncryptedBlob>, PlatformError>)
        ensures
            r matches Err(e) && storage_failure(e, ios_storage_text()),
    {
        Err(
            PlatformError::Storage(
                "iOS storage not implemented yet; use Keychain or app sandbox persistence".to_string(),
            ),
        )
    }

    fn save_vault(&self, _blob: &EncryptedBlob) -> (r: Result<(), PlatformError>)
        ensures
            r matches Err(e) && storage_failure(e, ios_storage_text()),
    {
        Err(
            PlatformError::Storage(
                "iOS storage not implemented yet; use Keychain or app sandbox persistence".to_string(),
            ),
        )
    }

    fn load_settings(&self) -> (r: Result<AppSettings, PlatformError>)
        ensures
            r matches Ok(s) && is_initial_settings(s),
    {
        Ok(AppSettings::default())
    }

    fn save_settings(&self, _settings: &AppSettings) -> (r: Result<(), PlatformError>)
        ensures
            r is Ok,
    {
        Ok(())
    }
}

impl ClipboardService for IosStore {
    type Error = PlatformError;

    fn copy_text(&self, _text: &str) -> (r: Result<(), PlatformError>)
        ensures
            r matches Err(e) && clipboard_failure(
                e,
                "iOS clipboard integration requires the iOS runtime binding"@,
            ),
    {
        Err(
            PlatformError::Clipboard(
                "iOS clipboard integration requires the iOS runtime binding".to_string(),
            ),
        )
    }

    fn clear(&self) -> (r: Result<(), PlatformError>)
        ensures
            r matches Err(e) && clipboard_failure(
                e,
                "iOS clipboard clear requires the iOS runtime binding"@,
            ),
    {
        Err(
            PlatformError::Clipboard(
                "iOS clipboard clear requires the iOS runtime binding".to_string(),
            ),
        )
    }
}

impl BackupService for IosStore {
    type Error = PlatformError;

    fn save_encrypted_backup(&self, _blob: &EncryptedBlob) -> (r: Result<String, PlatformError>)
        ensures
            r matches Err(e) && storage_failure(
                e,
                "iOS backup destination requires the native document picker binding"@,
            ),
    {
        Err(
            PlatformError::Storage(
                "iOS backup destination requires the native document picker binding".to_string(),
            ),
        )
    }

    fn load_encrypted_backup(&self, _path: &str) -> (r: Result<EncryptedBlob, PlatformError>)
        ensures
            r matches Err(e) && storage_failure(
                e,
                "iOS backup loading requires the native document picker binding"@,
            ),
    {
        Err(
            PlatformError::Storage(
                "iOS backup loading requires the native document picker binding".to_string(),
            ),
        )
    }
}

impl PlatformPaths for IosStore {
    type Error = PlatformError;

    fn data_dir(&self) -> (r: Result<String, PlatformError>)
        ensures
            r matches Ok(p) && p@ == "~/Library/Application Support/JPass"@,
    {
        Ok("~/Library/Application Support/JPass".to_string())
    }

    fn config_dir(&self) -> (r: Result<String, PlatformError>)
        ensures
            r matches Ok(p) && p@ == "~/Library/Application Support/JPass"@,
    {
        Ok("~/Library/Application Support/JPass".to_string())
    }
}

/// The platforms JPass knows.
#[derive(Debug, Clone, Copy, PartialEq, Eq, Structural)]
pub enum PlatformKind {
    Desktop,
    Android,
    Ios,
    Web,
}

/// Routes storage, backup and clipboard requests to the current platform.
#[derive(Clone, Copy)]
pub struct PlatformAdapter {
    kind: PlatformKind,
}

/// The reply of the web adapter, which has no backend yet.
pub open spec fn web_text() -> Seq<char> {
    "Web adapter not implemented in this repo yet"@
}

/// A platform error turned into the adapter's text.
fn error_text<T>(r: Result<T, PlatformError>) -> (out: Result<T, String>)
    ensures
        match r {
            Ok(v) => out == Ok::<T, String>(v),
            Err(e) => out matches Err(m) && m@ == platform_error_text(e),
        },
{
    match r {
        Ok(v) => Ok(v),
        Err(e) => Err(e.message()),
    }
}

impl PlatformAdapter {
    /// The adapter of the running build (the desktop).
    pub fn current() -> (a: Self)
        ensures
            a.platform() == PlatformKind::Desktop,
    {
        Self { kind: PlatformKind::Desktop }
    }

    /// The platform requests go to.
    pub fn kind(&self) -> (k: PlatformKind)
        ensures
            k == self.platform(),
    {
        self.kind
    }

    /// The platform this adapter routes to.
    pub closed spec fn platform(&self) -> PlatformKind {
        self.kind
    }

    /// Loads the encrypted vault: from `desktop` on the desktop; the stubs
    /// refuse.
    pub fn load_vault(
        &self,
        desktop: impl FnOnce() -> Result<Option<EncryptedBlob>, String>,
    ) -> (r: Result<Option<EncryptedBlob>, String>)
        requires
            self.platform() == PlatformKind::Desktop ==> call_requires(desktop, ()),
        ensures
            match self.platform() {
                PlatformKind::Desktop => call_ensures(desktop, (), r),
                PlatformKind::Android => r matches Err(m) && m@ == "platform storage error: "@
                    + android_storage_text(),
                PlatformKind::Ios => r matches Err(m) && m@ == "platform storage error: "@
                    + ios_storage_text(),
                PlatformKind::Web => r matches Err(m) && m@ == web_text(),
            },
    {
        match self.kind {
            PlatformKind::Desktop => desktop(),
            PlatformKind::Android => error_text(android_store().load_vault()),
            PlatformKind::Ios => error_text(ios_store().load_vault()),
            PlatformKind::Web => Err("Web adapter not implemented in this repo yet".to_string()),
        }
    }

    /// Saves the encrypted vault: through `desktop` on the desktop; the stubs
    /// refuse.
    pub fn save_vault(&self, desktop: impl FnOnce() -> Result<(), String>) -> (r: Result<(), String>)
        requires
            self.platform() == PlatformKind::Desktop ==> call_requires(desktop, ()),
        ensures
            match self.platform() {
                PlatformKind::Desktop => call_ensures(desktop, (), r),
                PlatformKind::Android => r matches Err(m) && m@ == "platform storage error: "@
                    + android_storage_text(),
                PlatformKind::Ios => r matches Err(m) && m@ == "platform storage error: "@
                    + ios_storage_text(),
                PlatformKind::Web => r matches Err(m) && m@ == web_text(),
            },
    {
        match self.kind {
            PlatformKind::Desktop => desktop(),
            PlatformKind::Android => {
                let blob = EncryptedBlob {
                    salt: String::new(),
                    nonce: String::new(),
                    ciphertext: String::new(),
                    vault_id: None,
                    vault_name: None,
                };
                error_text(android_store().save_vault(&blob))
            },
            PlatformKind::Ios => {
                let blob = EncryptedBlob {
                    salt: String::new(),
                    nonce: String::new(),
                    ciphertext: String::new(),
                    vault_id: None,
                    vault_name: None,
                };
                error_text(ios_store().save_vault(&blob))
            },
            PlatformKind::Web => Err("Web adapter not implemented in this repo yet".to_string()),
        }
    }

    /// Writes an encrypted backup and returns where: through `desktop` on the
    /// desktop; the stubs refuse.
    pub fn save_encrypted_backup(
        &self,
        blob: &EncryptedBlob,
        desktop: impl FnOnce() -> Result<String, String>,
    ) -> (r: Result<String, String>)
        requires
            self.platform() == PlatformKind::Desktop ==> call_requires(desktop, ()),
        ensures
            match self.platform() {
                PlatformKind::Desktop => call_ensures(desktop, (), r),
                PlatformKind::Android => r matches Err(m) && m@ == "platform storage error: "@
                    + "Android backup destination requires the native file picker binding"@,
                PlatformKind::Ios => r matches Err(m) && m@ == "platform storage error: "@
                    + "iOS backup destination requires the native document picker binding"@,
                PlatformKind::Web => r matches Err(m) && m@
                    == "Web backup adapter not implemented in this repo yet"@,
            },
    {
        match self.kind {
            PlatformKind::Desktop => desktop(),
            PlatformKind::Android => error_text(android_store().save_encrypted_backup(blob)),
            PlatformKind::Ios => error_text(ios_store().save_encrypted_backup(blob)),
            PlatformKind::Web => Err("Web backup adapter not implemented in this repo yet".to_string()),
        }
    }

    /// Loads the settings: from `desktop` on the desktop; the stubs give the
    /// initial settings.
    pub fn load_settings(&self, desktop: impl FnOnce() -> Result<AppSettings, String>) -> (r: Result<
        AppSettings,
        String,
    >)
        requires
            self.platform() == PlatformKind::Desktop ==> call_requires(desktop, ()),
        ensures
            match self.platform() {
                PlatformKind::Desktop => call_ensures(desktop, (), r),
                PlatformKind::Android | PlatformKind::Ios => r matches Ok(s) && is_initial_settings(s),
                PlatformKind::Web => r matches Err(m) && m@ == web_text(),
            },
    {
        match self.kind {
            PlatformKind::Desktop => desktop(),
            PlatformKind::Android => error_text(android_store().load_settings()),
            PlatformKind::Ios => error_text(ios_store().load_settings()),
            PlatformKind::Web => Err("Web adapter not implemented in this repo yet".to_string()),
        }
    }

    /// Saves the settings: through `desktop` on the desktop; the stubs accept
    /// and keep nothing.
    pub fn save_settings(&self, desktop: impl FnOnce() -> Result<(), String>) -> (r: Result<(), String>)
        requires
            self.platform() == PlatformKind::Desktop ==> call_requires(desktop, ()),
        ensures
            match self.platform() {
                PlatformKind::Desktop => call_ensures(desktop, (), r),
                PlatformKind::Android | PlatformKind::Ios => r is Ok,
                PlatformKind::Web => r matches Err(m) && m@ == web_text(),
            },
    {
        match self.kind {
            PlatformKind::Desktop => desktop(),
            PlatformKind::Android | PlatformKind::Ios => Ok(()),
            PlatformKind::Web => Err("Web adapter not implemented in this repo yet".to_string()),
        }
    }

    /// Copies text to the clipboard: through `desktop` on the desktop; the
    /// stubs refuse.
    pub fn copy_text(&self, text: &str, desktop: impl FnOnce() -> Result<(), String>) -> (r: Result<
        (),
        String,
    >)
        requires
            self.platform() == PlatformKind::Desktop ==> call_requires(desktop, ()),
        ensures
            match self.platform() {
                PlatformKind::Desktop => call_ensures(desktop, (), r),
                PlatformKind::Android => r matches Err(m) && m@ == "platform clipboard error: "@
                    + "Android clipboard integration requires the Android runtime binding"@,
                PlatformKind::Ios => r matches Err(m) && m@ == "platform clipboard error: "@
                    + "iOS clipboard integration requires the iOS runtime binding"@,
                PlatformKind::Web => r matches Err(m) && m@ == web_text(),
            },
    {
        match self.kind {
            PlatformKind::Desktop => desktop(),
            PlatformKind::Android => error_text(android_store().copy_text(text)),
            PlatformKind::Ios => error_text(ios_store().copy_text(text)),
            PlatformKind::Web => Err("Web adapter not implemented in this repo yet".to_string()),
        }
    }

    /// Clears the clipboard: through `desktop` on the desktop; the stubs
    /// refuse.
    pub fn clear(&self, desktop: impl FnOnce() -> Result<(), String>) -> (r: Result<(), String>)
        requires
            self.platform() == PlatformKind::Desktop ==> call_requires(desktop, ()),
        ensures
            match self.platform() {
                PlatformKind::Desktop => call_ensures(desktop, (), r),
                PlatformKind::Android => r matches Err(m) && m@ == "platform clipboard error: "@
                    + "Android clipboard clear requires the Android runtime binding"@,
                PlatformKind::Ios => r matches Err(m) && m@ == "platform clipboard error: "@
                    + "iOS clipboard clear requires the iOS runtime binding"@,
                PlatformKind::Web => r matches Err(m) && m@ == web_text(),
            },
    {
        match self.kind {
            PlatformKind::Desktop => desktop(),
            PlatformKind::Android => error_text(android_store().clear()),
            PlatformKind::Ios => error_text(ios_store().clear()),
            PlatformKind::Web => Err("Web adapter not implemented in this repo yet".to_string()),
        }
    }
}

} // verus!
