//! Persistence of the settings and the encrypted vault, through the adapter of
//! the current platform. The desktop's own file access is the action handed in
//! by the caller; its failures come back as `StorageError::Backend`.
use vstd::prelude::*;
use vstd::string::StringExecFns;
use crate::crypto::EncryptedBlob;
use crate::platform::PlatformAdapter;
use crate::settings::AppSettings;

verus! {

broadcast use vstd::string::group_string_axioms;

/// Why the storage layer failed.
#[derive(Debug, Clone)]
pub enum StorageError {
    Backend(String),
}

/// The text of a storage error.
pub open spec fn storage_error_text(e: StorageError) -> Seq<char> {
    match e {
        StorageError::Backend(m) => "storage backend error: "@ + m@,
    }
}

impl StorageError {
    /// The text shown for this error.
    pub fn message(&self) -> (s: String)
        ensures
            s@ == storage_error_text(*self),
    {
        match self {
            StorageError::Backend(m) => {
                let mut s = "storage backend error: ".to_string();
                s.append(m.as_str());
                s
            },
        }
    }
}

/// An adapter reply with its error text wrapped as a backend error.
pub open spec fn as_backend<T>(x: Result<T, String>) -> Result<T, StorageError> {
    match x {
        Ok(v) => Ok(v),
        Err(m) => Err(StorageError::Backend(m)),
    }
}

/// `r` is what the desktop action can return, with its error wrapped.
pub open spec fn relays<T, F: FnOnce() -> Result<T, String>>(
    desktop: F,
    r: Result<T, StorageError>,
) -> bool {
    exists|x: Result<T, String>| #[trigger] call_ensures(desktop, (), x) && r == as_backend(x)
}

fn backend<T>(x: Result<T, String>) -> (r: Result<T, StorageError>)
    ensures
        r == as_backend(x),
{
    match x {
        Ok(v) => Ok(v),
        Err(m) => Err(StorageError::Backend(m)),
    }
}

/// Loads the settings of the current platform.
pub fn load_settings(desktop: impl FnOnce() -> Result<AppSettings, String>) -> (r: Result<
    AppSettings,
    StorageError,
>)
    requires
        call_requires(desktop, ()),
    ensures
        relays(desktop, r),
{
    let adapter = PlatformAdapter::current();
    let x = adapter.load_settings(desktop);
    backend(x)
}

/// Saves the settings on the current platform.
pub fn save_settings(desktop: impl FnOnce() -> Result<(), String>) -> (r: Result<(), StorageError>)
    requires
        call_requires(desktop, ()),
    ensures
        relays(desktop, r),
{
    let adapter = PlatformAdapter::current();
    let x = adapter.save_settings(desktop);
    backend(x)
}

/// Loads the encrypted vault of the current platform, if one was saved.
pub fn load_encrypted(desktop: impl FnOnce() -> Result<Option<EncryptedBlob>, String>) -> (r: Result<
    Option<EncryptedBlob>,
    StorageError,
>)
    requires
        call_requires(desktop, ()),
    ensures
        relays(desktop, r),
{
    let adapter = PlatformAdapter::current();
    let x = adapter.load_vault(desktop);
    backend(x)
}

/// Saves the encrypted vault on the current platform.
pub fn save_encrypted(desktop: impl FnOnce() -> Result<(), String>) -> (r: Result<(), StorageError>)
    requires
        call_requires(desktop, ()),
    ensures
        relays(desktop, r),
{
    let adapter = PlatformAdapter::current();
    let x = adapter.save_vault(desktop);
    backend(x)
}

/// Writes an encrypted backup on the current platform and returns its path.
pub fn save_encrypted_backup(
    blob: &EncryptedBlob,
    desktop: impl FnOnce() -> Result<String, String>,
) -> (r: Result<String, StorageError>)
    requires
        call_requires(desktop, ()),
    ensures
        relays(desktop, r),
{
    let adapter = PlatformAdapter::current();
    let x = adapter.save_encrypted_backup(blob, desktop);
    backend(x)
}

} // verus!
