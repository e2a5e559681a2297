# JPass

A password vault whose logic is specified and proved with Verus.

- `src/` is the verified library: the vault model with nested folders
  (`model`, `folder_tree`, `search`, `editing`), the encryption pipeline (`crypto`:
  Argon2id key derivation, AES-256-GCM, Base64 fields, with the older key
  costs still accepted), the password generator (`password_gen`), settings,
  vault profiles, the settings form, backup validation and sync revisions
  (`settings`, `settings_form`, `session`), the startup steps (`startup`), toast countdowns
  that clear the clipboard (`toast`), the platform adapter and the mobile
  stubs (`platform`, `storage`), and the desktop's file naming and I/O
  outcome rules (`desktop`). Properties that relate several operations are
  proved in `laws`.
- The calls into `argon2`, `aes-gcm`, `base64`, `rand`, `uuid`, `chrono` and
  `zeroize` stand behind small trusted wrappers whose contracts state what
  those crates document.
- `app/` is the command-line program around the library: JSON records
  (serde), SQLite and file access, per-user directories, the clipboard and
  the native file pickers.
- `tests/` exercises the library with the real outside crates linked.
