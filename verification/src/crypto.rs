//! Encryption of the vault at rest.
//!
//! The vault (a JSON document) is encrypted as a single blob with AES-256-GCM.
//! The key is derived from the master password with Argon2id (version 0x13),
//! using a random 16-byte salt stored beside the ciphertext; the 12-byte nonce
//! is random as well. Salt, nonce and ciphertext are kept as standard Base64.
use vstd::prelude::*;
use vstd::string::StringSliceAdditionalSpecFns;
use aes_gcm::aead::{Aead, KeyInit};
use aes_gcm::{Aes256Gcm, Key, Nonce};
use argon2::{Algorithm, Argon2, Params, Version};
use base64::engine::general_purpose::STANDARD;
use base64::Engine;
use rand::rngs::OsRng;
use rand::RngCore;
use zeroize::Zeroize;

verus! {

pub const SALT_LEN: usize = 16;

pub const NONCE_LEN: usize = 12;

pub const KEY_LEN: usize = 32;

pub const ARGON2_MEMORY_KIB: u32 = 64 * 1024;

pub const ARGON2_TIME_COST: u32 = 3;

pub const ARGON2_PARALLELISM: u32 = 1;

pub const LEGACY_ARGON2_MEMORY_KIB: u32 = 19_456;

pub const LEGACY_ARGON2_TIME_COST: u32 = 2;

pub const LEGACY_ARGON2_PARALLELISM: u32 = 1;

/// Longest plaintext AES-GCM accepts, in bytes (2^36).
pub const GCM_MAX_PLAINTEXT: u64 = 0x10_0000_0000;

/// An encrypted vault: Base64 salt, nonce and ciphertext, and optionally the
/// vault it belongs to.
#[derive(Debug, Clone)]
pub struct EncryptedBlob {
    pub salt: String,
    pub nonce: String,
    pub ciphertext: String,
    pub vault_id: Option<String>,
    pub vault_name: Option<String>,
}

/// Why encryption or decryption failed.
#[derive(Debug, Clone, Copy, PartialEq, Eq, Structural)]
pub enum CryptoError {
    KeyDerivation,
    Encryption,
    Decryption,
}

impl CryptoError {
    /// The text shown for this error.
    pub fn message(&self) -> (s: String)
        ensures
            s@ == crypto_error_text(*self),
    {
        match self {
            CryptoError::KeyDerivation => "failed to derive key from password".to_string(),
            CryptoError::Encryption => "failed to encrypt data".to_string(),
            CryptoError::Decryption => "incorrect master password or corrupted vault".to_string(),
        }
    }
}

/// The text of each error.
pub open spec fn crypto_error_text(e: CryptoError) -> Seq<char> {
    match e {
        CryptoError::KeyDerivation => "failed to derive key from password"@,
        CryptoError::Encryption => "failed to encrypt data"@,
        CryptoError::Decryption => "incorrect master password or corrupted vault"@,
    }
}

#[verifier::external_type_specification]
#[verifier::external_body]
pub struct ExArgon2Error(argon2::Error);

#[verifier::external_type_specification]
#[verifier::external_body]
pub struct ExAeadError(aes_gcm::Error);

#[verifier::external_type_specification]
#[verifier::external_body]
pub struct ExDecodeError(base64::DecodeError);

/// The 32-byte Argon2id (version 0x13) output for a password and salt under
/// the given memory (KiB), time and parallelism costs.
pub uninterp spec fn argon2id_key(
    password: Seq<u8>,
    salt: Seq<u8>,
    memory_kib: u32,
    time_cost: u32,
    parallelism: u32,
) -> Seq<u8>;

/// The cost parameters that `argon2::Params::new` accepts.
pub open spec fn argon2_params_valid(memory_kib: u32, time_cost: u32, parallelism: u32) -> bool {
    &&& memory_kib >= 8
    &&& memory_kib >= parallelism * 8
    &&& time_cost >= 1
    &&& 1 <= parallelism <= 0xFF_FFFF
}

/// The password and salt lengths that `Argon2::hash_password_into` accepts.
pub open spec fn argon2_inputs_valid(password: Seq<u8>, salt: Seq<u8>) -> bool {
    &&& password.len() <= 0xFFFF_FFFF
    &&& 8 <= salt.len() <= 0xFFFF_FFFF
}

/// Argon2id key derivation: `argon2::Params::new` (with a 32-byte output),
/// `Argon2::new(Algorithm::Argon2id, Version::V0x13, ..)` and
/// `Argon2::hash_password_into`. The source shows it fails exactly when a cost
/// is out of range or the password or salt has a refused length; the key is
/// named by `argon2id_key`.
#[verifier::external_body]
fn argon2id_hash(
    password: &[u8],
    salt: &[u8],
    memory_kib: u32,
    time_cost: u32,
    parallelism: u32,
) -> (r: Result<[u8; 32], argon2::Error>)
    requires
        parallelism * 8 <= u32::MAX,
    ensures
        r is Ok <==> (argon2_params_valid(memory_kib, time_cost, parallelism)
            && argon2_inputs_valid(password@, salt@)),
        r matches Ok(key) ==> key@ == argon2id_key(password@, salt@, memory_kib, time_cost, parallelism),
{
    let params = Params::new(memory_kib, time_cost, parallelism, Some(32))?;
    let mut key = [0u8; 32];
    Argon2::new(Algorithm::Argon2id, Version::V0x13, params).hash_password_into(
        password,
        salt,
        &mut key,
    )?;
    Ok(key)
}

/// AES-256-GCM ciphertext (with its 16-byte tag appended) of a plaintext,
/// without associated data.
pub uninterp spec fn aes256gcm_seal(key: Seq<u8>, nonce: Seq<u8>, plaintext: Seq<u8>) -> Seq<u8>;

/// AES-256-GCM decryption: the plaintext when the tag authenticates, else `None`.
pub uninterp spec fn aes256gcm_open(key: Seq<u8>, nonce: Seq<u8>, ciphertext: Seq<u8>) -> Option<
    Seq<u8>,
>;

/// `Aes256Gcm::new` on the key, then `Aead::encrypt` with the nonce and no
/// associated data. The source refuses a plaintext longer than 2^36 bytes and
/// otherwise returns the ciphertext followed by the 16-byte tag; decrypting it
/// with the same key and nonce gives the plaintext back (the documented AEAD
/// round trip).
#[verifier::external_body]
fn aes256gcm_encrypt(key: &[u8], nonce: &[u8], plaintext: &[u8]) -> (r: Result<Vec<u8>, aes_gcm::Error>)
    requires
        key@.len() == 32,
        nonce@.len() == 12,
    ensures
        r is Ok <==> plaintext@.len() <= GCM_MAX_PLAINTEXT,
        r matches Ok(c) ==> {
            &&& c@ == aes256gcm_seal(key@, nonce@, plaintext@)
            &&& c@.len() == plaintext@.len() + 16
            &&& aes256gcm_open(key@, nonce@, c@) == Some(plaintext@)
        },
{
    let cipher = Aes256Gcm::new(Key::<Aes256Gcm>::from_slice(key));
    cipher.encrypt(Nonce::from_slice(nonce), plaintext)
}

/// `Aes256Gcm::new` on the key, then `Aead::decrypt` with the nonce and no
/// associated data; named by `aes256gcm_open`.
#[verifier::external_body]
fn aes256gcm_decrypt(key: &[u8], nonce: &[u8], ciphertext: &[u8]) -> (r: Result<
    Vec<u8>,
    aes_gcm::Error,
>)
    requires
        key@.len() == 32,
        nonce@.len() == 12,
    ensures
        match r {
            Ok(p) => aes256gcm_open(key@, nonce@, ciphertext@) == Some(p@),
            Err(_) => aes256gcm_open(key@, nonce@, ciphertext@) is None,
        },
{
    let cipher = Aes256Gcm::new(Key::<Aes256Gcm>::from_slice(key));
    cipher.decrypt(Nonce::from_slice(nonce), ciphertext)
}

/// Standard (padded) Base64 text of some bytes.
pub uninterp spec fn base64_encode(bytes: Seq<u8>) -> Seq<char>;

/// The bytes of standard Base64 text, or `None` when the text is not valid.
pub uninterp spec fn base64_decode(text: Seq<char>) -> Option<Seq<u8>>;

/// Length of the padded Base64 text of `n` bytes.
pub open spec fn base64_len(n: int) -> int {
    (n / 3) * 4 + if n % 3 > 0 {
        4int
    } else {
        0int
    }
}

/// `base64::engine::general_purpose::STANDARD.encode`. The source sizes the
/// output as `base64_len` (and panics when that overflows `usize`); the
/// crate's documented round trip decodes it back to the input.
#[verifier::external_body]
fn base64_encode_bytes(bytes: &[u8]) -> (s: String)
    requires
        base64_len(bytes@.len() as int) <= usize::MAX,
    ensures
        s@ == base64_encode(bytes@),
        s@.len() == base64_len(bytes@.len() as int),
        base64_decode(s@) == Some(bytes@),
{
    STANDARD.encode(bytes)
}

/// `base64::engine::general_purpose::STANDARD.decode`; named by `base64_decode`.
#[verifier::external_body]
fn base64_decode_text(text: &str) -> (r: Result<Vec<u8>, base64::DecodeError>)
    ensures
        match r {
            Ok(b) => base64_decode(text@) == Some(b@),
            Err(_) => base64_decode(text@) is None,
        },
{
    STANDARD.decode(text)
}

/// `rand::rngs::OsRng.fill_bytes`: fills the buffer with operating-system
/// randomness (it panics only when the operating system cannot supply any).
/// The bytes are random, so only the length is claimed.
#[verifier::external_body]
fn os_fill_bytes<const N: usize>(dest: &mut [u8; N])
    ensures
        final(dest)@.len() == N,
{
    OsRng.fill_bytes(dest)
}

/// `zeroize::Zeroize::zeroize` on a key: the source sets every byte to zero.
#[verifier::external_body]
fn zeroize_key(key: &mut [u8; 32])
    ensures
        final(key)@ == Seq::new(32, |i: int| 0u8),
{
    key.zeroize()
}

/// UTF-8 bytes of a password.
pub open spec fn password_bytes(password: &str) -> Seq<u8> {
    password.spec_bytes()
}

/// The outcome of deriving a key with the given costs.
pub open spec fn derived_key(
    password: Seq<u8>,
    salt: Seq<u8>,
    memory_kib: u32,
    time_cost: u32,
    parallelism: u32,
) -> Result<Seq<u8>, CryptoError> {
    if argon2_params_valid(memory_kib, time_cost, parallelism) && argon2_inputs_valid(
        password,
        salt,
    ) {
        Ok(argon2id_key(password, salt, memory_kib, time_cost, parallelism))
    } else {
        Err(CryptoError::KeyDerivation)
    }
}

/// The key for new vaults.
pub open spec fn current_key(password: Seq<u8>, salt: Seq<u8>) -> Seq<u8> {
    argon2id_key(password, salt, ARGON2_MEMORY_KIB, ARGON2_TIME_COST, ARGON2_PARALLELISM)
}

/// The key older vaults were written with.
pub open spec fn legacy_key(password: Seq<u8>, salt: Seq<u8>) -> Seq<u8> {
    argon2id_key(
        password,
        salt,
        LEGACY_ARGON2_MEMORY_KIB,
        LEGACY_ARGON2_TIME_COST,
        LEGACY_ARGON2_PARALLELISM,
    )
}

fn derive_key_with_params(
    password: &str,
    salt: &[u8],
    memory_kib: u32,
    time_cost: u32,
    parallelism: u32,
) -> (r: Result<[u8; 32], CryptoError>)
    requires
        parallelism * 8 <= u32::MAX,
    ensures
        match r {
            Ok(k) => derived_key(password_bytes(password), salt@, memory_kib, time_cost, parallelism)
                == Ok::<Seq<u8>, CryptoError>(k@),
            Err(e) => derived_key(password_bytes(password), salt@, memory_kib, time_cost, parallelism)
                == Err::<Seq<u8>, CryptoError>(e),
        },
{
    match argon2id_hash(password.as_bytes(), salt, memory_kib, time_cost, parallelism) {
        Ok(key) => Ok(key),
        Err(_) => Err(CryptoError::KeyDerivation),
    }
}

fn derive_key(password: &str, salt: &[u8]) -> (r: Result<[u8; 32], CryptoError>)
    ensures
        match r {
            Ok(k) => argon2_inputs_valid(password_bytes(password), salt@) && k@ == current_key(
                password_bytes(password),
                salt@,
            ) && k@ == argon2id_key(password_bytes(password), salt@, 65536, 3, 1),
            Err(e) => e == CryptoError::KeyDerivation && !argon2_inputs_valid(
                password_bytes(password),
                salt@,
            ),
        },
{
    derive_key_with_params(password, salt, ARGON2_MEMORY_KIB, ARGON2_TIME_COST, ARGON2_PARALLELISM)
}

/// What a blob with the given Base64 fields decrypts to under a password:
/// the fields must decode, the nonce must be 12 bytes, the key must derive,
/// and the ciphertext must authenticate under the current key or, failing
/// that, under the legacy key.
pub open spec fn decrypt_outcome(
    salt_text: Seq<char>,
    nonce_text: Seq<char>,
    ciphertext_text: Seq<char>,
    password: Seq<u8>,
) -> Result<Seq<u8>, CryptoError> {
    match (
        base64_decode(salt_text),
        base64_decode(nonce_text),
        base64_decode(ciphertext_text),
    ) {
        (Some(salt), Some(nonce), Some(ciphertext)) => {
            if nonce.len() != NONCE_LEN {
                Err(CryptoError::Decryption)
            } else if !argon2_inputs_valid(password, salt) {
                Err(CryptoError::KeyDerivation)
            } else {
                match aes256gcm_open(current_key(password, salt), nonce, ciphertext) {
                    Some(p) => Ok(p),
                    None => match aes256gcm_open(legacy_key(password, salt), nonce, ciphertext) {
                        Some(p) => Ok(p),
                        None => Err(CryptoError::Decryption),
                    },
                }
            }
        },
        _ => Err(CryptoError::Decryption),
    }
}

/// What `decrypt` gives for a blob and password.
pub open spec fn blob_decrypts_to(blob: EncryptedBlob, password: Seq<u8>) -> Result<
    Seq<u8>,
    CryptoError,
> {
    decrypt_outcome(blob.salt@, blob.nonce@, blob.ciphertext@, password)
}

/// The blob holds `plaintext` sealed under the current key for `password`
/// with this salt and nonce: its fields are the Base64 texts (none of them
/// empty, each as long as padded Base64 of its bytes is) of the salt, the
/// nonce and the sealed bytes, which are the plaintext followed by a 16-byte
/// tag.
pub open spec fn seals(
    blob: EncryptedBlob,
    plaintext: Seq<u8>,
    password: Seq<u8>,
    salt: Seq<u8>,
    nonce: Seq<u8>,
) -> bool {
    &&& salt.len() == SALT_LEN
    &&& nonce.len() == NONCE_LEN
    &&& blob.salt@ == base64_encode(salt)
    &&& blob.nonce@ == base64_encode(nonce)
    &&& blob.ciphertext@ == base64_encode(
        aes256gcm_seal(current_key(password, salt), nonce, plaintext),
    )
    &&& base64_decode(blob.salt@) == Some(salt)
    &&& base64_decode(blob.nonce@) == Some(nonce)
    &&& base64_decode(blob.ciphertext@) == Some(
        aes256gcm_seal(current_key(password, salt), nonce, plaintext),
    )
    &&& aes256gcm_seal(current_key(password, salt), nonce, plaintext).len() == plaintext.len() + 16
    &&& blob.salt@.len() == base64_len(SALT_LEN as int)
    &&& blob.nonce@.len() == base64_len(NONCE_LEN as int)
    &&& blob.ciphertext@.len() == base64_len(plaintext.len() + 16int)
    &&& blob.salt@.len() > 0
    &&& blob.nonce@.len() > 0
    &&& blob.ciphertext@.len() > 0
    &&& blob.vault_id is None
    &&& blob.vault_name is None
}

/// Encrypts `plaintext` under a key derived from `password`, with a fresh
/// random salt and nonce. Fails with `KeyDerivation` for a password longer
/// than 2^32 - 1 bytes and with `Encryption` for a plaintext longer than 2^36
/// bytes. Whatever succeeds decrypts back to the plaintext with the same
/// password.
pub fn encrypt(plaintext: &[u8], password: &str) -> (r: Result<EncryptedBlob, CryptoError>)
    requires
        base64_len(plaintext@.len() + 16int) <= usize::MAX,
    ensures
        r is Ok <==> password_bytes(password).len() <= 0xFFFF_FFFF && plaintext@.len()
            <= GCM_MAX_PLAINTEXT,
        r matches Err(e) ==> (e == CryptoError::KeyDerivation <==> password_bytes(password).len()
            > 0xFFFF_FFFF),
        r matches Err(e) ==> e != CryptoError::Decryption,
        r matches Ok(blob) ==> exists|salt: Seq<u8>, nonce: Seq<u8>|
            seals(blob, plaintext@, password_bytes(password), salt, nonce),
        r matches Ok(blob) ==> blob_decrypts_to(blob, password_bytes(password)) == Ok::<
            Seq<u8>,
            CryptoError,
        >(plaintext@),
{
    let mut salt = [0u8; SALT_LEN];
    os_fill_bytes(&mut salt);
    let mut nonce_bytes = [0u8; NONCE_LEN];
    os_fill_bytes(&mut nonce_bytes);

    let mut key_bytes = match derive_key(password, &salt) {
        Ok(k) => k,
        Err(e) => return Err(e),
    };
    let sealed = aes256gcm_encrypt(&key_bytes, &nonce_bytes, plaintext);
    let ghost key_view = key_bytes@;
    let ciphertext = match sealed {
        Ok(c) => c,
        Err(_) => return Err(CryptoError::Encryption),
    };
    zeroize_key(&mut key_bytes);

    let blob = EncryptedBlob {
        salt: base64_encode_bytes(&salt),
        nonce: base64_encode_bytes(&nonce_bytes),
        ciphertext: base64_encode_bytes(&ciphertext),
        vault_id: None,
        vault_name: None,
    };
    proof {
        assert(seals(blob, plaintext@, password_bytes(password), salt@, nonce_bytes@));
        assert(key_view == current_key(password_bytes(password), salt@));
    }
    Ok(blob)
}

/// Decrypts a blob produced by `encrypt` with `password`; blobs written with
/// the older Argon2 costs are accepted too.
pub fn decrypt(blob: &EncryptedBlob, password: &str) -> (r: Result<Vec<u8>, CryptoError>)
    ensures
        match r {
            Ok(p) => blob_decrypts_to(*blob, password_bytes(password)) == Ok::<
                Seq<u8>,
                CryptoError,
            >(p@),
            Err(e) => blob_decrypts_to(*blob, password_bytes(password)) == Err::<
                Seq<u8>,
                CryptoError,
            >(e),
        },
{
    let salt = match base64_decode_text(blob.salt.as_str()) {
        Ok(s) => s,
        Err(_) => return Err(CryptoError::Decryption),
    };
    let nonce_bytes = match base64_decode_text(blob.nonce.as_str()) {
        Ok(n) => n,
        Err(_) => return Err(CryptoError::Decryption),
    };
    let ciphertext = match base64_decode_text(blob.ciphertext.as_str()) {
        Ok(c) => c,
        Err(_) => return Err(CryptoError::Decryption),
    };
    if nonce_bytes.len() != NONCE_LEN {
        return Err(CryptoError::Decryption);
    }
    let mut key_bytes = match derive_key(password, salt.as_slice()) {
        Ok(k) => k,
        Err(e) => return Err(e),
    };
    let plaintext = aes256gcm_decrypt(&key_bytes, nonce_bytes.as_slice(), ciphertext.as_slice());
    zeroize_key(&mut key_bytes);
    if let Ok(plaintext) = plaintext {
        return Ok(plaintext);
    }
    // Older vaults used Argon2's default cost; they stay readable so that they
    // can be unlocked and saved again under the current cost.

    let mut legacy_key = match derive_key_with_params(
        password,
        salt.as_slice(),
        LEGACY_ARGON2_MEMORY_KIB,
        LEGACY_ARGON2_TIME_COST,
        LEGACY_ARGON2_PARALLELISM,
    ) {
        Ok(k) => k,
        Err(e) => return Err(e),
    };
    let plaintext = aes256gcm_decrypt(&legacy_key, nonce_bytes.as_slice(), ciphertext.as_slice());
    zeroize_key(&mut legacy_key);
    match plaintext {
        Ok(p) => Ok(p),
        Err(_) => Err(CryptoError::Decryption),
    }
}

} // verus!
