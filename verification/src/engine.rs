//! Key derivation and key wrapping: Argon2id, AES-256-GCM and base64, each
//! reached through one small trusted function, and the verified logic that
//! builds and opens a keyset with them.

use crate::error::LockError;
use crate::hex::KEY_LENGTH;
use crate::keyset::{Keyset, KeysetView, KEYSET_VERSION, NONCE_LENGTH, SALT_LENGTH};
use aes_gcm::aead::{Aead, KeyInit};
use aes_gcm::{Aes256Gcm, Nonce};
use argon2::password_hash::{PasswordHash, PasswordHasher, PasswordVerifier, SaltString};
use argon2::{Algorithm, Argon2, Params, Version};
use base64::engine::general_purpose::STANDARD;
use base64::Engine;
use rand::rngs::OsRng;
use rand::RngCore;
use vstd::prelude::*;
use vstd::string::{StrSliceExecFns, StringExecFns};

verus! {

/// The least number of code points in a passphrase.
pub const APP_LOCK_PASSPHRASE_MIN_LENGTH: usize = 8;

/// Argon2 passes over memory, for every keyset this library creates.
pub const KDF_ITERATIONS: u32 = 3;

/// Argon2 lanes, for every keyset this library creates.
pub const KDF_PARALLELISM: u32 = 1;

/// Number of bytes in the AES-GCM authentication tag.
pub const TAG_LENGTH: usize = 16;

/// The most lanes that Argon2 takes.
pub const MAX_PARALLELISM: u32 = 0xff_ffff;

/// A number of code points up to which a passphrase is sure to be within
/// the 2^32 - 1 bytes that Argon2 takes.
pub const MAX_PASSPHRASE_LENGTH: usize = 0x3fff_ffff;

/// The kind of device, which decides how much memory key derivation may use.
#[derive(Clone, Copy, Debug, PartialEq, Eq, Structural)]
pub enum Platform {
    Desktop,
    /// A phone or tablet.
    Mobile,
}

/// Argon2 cost parameters.
#[derive(Clone, Copy, Debug, PartialEq, Eq, Structural)]
pub struct KdfParams {
    pub memory_kib: u32,
    pub iterations: u32,
    pub parallelism: u32,
}

/// The cost parameters that Argon2 accepts for a 32-byte output: at least
/// eight KiB of memory and eight KiB per lane, at least one pass, and between
/// one and 2^24 - 1 lanes.
pub open spec fn kdf_params_valid(memory_kib: u32, iterations: u32, parallelism: u32) -> bool {
    &&& memory_kib >= 8
    &&& memory_kib as int >= 8 * parallelism as int
    &&& iterations >= 1
    &&& 1 <= parallelism <= MAX_PARALLELISM
}

/// Whether a parameter of a PHC text, if it is the lane count `p`, is
/// within Argon2's limit.
pub open spec fn lane_entry_ok(entry: (Seq<char>, Option<u32>)) -> bool {
    entry.0 == "p"@ ==> (entry.1 matches Some(lanes) ==> lanes <= MAX_PARALLELISM)
}

/// Whether every lane count written in a PHC text is within Argon2's limit.
pub open spec fn lanes_within_limit(entries: Seq<(Seq<char>, Option<u32>)>) -> bool {
    forall|i: int| 0 <= i < entries.len() ==> lane_entry_ok(#[trigger] entries[i])
}

/// The 32-byte Argon2id (version 0x13) output for a passphrase, a salt and
/// cost parameters, or `None` where Argon2 refuses them.
pub uninterp spec fn argon2id_key(
    passphrase: Seq<char>,
    salt: Seq<u8>,
    memory_kib: u32,
    iterations: u32,
    parallelism: u32,
) -> Option<Seq<u8>>;

/// The PHC text of the Argon2id (version 0x13) hash of a passphrase, or
/// `None` where Argon2 refuses the inputs.
pub uninterp spec fn argon2id_phc(
    passphrase: Seq<char>,
    salt: Seq<u8>,
    memory_kib: u32,
    iterations: u32,
    parallelism: u32,
) -> Option<Seq<char>>;

/// Whether a text parses as a PHC password hash.
pub uninterp spec fn phc_well_formed(hash: Seq<char>) -> bool;

/// The parameters of a well-formed PHC text in the order in which they are
/// written: each with its name and, where its value is a decimal that fits
/// 32 bits, that number.
pub uninterp spec fn phc_decimals(hash: Seq<char>) -> Seq<(Seq<char>, Option<u32>)>;

/// Whether a passphrase, hashed as a well-formed PHC text prescribes, gives
/// the output that the text holds.
pub uninterp spec fn phc_matches(hash: Seq<char>, passphrase: Seq<char>) -> bool;

/// Standard padded base64 of a byte string.
pub uninterp spec fn base64_text(bytes: Seq<u8>) -> Seq<char>;

/// The bytes that a standard padded base64 text stands for, or `None` where
/// the text is no such base64.
pub uninterp spec fn base64_bytes(text: Seq<char>) -> Option<Seq<u8>>;

/// AES-256-GCM ciphertext with its tag appended, without associated data;
/// `None` where the cipher refuses the plaintext.
pub uninterp spec fn aes256gcm_sealed(key: Seq<u8>, nonce: Seq<u8>, plaintext: Seq<u8>) -> Option<
    Seq<u8>,
>;

/// The plaintext of an AES-256-GCM ciphertext whose tag the key and nonce
/// authenticate; `None` for any other ciphertext.
pub uninterp spec fn aes256gcm_opened(key: Seq<u8>, nonce: Seq<u8>, ciphertext: Seq<u8>) -> Option<
    Seq<u8>,
>;

/// Calls `argon2::Argon2::hash_password_into` on an Argon2id, version 0x13
/// context made by `Argon2::new` from costs that `Params::new` accepts. The
/// contract names the output, so that the same inputs give the same key,
/// and claims that the call succeeds on every input that passes its length
/// tests: a passphrase of at most 2^32 - 1 bytes, which one of at most
/// 2^30 - 1 code points is, and a salt of 8 to 2^32 - 1 bytes. The call
/// allocates `memory_kib` KiB.
#[verifier::external_body]
fn argon2id_derive(
    passphrase: &str,
    salt: &[u8],
    memory_kib: u32,
    iterations: u32,
    parallelism: u32,
) -> (key: Option<[u8; KEY_LENGTH]>)
    requires
        kdf_params_valid(memory_kib, iterations, parallelism),
    ensures
        match key {
            Some(k) => argon2id_key(passphrase@, salt@, memory_kib, iterations, parallelism)
                == Some(k@),
            None => argon2id_key(passphrase@, salt@, memory_kib, iterations, parallelism) is None,
        },
        passphrase@.len() <= MAX_PASSPHRASE_LENGTH && 8 <= salt@.len() <= 0xffff_ffff
            ==> key is Some,
{
    let params = Params::new(memory_kib, iterations, parallelism, Some(KEY_LENGTH)).ok()?;
    let mut key = [0u8; KEY_LENGTH];
    Argon2::new(Algorithm::Argon2id, Version::V0x13, params)
        .hash_password_into(passphrase.as_bytes(), salt, &mut key)
        .ok()?;
    Some(key)
}

/// Calls `SaltString::encode_b64` on the salt and then
/// `PasswordHasher::hash_password` on an Argon2id, version 0x13 context, and
/// returns the hash as PHC text. The contract names the text and claims what
/// the crate documents of such a text: it parses, and the passphrase it was
/// made from verifies against it. It also claims that the only lane count
/// written in the text is `parallelism`, and that the call succeeds for a
/// passphrase of at most 2^30 - 1 code points.
#[verifier::external_body]
fn argon2id_hash(
    passphrase: &str,
    salt: &[u8; SALT_LENGTH],
    memory_kib: u32,
    iterations: u32,
    parallelism: u32,
) -> (hash: Option<String>)
    requires
        kdf_params_valid(memory_kib, iterations, parallelism),
    ensures
        match hash {
            Some(h) => {
                &&& argon2id_phc(passphrase@, salt@, memory_kib, iterations, parallelism)
                    == Some(h@)
                &&& phc_well_formed(h@)
                &&& lanes_within_limit(phc_decimals(h@))
                &&& phc_matches(h@, passphrase@)
            },
            None => argon2id_phc(passphrase@, salt@, memory_kib, iterations, parallelism) is None,
        },
        passphrase@.len() <= MAX_PASSPHRASE_LENGTH ==> hash is Some,
{
    let params = Params::new(memory_kib, iterations, parallelism, Some(KEY_LENGTH)).ok()?;
    let salt_string = SaltString::encode_b64(salt).ok()?;
    let hash = Argon2::new(Algorithm::Argon2id, Version::V0x13, params)
        .hash_password(passphrase.as_bytes(), &salt_string)
        .ok()?;
    Some(hash.to_string())
}

/// Calls `PasswordHash::new` and reports whether the text parsed.
#[verifier::external_body]
fn phc_parses(hash: &str) -> (ok: bool)
    ensures
        ok == phc_well_formed(hash@),
{
    PasswordHash::new(hash).is_ok()
}

/// Calls `PasswordHash::new`, walks the parsed parameters with
/// `ParamsString::iter` and reads each value with `Value::decimal`. The
/// contract names what comes out: every parameter of the text in order, with
/// its name and, where its value is a decimal, that number.
#[verifier::external_body]
fn phc_parameters(hash: &str) -> (entries: Vec<(String, Option<u32>)>)
    requires
        phc_well_formed(hash@),
    ensures
        entries@.len() == phc_decimals(hash@).len(),
        forall|i: int|
            0 <= i < entries@.len() ==> (#[trigger] entries@[i]).0@ == phc_decimals(hash@)[i].0
                && entries@[i].1 == phc_decimals(hash@)[i].1,
{
    match PasswordHash::new(hash) {
        Ok(parsed) => parsed
            .params
            .iter()
            .map(|(name, value)| (name.as_str().to_string(), value.decimal().ok()))
            .collect(),
        Err(_) => Vec::new(),
    }
}

/// Calls `PasswordVerifier::verify_password` on an Argon2id context for a
/// text that `PasswordHash::new` parses. The verifier hashes the passphrase
/// with the algorithm, version, costs and salt written in the text, so the
/// outcome depends on the text and the passphrase alone. It multiplies the
/// text's lane count by eight, so the caller keeps every lane count in the
/// text within Argon2's limit.
#[verifier::external_body]
fn argon2id_verify(
    hash: &str,
    passphrase: &str,
    memory_kib: u32,
    iterations: u32,
    parallelism: u32,
) -> (ok: bool)
    requires
        phc_well_formed(hash@),
        lanes_within_limit(phc_decimals(hash@)),
        kdf_params_valid(memory_kib, iterations, parallelism),
    ensures
        ok == phc_matches(hash@, passphrase@),
{
    match (
        PasswordHash::new(hash),
        Params::new(memory_kib, iterations, parallelism, Some(KEY_LENGTH)),
    ) {
        (Ok(parsed), Ok(params)) => Argon2::new(Algorithm::Argon2id, Version::V0x13, params)
            .verify_password(passphrase.as_bytes(), &parsed)
            .is_ok(),
        _ => false,
    }
}

/// Calls `Engine::encode` of base64's `STANDARD` engine. The contract names
/// the text and claims that decoding it gives the bytes back.
#[verifier::external_body]
fn base64_encode(bytes: &[u8]) -> (text: String)
    ensures
        text@ == base64_text(bytes@),
        base64_bytes(text@) == Some(bytes@),
{
    STANDARD.encode(bytes)
}

/// Calls `Engine::decode` of base64's `STANDARD` engine; `None` stands for
/// its error.
#[verifier::external_body]
fn base64_decode(text: &str) -> (bytes: Option<Vec<u8>>)
    ensures
        match bytes {
            Some(b) => base64_bytes(text@) == Some(b@),
            None => base64_bytes(text@) is None,
        },
{
    STANDARD.decode(text).ok()
}

/// Calls `Aes256Gcm::new_from_slice` and `Aead::encrypt`; `None` stands for
/// an error of either. The contract names the ciphertext and claims three
/// things of it: the same key and nonce open it to the plaintext; it is the
/// plaintext's length and a tag of sixteen bytes long; and a 32-byte key
/// with a plaintext of at most 2^36 bytes is never refused.
#[verifier::external_body]
fn aes256gcm_seal(key: &[u8; KEY_LENGTH], nonce: &[u8; NONCE_LENGTH], plaintext: &[u8]) -> (sealed:
    Option<Vec<u8>>)
    ensures
        match sealed {
            Some(c) => {
                &&& aes256gcm_sealed(key@, nonce@, plaintext@) == Some(c@)
                &&& aes256gcm_opened(key@, nonce@, c@) == Some(plaintext@)
                &&& c@.len() == plaintext@.len() + TAG_LENGTH
            },
            None => aes256gcm_sealed(key@, nonce@, plaintext@) is None,
        },
        plaintext@.len() <= 0x10_0000_0000 ==> sealed is Some,
{
    let cipher = Aes256Gcm::new_from_slice(key).ok()?;
    cipher.encrypt(Nonce::from_slice(nonce), plaintext).ok()
}

/// Calls `Aes256Gcm::new_from_slice` and `Aead::decrypt`; `None` stands for
/// an error of either, which for a 32-byte key is a failed authentication.
#[verifier::external_body]
fn aes256gcm_open(key: &[u8; KEY_LENGTH], nonce: &[u8; NONCE_LENGTH], ciphertext: &[u8]) -> (opened:
    Option<Vec<u8>>)
    ensures
        match opened {
            Some(p) => aes256gcm_opened(key@, nonce@, ciphertext@) == Some(p@),
            None => aes256gcm_opened(key@, nonce@, ciphertext@) is None,
        },
{
    let cipher = Aes256Gcm::new_from_slice(key).ok()?;
    cipher.decrypt(Nonce::from_slice(nonce), ciphertext).ok()
}

/// Calls `RngCore::try_fill_bytes` on `rand::rngs::OsRng`; `None` stands for
/// its error. Nothing is claimed of the bytes.
#[verifier::external_body]
pub(crate) fn random_bytes<const N: usize>() -> (bytes: Option<[u8; N]>) {
    let mut bytes = [0u8; N];
    match OsRng.try_fill_bytes(&mut bytes) {
        Ok(()) => Some(bytes),
        Err(_) => None,
    }
}

/// The memory cost for keysets created on a platform: 64 MiB on a desktop,
/// 32 MiB on a mobile device.
pub open spec fn platform_memory_kib(platform: Platform) -> u32 {
    match platform {
        Platform::Desktop => 65536,
        Platform::Mobile => 32768,
    }
}

/// The cost parameters for keysets created on a platform.
pub open spec fn platform_params(platform: Platform) -> KdfParams {
    KdfParams {
        memory_kib: platform_memory_kib(platform),
        iterations: KDF_ITERATIONS,
        parallelism: KDF_PARALLELISM,
    }
}

impl KdfParams {
    /// Whether Argon2 accepts these costs.
    pub open spec fn valid(&self) -> bool {
        kdf_params_valid(self.memory_kib, self.iterations, self.parallelism)
    }

    /// Whether Argon2 accepts these costs.
    pub fn is_valid(&self) -> (ok: bool)
        ensures
            ok == self.valid(),
    {
        self.memory_kib >= 8 && self.iterations >= 1 && self.parallelism >= 1 && self.parallelism
            <= MAX_PARALLELISM && self.memory_kib >= 8 * self.parallelism
    }
}

/// What a base64 field of exactly `n` bytes holds; `None` where the text is
/// no base64 or has another length.
pub open spec fn base64_sized(text: Seq<char>, n: int) -> Option<Seq<u8>> {
    match base64_bytes(text) {
        Some(bytes) => if bytes.len() == n {
            Some(bytes)
        } else {
            None
        },
        None => None,
    }
}

/// The key-encryption key for a passphrase, a salt and cost parameters.
pub open spec fn derived_kek(passphrase: Seq<char>, salt: Seq<u8>, params: KdfParams) -> Result<
    Seq<u8>,
    LockError,
> {
    if !params.valid() {
        Err(LockError::Kdf)
    } else {
        match argon2id_key(
            passphrase,
            salt,
            params.memory_kib,
            params.iterations,
            params.parallelism,
        ) {
            Some(key) => Ok(key),
            None => Err(LockError::Kdf),
        }
    }
}

/// The password hash, as PHC text, for a passphrase, a salt and cost
/// parameters.
pub open spec fn hashed_password(passphrase: Seq<char>, salt: Seq<u8>, params: KdfParams) -> Result<
    Seq<char>,
    LockError,
> {
    if !params.valid() {
        Err(LockError::Kdf)
    } else {
        match argon2id_phc(
            passphrase,
            salt,
            params.memory_kib,
            params.iterations,
            params.parallelism,
        ) {
            Some(hash) => Ok(hash),
            None => Err(LockError::Kdf),
        }
    }
}

/// The data key wrapped under a key-encryption key with a nonce.
pub open spec fn wrapped_dek(dek: Seq<u8>, kek: Seq<u8>, nonce: Seq<u8>) -> Result<
    Seq<u8>,
    LockError,
> {
    match aes256gcm_sealed(kek, nonce, dek) {
        Some(wrapped) => Ok(wrapped),
        None => Err(LockError::Cipher),
    }
}

/// The outcome of checking a passphrase against the hash stored in a
/// keyset. A hash that does not parse is a damaged record; costs that Argon2
/// refuses, in the keyset or in the hash text, are a derivation error.
pub open spec fn passphrase_check(keyset: KeysetView, passphrase: Seq<char>) -> Result<
    (),
    LockError,
> {
    if !phc_well_formed(keyset.password_hash) {
        Err(LockError::Codec)
    } else if !kdf_params_valid(keyset.memory_kib, keyset.iterations, keyset.parallelism) {
        Err(LockError::Kdf)
    } else if !lanes_within_limit(phc_decimals(keyset.password_hash)) {
        Err(LockError::Kdf)
    } else if !phc_matches(keyset.password_hash, passphrase) {
        Err(LockError::InvalidPassphrase)
    } else {
        Ok(())
    }
}

/// The outcome of opening a wrapped key with a key-encryption key: the
/// plaintext if the tag authenticates and it has the length of a key.
pub open spec fn opened_dek(kek: Seq<u8>, nonce: Seq<u8>, wrapped: Seq<u8>) -> Result<
    Seq<u8>,
    LockError,
> {
    match aes256gcm_opened(kek, nonce, wrapped) {
        Some(plain) => if plain.len() == KEY_LENGTH {
            Ok(plain)
        } else {
            Err(LockError::InvalidPassphrase)
        },
        None => Err(LockError::InvalidPassphrase),
    }
}

/// The outcome of opening a keyset with a passphrase: the data key, or the
/// first failure on the way to it. The key-encryption key is derived with
/// the costs stored in the keyset, never with those of the platform.
pub open spec fn unwrap_outcome(keyset: KeysetView, passphrase: Seq<char>) -> Result<
    Seq<u8>,
    LockError,
> {
    let params = KdfParams {
        memory_kib: keyset.memory_kib,
        iterations: keyset.iterations,
        parallelism: keyset.parallelism,
    };
    match passphrase_check(keyset, passphrase) {
        Err(e) => Err(e),
        Ok(_) => match base64_sized(keyset.salt_b64, SALT_LENGTH as int) {
            None => Err(LockError::Codec),
            Some(salt) => match derived_kek(passphrase, salt, params) {
                Err(e) => Err(e),
                Ok(kek) => match base64_bytes(keyset.wrapped_dek_b64) {
                    None => Err(LockError::Codec),
                    Some(wrapped) => match base64_sized(keyset.nonce_b64, NONCE_LENGTH as int) {
                        None => Err(LockError::Codec),
                        Some(nonce) => opened_dek(kek, nonce, wrapped),
                    },
                },
            },
        },
    }
}

/// The keyset that wraps `dek` under `passphrase`, or the first failure on
/// the way to it. `salt` is the salt of the key-encryption key and is stored
/// in the keyset; `hash_salt` is the salt of the password hash and is stored
/// inside the hash text. The two must differ, so that the stored hash is
/// not the key-encryption key.
pub open spec fn sealed_keyset(
    passphrase: Seq<char>,
    dek: Seq<u8>,
    salt: Seq<u8>,
    hash_salt: Seq<u8>,
    nonce: Seq<u8>,
    params: KdfParams,
) -> Result<KeysetView, LockError> {
    if salt == hash_salt {
        Err(LockError::RandomSource)
    } else {
        match hashed_password(passphrase, hash_salt, params) {
            Err(e) => Err(e),
            Ok(hash) => match derived_kek(passphrase, salt, params) {
                Err(e) => Err(e),
                Ok(kek) => match wrapped_dek(dek, kek, nonce) {
                    Err(e) => Err(e),
                    Ok(wrapped) => Ok(
                        KeysetView {
                            version: KEYSET_VERSION,
                            password_hash: hash,
                            salt_b64: base64_text(salt),
                            memory_kib: params.memory_kib,
                            iterations: params.iterations,
                            parallelism: params.parallelism,
                            wrapped_dek_b64: base64_text(wrapped),
                            nonce_b64: base64_text(nonce),
                        },
                    ),
                },
            },
        }
    }
}

/// Whether `keyset` wraps `dek` under `passphrase` for some nonce and some
/// two salts that differ.
pub open spec fn built_from(
    keyset: KeysetView,
    passphrase: Seq<char>,
    dek: Seq<u8>,
    params: KdfParams,
) -> bool {
    exists|salt: Seq<u8>, hash_salt: Seq<u8>, nonce: Seq<u8>|
        salt.len() == SALT_LENGTH && hash_salt.len() == SALT_LENGTH && salt != hash_salt
            && nonce.len() == NONCE_LENGTH && #[trigger] sealed_keyset(
            passphrase,
            dek,
            salt,
            hash_salt,
            nonce,
            params,
        ) == Ok::<KeysetView, LockError>(keyset)
}

/// Whether the wrapped key of a keyset decodes to a data key's ciphertext
/// and its tag, forty-eight bytes.
pub open spec fn wrapped_key_sized(keyset: KeysetView) -> bool {
    base64_bytes(keyset.wrapped_dek_b64) matches Some(wrapped) && wrapped.len() == KEY_LENGTH
        + TAG_LENGTH
}

/// The memory cost, in KiB, for keysets created on a platform.
pub fn platform_kdf_memory_kib(platform: Platform) -> (memory_kib: u32)
    ensures
        memory_kib == platform_memory_kib(platform),
{
    match platform {
        Platform::Desktop => 64 * 1024,
        Platform::Mobile => 32 * 1024,
    }
}

/// The cost parameters for keysets created on a platform.
pub fn kdf_parameters(platform: Platform) -> (params: Result<KdfParams, LockError>)
    ensures
        params == Ok::<KdfParams, LockError>(platform_params(platform)),
{
    let params = KdfParams {
        memory_kib: platform_kdf_memory_kib(platform),
        iterations: KDF_ITERATIONS,
        parallelism: KDF_PARALLELISM,
    };
    if params.is_valid() {
        Ok(params)
    } else {
        Err(LockError::Kdf)
    }
}

/// Decodes a base64 field that must hold exactly `N` bytes.
pub fn decode_base64<const N: usize>(value: &str) -> (decoded: Result<[u8; N], LockError>)
    ensures
        match decoded {
            Ok(bytes) => base64_sized(value@, N as int) == Some(bytes@),
            Err(e) => e == LockError::Codec && base64_sized(value@, N as int) is None,
        },
{
    match base64_decode(value) {
        None => Err(LockError::Codec),
        Some(bytes) => {
            if bytes.len() != N {
                return Err(LockError::Codec);
            }
            let mut output = [0u8; N];
            let mut i: usize = 0;
            while i < N
                invariant
                    i <= N,
                    bytes.len() == N,
                    forall|j: int| 0 <= j < i ==> output@[j] == bytes@[j],
                decreases N - i,
            {
                output[i] = bytes[i];
                i += 1;
            }
            assert(output@ =~= bytes@);
            Ok(output)
        },
    }
}

/// Derives the key-encryption key with Argon2id from a passphrase, a salt
/// and the cost parameters of the record being worked on.
pub fn derive_kek(passphrase: &str, salt: &[u8], params: &KdfParams) -> (kek: Result<
    [u8; KEY_LENGTH],
    LockError,
>)
    ensures
        match kek {
            Ok(key) => derived_kek(passphrase@, salt@, *params) == Ok::<Seq<u8>, LockError>(key@),
            Err(e) => e == LockError::Kdf && derived_kek(passphrase@, salt@, *params) == Err::<
                Seq<u8>,
                LockError,
            >(e),
        },
        params.valid() && passphrase@.len() <= MAX_PASSPHRASE_LENGTH && 8 <= salt@.len()
            <= 0xffff_ffff ==> kek is Ok,
{
    if !params.is_valid() {
        return Err(LockError::Kdf);
    }
    match argon2id_derive(
        passphrase,
        salt,
        params.memory_kib,
        params.iterations,
        params.parallelism,
    ) {
        Some(key) => Ok(key),
        None => Err(LockError::Kdf),
    }
}

/// Hashes a passphrase with Argon2id for later checks. The hash is the one
/// that the same passphrase verifies against; it is never used as a key.
pub fn hash_password(passphrase: &str, salt: &[u8; SALT_LENGTH], params: &KdfParams) -> (hash: Result<
    String,
    LockError,
>)
    ensures
        match hash {
            Ok(text) => {
                &&& hashed_password(passphrase@, salt@, *params) == Ok::<Seq<char>, LockError>(
                    text@,
                )
                &&& phc_well_formed(text@)
                &&& lanes_within_limit(phc_decimals(text@))
                &&& phc_matches(text@, passphrase@)
            },
            Err(e) => e == LockError::Kdf && hashed_password(passphrase@, salt@, *params) == Err::<
                Seq<char>,
                LockError,
            >(e),
        },
        params.valid() && passphrase@.len() <= MAX_PASSPHRASE_LENGTH ==> hash is Ok,
{
    if !params.is_valid() {
        return Err(LockError::Kdf);
    }
    match argon2id_hash(
        passphrase,
        salt,
        params.memory_kib,
        params.iterations,
        params.parallelism,
    ) {
        Some(text) => Ok(text),
        None => Err(LockError::Kdf),
    }
}

/// Wraps a data key under a key-encryption key with AES-256-GCM. This
/// always succeeds, and what comes back, the ciphertext and its tag, opens
/// again under the same key and nonce to the data key.
pub fn wrap_dek(dek: &[u8; KEY_LENGTH], kek: &[u8; KEY_LENGTH], nonce: &[u8; NONCE_LENGTH]) -> (wrapped:
    Result<Vec<u8>, LockError>)
    ensures
        wrapped is Ok,
        wrapped matches Ok(bytes) ==> {
            &&& wrapped_dek(dek@, kek@, nonce@) == Ok::<Seq<u8>, LockError>(bytes@)
            &&& opened_dek(kek@, nonce@, bytes@) == Ok::<Seq<u8>, LockError>(dek@)
            &&& bytes@.len() == KEY_LENGTH + TAG_LENGTH
        },
{
    match aes256gcm_seal(kek, nonce, dek.as_slice()) {
        Some(bytes) => Ok(bytes),
        None => Err(LockError::Cipher),
    }
}

/// Opens a wrapped data key: decrypts and authenticates it, and wants
/// exactly the length of a key. Every failure is `InvalidPassphrase`, since
/// a wrong passphrase and a damaged record are not to be told apart.
pub fn open_wrapped_dek(wrapped: &[u8], nonce: &[u8; NONCE_LENGTH], kek: &[u8; KEY_LENGTH]) -> (dek:
    Result<[u8; KEY_LENGTH], LockError>)
    ensures
        match dek {
            Ok(key) => opened_dek(kek@, nonce@, wrapped@) == Ok::<Seq<u8>, LockError>(key@),
            Err(e) => opened_dek(kek@, nonce@, wrapped@) == Err::<Seq<u8>, LockError>(e),
        },
{
    let plain = match aes256gcm_open(kek, nonce, wrapped) {
        None => {
            return Err(LockError::InvalidPassphrase);
        },
        Some(plain) => plain,
    };
    if plain.len() != KEY_LENGTH {
        return Err(LockError::InvalidPassphrase);
    }
    let mut dek = [0u8; KEY_LENGTH];
    let mut i: usize = 0;
    while i < KEY_LENGTH
        invariant
            i <= KEY_LENGTH,
            plain.len() == KEY_LENGTH,
            forall|j: int| 0 <= j < i ==> dek@[j] == plain@[j],
        decreases KEY_LENGTH - i,
    {
        dek[i] = plain[i];
        i += 1;
    }
    assert(dek@ =~= plain@);
    Ok(dek)
}

/// Whether every lane count written in a stored password hash is within
/// Argon2's limit.
fn lanes_bounded(hash: &str) -> (ok: bool)
    requires
        phc_well_formed(hash@),
    ensures
        ok == lanes_within_limit(phc_decimals(hash@)),
{
    let entries = phc_parameters(hash);
    let lanes_name = String::from_str("p");
    let mut i: usize = 0;
    while i < entries.len()
        invariant
            i <= entries.len(),
            lanes_name@ == "p"@,
            entries@.len() == phc_decimals(hash@).len(),
            forall|j: int|
                0 <= j < entries@.len() ==> (#[trigger] entries@[j]).0@ == phc_decimals(hash@)[j].0
                    && entries@[j].1 == phc_decimals(hash@)[j].1,
            forall|j: int| 0 <= j < i ==> lane_entry_ok(#[trigger] phc_decimals(hash@)[j]),
        decreases entries.len() - i,
    {
        let entry = &entries[i];
        if entry.0 == lanes_name {
            match entry.1 {
                Some(lanes) => {
                    if lanes > MAX_PARALLELISM {
                        assert(!lane_entry_ok(phc_decimals(hash@)[i as int]));
                        return false;
                    }
                },
                None => {},
            }
        }
        assert(lane_entry_ok(phc_decimals(hash@)[i as int]));
        i += 1;
    }
    true
}

/// Checks a passphrase against the password hash stored in a keyset.
pub fn verify_passphrase(keyset: &Keyset, passphrase: &str) -> (checked: Result<(), LockError>)
    ensures
        checked == passphrase_check(keyset@, passphrase@),
{
    if !phc_parses(keyset.password_hash.as_str()) {
        return Err(LockError::Codec);
    }
    let params = KdfParams {
        memory_kib: keyset.memory_kib,
        iterations: keyset.iterations,
        parallelism: keyset.parallelism,
    };
    if !params.is_valid() {
        return Err(LockError::Kdf);
    }
    if !lanes_bounded(keyset.password_hash.as_str()) {
        return Err(LockError::Kdf);
    }
    if argon2id_verify(
        keyset.password_hash.as_str(),
        passphrase,
        keyset.memory_kib,
        keyset.iterations,
        keyset.parallelism,
    ) {
        Ok(())
    } else {
        Err(LockError::InvalidPassphrase)
    }
}

/// Opens a keyset with a passphrase and returns the data key. A wrong
/// passphrase and a damaged record both give `InvalidPassphrase`.
pub fn unwrap_dek(keyset: &Keyset, passphrase: &str) -> (dek: Result<[u8; KEY_LENGTH], LockError>)
    ensures
        match dek {
            Ok(key) => unwrap_outcome(keyset@, passphrase@) == Ok::<Seq<u8>, LockError>(key@),
            Err(e) => unwrap_outcome(keyset@, passphrase@) == Err::<Seq<u8>, LockError>(e),
        },
{
    match verify_passphrase(keyset, passphrase) {
        Err(e) => {
            return Err(e);
        },
        Ok(_) => {},
    }
    let params = KdfParams {
        memory_kib: keyset.memory_kib,
        iterations: keyset.iterations,
        parallelism: keyset.parallelism,
    };
    let salt = match decode_base64::<SALT_LENGTH>(keyset.salt_b64.as_str()) {
        Err(e) => {
            return Err(e);
        },
        Ok(salt) => salt,
    };
    let kek = match derive_kek(passphrase, salt.as_slice(), &params) {
        Err(e) => {
            return Err(e);
        },
        Ok(kek) => kek,
    };
    let wrapped = match base64_decode(keyset.wrapped_dek_b64.as_str()) {
        None => {
            return Err(LockError::Codec);
        },
        Some(wrapped) => wrapped,
    };
    let nonce = match decode_base64::<NONCE_LENGTH>(keyset.nonce_b64.as_str()) {
        Err(e) => {
            return Err(e);
        },
        Ok(nonce) => nonce,
    };
    open_wrapped_dek(wrapped.as_slice(), &nonce, &kek)
}

/// Whether two byte strings are the same.
fn same_bytes(a: &[u8], b: &[u8]) -> (same: bool)
    ensures
        same == (a@ == b@),
{
    if a.len() != b.len() {
        return false;
    }
    let mut i: usize = 0;
    while i < a.len()
        invariant
            i <= a.len(),
            a.len() == b.len(),
            forall|j: int| 0 <= j < i ==> a@[j] == b@[j],
        decreases a.len() - i,
    {
        if a[i] != b[i] {
            return false;
        }
        i += 1;
    }
    assert(a@ =~= b@);
    true
}

/// Wraps `dek` under `passphrase` with the given salts, nonce and cost
/// parameters. The key-encryption key is derived with `salt`; the password
/// hash is made with `hash_salt`, which must differ from `salt`, so that the
/// hash in the record is not the key. A keyset that comes back opens again,
/// under the same passphrase, to `dek`. With salts that differ, costs that
/// Argon2 accepts and a passphrase of at most `MAX_PASSPHRASE_LENGTH` code
/// points it always comes back.
pub fn seal_keyset(
    passphrase: &str,
    dek: &[u8; KEY_LENGTH],
    salt: &[u8; SALT_LENGTH],
    hash_salt: &[u8; SALT_LENGTH],
    nonce: &[u8; NONCE_LENGTH],
    params: &KdfParams,
) -> (sealed: Result<Keyset, LockError>)
    ensures
        match sealed {
            Ok(keyset) => {
                &&& sealed_keyset(passphrase@, dek@, salt@, hash_salt@, nonce@, *params) == Ok::<
                    KeysetView,
                    LockError,
                >(keyset@)
                &&& unwrap_outcome(keyset@, passphrase@) == Ok::<Seq<u8>, LockError>(dek@)
                &&& wrapped_key_sized(keyset@)
            },
            Err(e) => sealed_keyset(passphrase@, dek@, salt@, hash_salt@, nonce@, *params) == Err::<
                KeysetView,
                LockError,
            >(e),
        },
        sealed matches Err(e) ==> e == if salt@ == hash_salt@ {
            LockError::RandomSource
        } else {
            LockError::Kdf
        },
        salt@ != hash_salt@ && params.valid() && passphrase@.len() <= MAX_PASSPHRASE_LENGTH
            ==> sealed is Ok,
{
    if same_bytes(salt.as_slice(), hash_salt.as_slice()) {
        return Err(LockError::RandomSource);
    }
    let password_hash = match hash_password(passphrase, hash_salt, params) {
        Err(e) => {
            return Err(e);
        },
        Ok(hash) => hash,
    };
    let kek = match derive_kek(passphrase, salt.as_slice(), params) {
        Err(e) => {
            return Err(e);
        },
        Ok(kek) => kek,
    };
    let wrapped = match wrap_dek(dek, &kek, nonce) {
        Err(e) => {
            return Err(e);
        },
        Ok(wrapped) => wrapped,
    };
    let keyset = Keyset {
        version: KEYSET_VERSION,
        password_hash,
        salt_b64: base64_encode(salt.as_slice()),
        memory_kib: params.memory_kib,
        iterations: params.iterations,
        parallelism: params.parallelism,
        wrapped_dek_b64: base64_encode(wrapped.as_slice()),
        nonce_b64: base64_encode(nonce.as_slice()),
    };
    Ok(keyset)
}

/// Creates a keyset for `passphrase` with two fresh random salts, one for
/// the key-encryption key and one for the password hash, a fresh random
/// nonce and the cost parameters of the platform. It wraps `existing_dek`
/// where one is given and a fresh random key where none is. For a passphrase
/// of eight to `MAX_PASSPHRASE_LENGTH` code points only the random source
/// can make it fail.
pub fn build_keyset_from_passphrase(
    passphrase: &str,
    existing_dek: Option<[u8; KEY_LENGTH]>,
    platform: Platform,
) -> (built: Result<Keyset, LockError>)
    ensures
        passphrase@.len() < APP_LOCK_PASSPHRASE_MIN_LENGTH <==> built matches Err(
            LockError::WeakPassphrase,
        ),
        match built {
            Ok(keyset) => {
                &&& unwrap_outcome(keyset@, passphrase@) is Ok
                &&& built_from(
                    keyset@,
                    passphrase@,
                    unwrap_outcome(keyset@, passphrase@)->Ok_0,
                    platform_params(platform),
                )
                &&& existing_dek matches Some(dek) ==> unwrap_outcome(keyset@, passphrase@)
                    == Ok::<Seq<u8>, LockError>(dek@)
                &&& wrapped_key_sized(keyset@)
            },
            Err(e) => e == LockError::WeakPassphrase || e == LockError::Kdf || e
                == LockError::RandomSource,
        },
        built matches Err(LockError::Kdf) ==> passphrase@.len() > MAX_PASSPHRASE_LENGTH,
{
    if passphrase.unicode_len() < APP_LOCK_PASSPHRASE_MIN_LENGTH {
        return Err(LockError::WeakPassphrase);
    }
    let params = match kdf_parameters(platform) {
        Err(e) => {
            return Err(e);
        },
        Ok(params) => params,
    };
    let salt = match random_bytes::<SALT_LENGTH>() {
        None => {
            return Err(LockError::RandomSource);
        },
        Some(salt) => salt,
    };
    let hash_salt = match random_bytes::<SALT_LENGTH>() {
        None => {
            return Err(LockError::RandomSource);
        },
        Some(salt) => salt,
    };
    let dek = match existing_dek {
        Some(dek) => dek,
        None => match random_bytes::<KEY_LENGTH>() {
            None => {
                return Err(LockError::RandomSource);
            },
            Some(dek) => dek,
        },
    };
    let nonce = match random_bytes::<NONCE_LENGTH>() {
        None => {
            return Err(LockError::RandomSource);
        },
        Some(nonce) => nonce,
    };
    seal_keyset(passphrase, &dek, &salt, &hash_salt, &nonce, &params)
}

} // verus!
