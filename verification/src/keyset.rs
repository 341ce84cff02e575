//! The persisted record that wraps the data key.

use vstd::prelude::*;

verus! {

/// Number of bytes in the Argon2 salt.
pub const SALT_LENGTH: usize = 16;

/// Number of bytes in the AES-GCM nonce.
pub const NONCE_LENGTH: usize = 12;

/// The format tag written into every keyset.
pub const KEYSET_VERSION: u8 = 1;

/// What is stored, one record per installation, while a passphrase protects
/// the vault. The cost parameters are those the record was created with.
#[derive(Debug)]
pub struct Keyset {
    pub version: u8,
    /// Argon2id hash of the passphrase in PHC text form; only ever used to
    /// check a passphrase, never as a key.
    pub password_hash: String,
    pub salt_b64: String,
    pub memory_kib: u32,
    pub iterations: u32,
    pub parallelism: u32,
    pub wrapped_dek_b64: String,
    pub nonce_b64: String,
}

/// A keyset as plain values.
pub struct KeysetView {
    pub version: u8,
    pub password_hash: Seq<char>,
    pub salt_b64: Seq<char>,
    pub memory_kib: u32,
    pub iterations: u32,
    pub parallelism: u32,
    pub wrapped_dek_b64: Seq<char>,
    pub nonce_b64: Seq<char>,
}

impl View for Keyset {
    type V = KeysetView;

    open spec fn view(&self) -> KeysetView {
        KeysetView {
            version: self.version,
            password_hash: self.password_hash@,
            salt_b64: self.salt_b64@,
            memory_kib: self.memory_kib,
            iterations: self.iterations,
            parallelism: self.parallelism,
            wrapped_dek_b64: self.wrapped_dek_b64@,
            nonce_b64: self.nonce_b64@,
        }
    }
}

impl Keyset {
    /// A second keyset with the same contents.
    pub fn duplicate(&self) -> (copy: Keyset)
        ensures
            copy@ == self@,
    {
        Keyset {
            version: self.version,
            password_hash: self.password_hash.clone(),
            salt_b64: self.salt_b64.clone(),
            memory_kib: self.memory_kib,
            iterations: self.iterations,
            parallelism: self.parallelism,
            wrapped_dek_b64: self.wrapped_dek_b64.clone(),
            nonce_b64: self.nonce_b64.clone(),
        }
    }
}

} // verus!
