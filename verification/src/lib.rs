//! Passphrase-gated key manager for an encrypted on-device database.
//!
//! A key-encryption key is derived from the passphrase with Argon2id and
//! wraps a random 32-byte data key with AES-256-GCM. The wrapped key and the
//! derivation parameters form a [`keyset::Keyset`]; while no passphrase is
//! configured the data key is kept unwrapped instead. The functions in
//! [`lifecycle`] move a vault between its three states: not configured,
//! configured and locked, configured and unlocked.
//!
//! The library works on plain values. Reading and writing the secret store,
//! the fallback files and the environment is left to the caller, who is told
//! by [`persistence`], [`secure_storage`] and [`backup`] what to make of
//! what it read and what to write.

pub mod backup;
pub mod engine;
pub mod error;
pub mod hex;
pub mod keyset;
pub mod lifecycle;
pub mod persistence;
pub mod secure_storage;
