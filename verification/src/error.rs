//! The ways in which an operation on the vault can fail.

use vstd::prelude::*;
use vstd::string::StringExecFns;

verus! {

/// Why an operation on the vault failed.
#[derive(Clone, Copy, Debug, PartialEq, Eq, Structural)]
pub enum LockError {
    /// A keyset exists already; unlock with the existing passphrase.
    AlreadyConfigured,
    /// No keyset exists, so there is no passphrase to change.
    NotConfigured,
    /// The vault counts as configured but holds no keyset to unlock with.
    KeyMaterialUnavailable,
    /// The passphrase has fewer than eight code points.
    WeakPassphrase,
    /// The passphrase does not open the keyset. A damaged record is reported
    /// the same way: the two causes are not told apart.
    InvalidPassphrase,
    /// A stored field is not the text it should be: a password hash that
    /// does not parse, or base64 that does not decode to the right length.
    Codec,
    /// Argon2 refused the cost parameters or the inputs.
    Kdf,
    /// AES-256-GCM could not be set up or refused the plaintext. With a
    /// 32-byte key and a 32-byte plaintext it never does.
    Cipher,
    /// The operating system gave no random bytes, or gave the same salt for
    /// the key and for the password hash.
    RandomSource,
}

impl LockError {
    /// The message for the user.
    pub open spec fn message_text(&self) -> Seq<char> {
        match self {
            LockError::AlreadyConfigured => "App lock is already configured. Unlock with your existing passphrase."@,
            LockError::NotConfigured => "App lock is not enabled"@,
            LockError::KeyMaterialUnavailable => "App lock is configured but key material is unavailable."@,
            LockError::WeakPassphrase => "Passphrase must be at least 8 characters"@,
            LockError::InvalidPassphrase => "Invalid passphrase"@,
            LockError::Codec => "Invalid stored app lock keyset"@,
            LockError::Kdf => "Failed to derive key with Argon2id"@,
            LockError::Cipher => "Failed to initialize cipher"@,
            LockError::RandomSource => "Failed to draw random bytes"@,
        }
    }

    /// The message for the user.
    pub fn message(&self) -> (text: String)
        ensures
            text@ == self.message_text(),
    {
        match self {
            LockError::AlreadyConfigured => String::from_str(
                "App lock is already configured. Unlock with your existing passphrase.",
            ),
            LockError::NotConfigured => String::from_str("App lock is not enabled"),
            LockError::KeyMaterialUnavailable => String::from_str(
                "App lock is configured but key material is unavailable.",
            ),
            LockError::WeakPassphrase => String::from_str(
                "Passphrase must be at least 8 characters",
            ),
            LockError::InvalidPassphrase => String::from_str("Invalid passphrase"),
            LockError::Codec => String::from_str("Invalid stored app lock keyset"),
            LockError::Kdf => String::from_str("Failed to derive key with Argon2id"),
            LockError::Cipher => String::from_str("Failed to initialize cipher"),
            LockError::RandomSource => String::from_str("Failed to draw random bytes"),
        }
    }
}

} // verus!
