//! The secret store: the operating system's credential vault, used as a
//! store of text by key. The vault itself is asked by the caller; what it
//! answered comes here as plain values, and these functions decide what the
//! answer means. On a platform without a vault every write is accepted and
//! dropped and every lookup finds nothing.

use vstd::prelude::*;
use vstd::string::StringExecFns;

verus! {

/// The service under which every secret is filed.
pub const SERVICE_NAME: &'static str = "com.journai.app";

/// The key that the availability probe writes and removes.
pub const AVAILABILITY_PROBE_KEY: &'static str = "__journai.secure_storage.availability_probe__";

/// The value that the availability probe writes.
pub const AVAILABILITY_PROBE_VALUE: &'static str = "probe";

/// What a lookup in the vault came back with.
#[derive(Debug)]
pub enum Lookup {
    /// The platform has no vault.
    NoVault,
    /// The vault holds this text under the key.
    Found(String),
    /// The vault holds nothing under the key.
    NoEntry,
    /// The vault failed, with its message.
    Failed(String),
}

/// What a write to the vault came back with.
#[derive(Debug)]
pub enum WriteAttempt {
    /// The platform has no vault.
    NoVault,
    /// The entry could not be opened or the write was refused, with the
    /// vault's message.
    Refused(String),
    /// The write was accepted, and a fresh lookup of the key then gave this
    /// text or failed with this message.
    ReadBack(Result<String, String>),
}

/// What a removal from the vault came back with.
#[derive(Debug)]
pub enum Removal {
    /// The platform has no vault.
    NoVault,
    /// The entry is gone.
    Removed,
    /// There was no entry.
    NoEntry,
    /// The vault failed, with its message.
    Failed(String),
}

/// The message for a write that read back as another text.
pub open spec fn mismatch_message() -> Seq<char> {
    "Secure storage write verification failed: stored value mismatch. This often indicates an unsigned or improperly signed app build on macOS."@
}

/// The message for a write that could not be read back.
pub open spec fn read_back_message(cause: Seq<char>) -> Seq<char> {
    "Secure storage write verification failed: "@ + cause
        + ". This often indicates an unsigned or improperly signed app build on macOS."@
}

/// What a write amounts to: it counts only if a fresh lookup gives the same
/// text back, since a vault may accept a write and keep nothing.
pub open spec fn write_outcome(value: Seq<char>, attempt: WriteAttempt) -> Result<(), Seq<char>> {
    match attempt {
        WriteAttempt::NoVault => Ok(()),
        WriteAttempt::Refused(message) => Err(message@),
        WriteAttempt::ReadBack(Ok(stored)) => if stored@ == value {
            Ok(())
        } else {
            Err(mismatch_message())
        },
        WriteAttempt::ReadBack(Err(cause)) => Err(read_back_message(cause@)),
    }
}

/// Judges a write of `value`.
pub fn set_secret(value: &str, attempt: WriteAttempt) -> (done: Result<(), String>)
    ensures
        match done {
            Ok(_) => write_outcome(value@, attempt) == Ok::<(), Seq<char>>(()),
            Err(message) => write_outcome(value@, attempt) == Err::<(), Seq<char>>(message@),
        },
{
    match attempt {
        WriteAttempt::NoVault => Ok(()),
        WriteAttempt::Refused(message) => Err(message),
        WriteAttempt::ReadBack(Ok(stored)) => {
            if stored == String::from_str(value) {
                Ok(())
            } else {
                Err(
                    String::from_str(
                        "Secure storage write verification failed: stored value mismatch. This often indicates an unsigned or improperly signed app build on macOS.",
                    ),
                )
            }
        },
        WriteAttempt::ReadBack(Err(cause)) => {
            let message = String::from_str("Secure storage write verification failed: ").concat(
                cause.as_str(),
            ).concat(
                ". This often indicates an unsigned or improperly signed app build on macOS.",
            );
            Err(message)
        },
    }
}

/// Judges a lookup: a missing entry is no error.
pub fn get_secret(lookup: Lookup) -> (found: Result<Option<String>, String>)
    ensures
        match lookup {
            Lookup::NoVault => found == Ok::<Option<String>, String>(None),
            Lookup::Found(text) => found == Ok::<Option<String>, String>(Some(text)),
            Lookup::NoEntry => found == Ok::<Option<String>, String>(None),
            Lookup::Failed(message) => found == Err::<Option<String>, String>(message),
        },
{
    match lookup {
        Lookup::NoVault => Ok(None),
        Lookup::Found(text) => Ok(Some(text)),
        Lookup::NoEntry => Ok(None),
        Lookup::Failed(message) => Err(message),
    }
}

/// Judges a removal: a missing entry is no error.
pub fn delete_secret(removal: Removal) -> (done: Result<(), String>)
    ensures
        match removal {
            Removal::Failed(message) => done == Err::<(), String>(message),
            _ => done == Ok::<(), String>(()),
        },
{
    match removal {
        Removal::Failed(message) => Err(message),
        _ => Ok(()),
    }
}

/// Judges the availability probe, a write of `AVAILABILITY_PROBE_VALUE`
/// under `AVAILABILITY_PROBE_KEY`: the store is available if the value read
/// back is the one written.
pub fn secure_storage_is_available(probe: WriteAttempt) -> (available: bool)
    ensures
        available == (probe matches WriteAttempt::ReadBack(Ok(stored)) && stored@
            == AVAILABILITY_PROBE_VALUE@),
{
    match probe {
        WriteAttempt::ReadBack(Ok(stored)) => stored == String::from_str(AVAILABILITY_PROBE_VALUE),
        _ => false,
    }
}

} // verus!
