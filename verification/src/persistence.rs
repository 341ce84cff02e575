//! How the keyset and the open key are kept: in a fallback file, which is
//! the authority, and mirrored into the secret store, which may silently
//! keep nothing.

use crate::error::LockError;
use crate::hex::{decode_hex_key, decoded_key, encode_hex, hex_text, lemma_hex_round_trip, KEY_LENGTH};
use vstd::prelude::*;

verus! {

/// The secret-store key of the keyset.
pub const APP_LOCK_KEYSET_STORAGE_KEY: &'static str = "journai.app_lock.keyset";

/// The secret-store key of the open key.
pub const APP_LOCK_OPEN_DEK_STORAGE_KEY: &'static str = "journai.app_lock.open_dek";

/// The fallback file of the keyset, under the application's data directory.
pub const KEYSET_FALLBACK_FILE_NAME: &'static str = "app_lock_keyset.json";

/// The fallback file of the open key, under the application's data
/// directory.
pub const OPEN_DEK_FALLBACK_FILE_NAME: &'static str = "app_lock_open_dek.txt";

/// The environment variable that hands the session key to the database
/// engine.
pub const SQLCIPHER_KEY_ENV_VAR: &'static str = "JOURNAI_SQLCIPHER_KEY_HEX";

/// Where a record is read from.
#[derive(Debug)]
pub enum RecordSource {
    /// The secret store gave this text. The fallback file is then written
    /// again from it, and a failure of that write is ignored.
    Store(String),
    /// The secret store gave nothing or failed: the fallback file decides,
    /// and its absence means that there is no record.
    Fallback,
}

/// Decides where the keyset's text comes from: the secret store if it
/// holds one, else the fallback file. The open key is read by the same rule.
pub fn read_keyset(store: Result<Option<String>, String>) -> (source: RecordSource)
    ensures
        source == match store {
            Ok(Some(raw)) => RecordSource::Store(raw),
            _ => RecordSource::Fallback,
        },
{
    match store {
        Ok(Some(raw)) => RecordSource::Store(raw),
        _ => RecordSource::Fallback,
    }
}

/// What follows the write of a record's fallback file.
#[derive(Debug)]
pub enum AfterFileWrite {
    /// The file is written: the same text now goes into the secret store,
    /// whose answer is ignored, and the write has succeeded.
    Mirror,
    /// The file could not be written: the write has failed with this
    /// message, and the secret store is left alone.
    Fail(String),
}

/// Decides how the write of a record goes on once its fallback file has been
/// written. The file is the authority and is written first; only its
/// failure fails the write. The open key is written by the same rule.
pub fn write_keyset(file_written: Result<(), String>) -> (next: AfterFileWrite)
    ensures
        next == match file_written {
            Ok(_) => AfterFileWrite::Mirror,
            Err(message) => AfterFileWrite::Fail(message),
        },
{
    match file_written {
        Ok(_) => AfterFileWrite::Mirror,
        Err(message) => AfterFileWrite::Fail(message),
    }
}

/// The result of deleting a record. The secret store is asked first and its
/// answer is ignored; a failure to remove the fallback file is reported.
/// `file_removed` is `None` where there was no file, or no place for one.
/// The open key is deleted by the same rule.
pub fn delete_keyset(file_removed: Option<Result<(), String>>) -> (done: Result<(), String>)
    ensures
        done == match file_removed {
            Some(Err(message)) => Err::<(), String>(message),
            _ => Ok::<(), String>(()),
        },
{
    match file_removed {
        Some(Err(message)) => Err(message),
        _ => Ok(()),
    }
}

/// The text under which an open key is stored.
pub fn write_open_dek(dek: &[u8; KEY_LENGTH]) -> (text: String)
    ensures
        text@ == hex_text(dek@),
        decoded_key(text@) == Some(dek@),
{
    proof {
        lemma_hex_round_trip(dek@);
    }
    encode_hex(dek.as_slice())
}

/// The open key in the text that was read, if any was: none where nothing
/// was stored, and a codec error where what was stored is no key. A damaged
/// record is never taken for a missing one, so no new key replaces it.
pub fn read_open_dek(text: Option<&str>) -> (dek: Result<Option<[u8; KEY_LENGTH]>, LockError>)
    ensures
        match text {
            None => dek matches Ok(None),
            Some(t) => match decoded_key(t@) {
                Some(key) => dek matches Ok(Some(k)) && k@ == key,
                None => dek matches Err(LockError::Codec),
            },
        },
{
    match text {
        None => Ok(None),
        Some(t) => match decode_hex_key(t) {
            Some(key) => Ok(Some(key)),
            None => Err(LockError::Codec),
        },
    }
}

} // verus!
