use app_lock::backup::{
    app_lock_backup_and_reset_secure_db, append_path_suffix, backup_and_reset_secure_database,
    backup_suffix, move_to_backup, DatabaseFiles, SECURE_DB_FILE_NAME,
};
use app_lock::error::LockError;
use app_lock::hex::encode_hex;
use app_lock::persistence::{
    delete_keyset, read_keyset, read_open_dek, write_keyset, write_open_dek, AfterFileWrite,
    RecordSource,
};
use app_lock::secure_storage::{
    delete_secret, get_secret, secure_storage_is_available, set_secret, Lookup, Removal,
    WriteAttempt,
};

#[test]
fn set_secret_counts_only_what_reads_back() {
    assert_eq!(
        set_secret("v", WriteAttempt::ReadBack(Ok("v".to_string()))),
        Ok(())
    );
    assert_eq!(
        set_secret("v", WriteAttempt::ReadBack(Ok("w".to_string()))),
        Err("Secure storage write verification failed: stored value mismatch. This often indicates an unsigned or improperly signed app build on macOS.".to_string())
    );
    assert_eq!(
        set_secret("v", WriteAttempt::ReadBack(Err("no entry".to_string()))),
        Err("Secure storage write verification failed: no entry. This often indicates an unsigned or improperly signed app build on macOS.".to_string())
    );
    assert_eq!(
        set_secret("v", WriteAttempt::Refused("denied".to_string())),
        Err("denied".to_string())
    );
}

#[test]
fn a_platform_without_a_vault_accepts_and_keeps_nothing() {
    assert_eq!(set_secret("v", WriteAttempt::NoVault), Ok(()));
    assert_eq!(get_secret(Lookup::NoVault), Ok(None));
    assert_eq!(delete_secret(Removal::NoVault), Ok(()));
    assert!(!secure_storage_is_available(WriteAttempt::NoVault));
}

#[test]
fn get_secret_treats_a_missing_entry_as_none() {
    assert_eq!(get_secret(Lookup::NoEntry), Ok(None));
    assert_eq!(
        get_secret(Lookup::Found("secret".to_string())),
        Ok(Some("secret".to_string()))
    );
    assert_eq!(
        get_secret(Lookup::Failed("locked".to_string())),
        Err("locked".to_string())
    );
}

#[test]
fn delete_secret_treats_a_missing_entry_as_done() {
    assert_eq!(delete_secret(Removal::Removed), Ok(()));
    assert_eq!(delete_secret(Removal::NoEntry), Ok(()));
    assert_eq!(
        delete_secret(Removal::Failed("locked".to_string())),
        Err("locked".to_string())
    );
}

#[test]
fn the_probe_succeeds_only_if_its_value_reads_back() {
    assert!(secure_storage_is_available(WriteAttempt::ReadBack(Ok(
        "probe".to_string()
    ))));
    assert!(!secure_storage_is_available(WriteAttempt::ReadBack(Ok(
        "other".to_string()
    ))));
    assert!(!secure_storage_is_available(WriteAttempt::ReadBack(Err(
        "gone".to_string()
    ))));
    assert!(!secure_storage_is_available(WriteAttempt::Refused(
        "denied".to_string()
    )));
}

#[test]
fn a_record_is_read_from_the_store_first() {
    assert!(matches!(
        read_keyset(Ok(Some("{}".to_string()))),
        RecordSource::Store(raw) if raw == "{}"
    ));
    assert!(matches!(read_keyset(Ok(None)), RecordSource::Fallback));
    assert!(matches!(
        read_keyset(Err("locked".to_string())),
        RecordSource::Fallback
    ));
}

#[test]
fn only_the_fallback_file_can_fail_a_write() {
    assert!(matches!(write_keyset(Ok(())), AfterFileWrite::Mirror));
    assert!(matches!(
        write_keyset(Err("disk full".to_string())),
        AfterFileWrite::Fail(message) if message == "disk full"
    ));
}

#[test]
fn only_the_fallback_file_can_fail_a_delete() {
    assert_eq!(delete_keyset(None), Ok(()));
    assert_eq!(delete_keyset(Some(Ok(()))), Ok(()));
    assert_eq!(
        delete_keyset(Some(Err("busy".to_string()))),
        Err("busy".to_string())
    );
}

#[test]
fn the_open_key_is_stored_as_hex_and_read_back() {
    let key = [0x5au8; 32];
    let text = write_open_dek(&key);
    assert_eq!(text, "5a".repeat(32));
    assert_eq!(text, encode_hex(&key));
    assert_eq!(read_open_dek(Some(&text)), Ok(Some(key)));
    assert_eq!(read_open_dek(Some(&format!("{text}\n"))), Ok(Some(key)));
}

#[test]
fn no_stored_text_is_no_open_key() {
    assert_eq!(read_open_dek(None), Ok(None));
}

#[test]
fn stored_text_that_is_no_key_is_a_codec_error() {
    assert_eq!(read_open_dek(Some("junk")), Err(LockError::Codec));
    assert_eq!(read_open_dek(Some("")), Err(LockError::Codec));
    assert_eq!(read_open_dek(Some("  \n")), Err(LockError::Codec));
    assert_eq!(read_open_dek(Some(&"5a".repeat(31))), Err(LockError::Codec));
    assert_eq!(read_open_dek(Some(&"5a".repeat(33))), Err(LockError::Codec));
    assert_eq!(read_open_dek(Some(&"5g".repeat(32))), Err(LockError::Codec));
}

#[test]
fn append_path_suffix_puts_the_suffix_behind() {
    assert_eq!(
        append_path_suffix("/data/journai_secure.db", "-wal"),
        "/data/journai_secure.db-wal"
    );
    assert_eq!(append_path_suffix("", "-shm"), "-shm");
}

#[test]
fn move_to_backup_names_the_backup() {
    assert_eq!(
        move_to_backup("journai_secure.db", true, "1700000000"),
        Some("journai_secure.db.backup-1700000000".to_string())
    );
    assert_eq!(move_to_backup("journai_secure.db", false, "1700000000"), None);
}

#[test]
fn a_reset_renames_every_file_that_exists() {
    let files = DatabaseFiles {
        database: true,
        write_ahead_log: true,
        shared_memory: true,
    };
    let plan = backup_and_reset_secure_database(SECURE_DB_FILE_NAME, files, "42");
    let backup = plan.backup.expect("the database existed");
    assert!(backup.contains(".backup-"));
    assert_eq!(backup, "journai_secure.db.backup-42");
    let pairs: Vec<(String, String)> = plan
        .renames
        .into_iter()
        .map(|r| (r.from, r.to))
        .collect();
    assert_eq!(
        pairs,
        vec![
            (
                "journai_secure.db".to_string(),
                "journai_secure.db.backup-42".to_string()
            ),
            (
                "journai_secure.db-wal".to_string(),
                "journai_secure.db-wal.backup-42".to_string()
            ),
            (
                "journai_secure.db-shm".to_string(),
                "journai_secure.db-shm.backup-42".to_string()
            ),
        ]
    );
}

#[test]
fn a_reset_without_a_database_returns_no_backup() {
    let files = DatabaseFiles {
        database: false,
        write_ahead_log: false,
        shared_memory: false,
    };
    let plan = backup_and_reset_secure_database(SECURE_DB_FILE_NAME, files, "42");
    assert_eq!(plan.backup, None);
    assert!(plan.renames.is_empty());
}

#[test]
fn a_reset_sets_a_lone_sidecar_aside() {
    let files = DatabaseFiles {
        database: false,
        write_ahead_log: false,
        shared_memory: true,
    };
    let plan = backup_and_reset_secure_database("db", files, "7");
    assert_eq!(plan.backup, None);
    assert_eq!(plan.renames.len(), 1);
    assert_eq!(plan.renames[0].from, "db-shm");
    assert_eq!(plan.renames[0].to, "db-shm.backup-7");
}

#[test]
fn the_backup_suffix_is_the_time_in_decimal() {
    assert_eq!(backup_suffix(0), "0");
    assert_eq!(backup_suffix(9), "9");
    assert_eq!(backup_suffix(10), "10");
    assert_eq!(backup_suffix(1_700_000_000), "1700000000");
    assert_eq!(backup_suffix(u64::MAX), "18446744073709551615");
}

#[test]
fn backup_and_reset_names_the_backup_and_then_finds_nothing() {
    let all = DatabaseFiles {
        database: true,
        write_ahead_log: true,
        shared_memory: false,
    };
    let plan = app_lock_backup_and_reset_secure_db(SECURE_DB_FILE_NAME, all, 1_700_000_000);
    let backup = plan.backup.expect("the database existed");
    assert!(backup.contains(".backup-"));
    assert_eq!(backup, "journai_secure.db.backup-1700000000");
    assert_eq!(plan.renames.len(), 2);
    assert_eq!(plan.renames[0].from, "journai_secure.db");
    assert_eq!(plan.renames[0].to, backup);
    assert_eq!(plan.renames[1].from, "journai_secure.db-wal");
    assert_eq!(plan.renames[1].to, "journai_secure.db-wal.backup-1700000000");

    // Once every file is renamed none is left at its first name.
    let none = DatabaseFiles {
        database: false,
        write_ahead_log: false,
        shared_memory: false,
    };
    let plan = app_lock_backup_and_reset_secure_db(SECURE_DB_FILE_NAME, none, 1_700_000_001);
    assert_eq!(plan.backup, None);
    assert!(plan.renames.is_empty());
}
