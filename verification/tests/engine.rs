use app_lock::engine::{
    build_keyset_from_passphrase, decode_base64, derive_kek, hash_password, kdf_parameters,
    open_wrapped_dek, platform_kdf_memory_kib, seal_keyset, unwrap_dek, verify_passphrase,
    wrap_dek, KdfParams, Platform,
};
use app_lock::error::LockError;
use app_lock::keyset::Keyset;
use aes_gcm::aead::{Aead, KeyInit};
use base64::Engine;

fn light() -> KdfParams {
    KdfParams {
        memory_kib: 8,
        iterations: 1,
        parallelism: 1,
    }
}

fn sealed(passphrase: &str, dek: &[u8; 32]) -> Keyset {
    seal_keyset(passphrase, dek, &[7u8; 16], &[8u8; 16], &[9u8; 12], &light())
        .expect("sealing works")
}

#[test]
fn the_memory_cost_follows_the_platform() {
    assert_eq!(platform_kdf_memory_kib(Platform::Desktop), 65536);
    assert_eq!(platform_kdf_memory_kib(Platform::Mobile), 32768);
}

#[test]
fn kdf_parameters_fix_three_passes_and_one_lane() {
    assert_eq!(
        kdf_parameters(Platform::Desktop),
        Ok(KdfParams {
            memory_kib: 65536,
            iterations: 3,
            parallelism: 1
        })
    );
    assert_eq!(
        kdf_parameters(Platform::Mobile),
        Ok(KdfParams {
            memory_kib: 32768,
            iterations: 3,
            parallelism: 1
        })
    );
}

#[test]
fn is_valid_follows_argon2() {
    assert!(light().is_valid());
    let costs = |memory_kib, iterations, parallelism| KdfParams {
        memory_kib,
        iterations,
        parallelism,
    };
    assert!(!costs(7, 1, 1).is_valid());
    assert!(!costs(8, 0, 1).is_valid());
    assert!(!costs(8, 1, 0).is_valid());
    assert!(!costs(15, 1, 2).is_valid());
    assert!(costs(16, 1, 2).is_valid());
    assert!(!costs(u32::MAX, 1, 0x100_0000).is_valid());
    assert!(!costs(u32::MAX, 1, u32::MAX).is_valid());
    assert!(costs(u32::MAX, u32::MAX, 0xff_ffff).is_valid());
}

#[test]
fn decode_base64_wants_the_exact_length() {
    assert_eq!(
        decode_base64::<16>("AAECAwQFBgcICQoLDA0ODw=="),
        Ok([0, 1, 2, 3, 4, 5, 6, 7, 8, 9, 10, 11, 12, 13, 14, 15])
    );
    assert_eq!(decode_base64::<12>("AAAAAAAAAAAAAAAA"), Ok([0u8; 12]));
    assert_eq!(
        decode_base64::<12>("AAECAwQFBgcICQoLDA0ODw=="),
        Err(LockError::Codec)
    );
    assert_eq!(decode_base64::<16>("AAAAAAAAAAAAAAAA"), Err(LockError::Codec));
    assert_eq!(decode_base64::<16>("not base64!"), Err(LockError::Codec));
    assert_eq!(decode_base64::<0>(""), Ok([]));
}

#[test]
fn derive_kek_is_a_function_of_its_inputs() {
    let a = derive_kek("correct-horse", &[7u8; 16], &light()).expect("derives");
    let b = derive_kek("correct-horse", &[7u8; 16], &light()).expect("derives");
    assert_eq!(a, b);
    assert_ne!(a, [0u8; 32]);
    let other_salt = derive_kek("correct-horse", &[8u8; 16], &light()).expect("derives");
    assert_ne!(a, other_salt);
    let other_passphrase = derive_kek("correct-horsf", &[7u8; 16], &light()).expect("derives");
    assert_ne!(a, other_passphrase);
    let heavier = KdfParams {
        memory_kib: 16,
        iterations: 1,
        parallelism: 1,
    };
    let other_costs = derive_kek("correct-horse", &[7u8; 16], &heavier).expect("derives");
    assert_ne!(a, other_costs);
}

#[test]
fn derive_kek_gives_the_argon2id_output() {
    let kek = derive_kek("correct-horse", &[7u8; 16], &light()).expect("derives");
    assert_eq!(
        app_lock::hex::encode_hex(&kek),
        "df904290efc8aa0d088e00a15892a5b77c845abb22dffa042dc3313933da8a6b"
    );
}

#[test]
fn seal_keyset_gives_the_known_record() {
    let keyset = sealed("correct-horse", &[0x11u8; 32]);
    assert_eq!(
        keyset.password_hash,
        "$argon2id$v=19$m=8,t=1,p=1$CAgICAgICAgICAgICAgICA$w8tS0mp4pOCcq9ZYQC2eKHaH2mHPiURmfxCVP2VLT/E"
    );
    assert_eq!(
        keyset.wrapped_dek_b64,
        "2BRoX0FwZbX4VZbSVdZ1iIjd0wKrbT8skkoPa/blFDtzPJsMRDgK+swXXHk2rFWw"
    );
}

#[test]
fn unwrap_dek_opens_a_record_made_elsewhere() {
    let keyset = Keyset {
        version: 1,
        password_hash: "$argon2id$v=19$m=8,t=1,p=1$CAgICAgICAgICAgICAgICA$w8tS0mp4pOCcq9ZYQC2eKHaH2mHPiURmfxCVP2VLT/E".to_string(),
        salt_b64: "BwcHBwcHBwcHBwcHBwcHBw==".to_string(),
        memory_kib: 8,
        iterations: 1,
        parallelism: 1,
        wrapped_dek_b64: "2BRoX0FwZbX4VZbSVdZ1iIjd0wKrbT8skkoPa/blFDtzPJsMRDgK+swXXHk2rFWw"
            .to_string(),
        nonce_b64: "CQkJCQkJCQkJCQkJ".to_string(),
    };
    assert_eq!(unwrap_dek(&keyset, "correct-horse"), Ok([0x11u8; 32]));
    let copy = keyset.duplicate();
    assert_eq!(copy.password_hash, keyset.password_hash);
    assert_eq!(copy.wrapped_dek_b64, keyset.wrapped_dek_b64);
    assert_eq!(copy.memory_kib, 8);
}

#[test]
fn every_error_has_its_message() {
    assert_eq!(
        LockError::AlreadyConfigured.message(),
        "App lock is already configured. Unlock with your existing passphrase."
    );
    assert_eq!(LockError::NotConfigured.message(), "App lock is not enabled");
    assert_eq!(
        LockError::KeyMaterialUnavailable.message(),
        "App lock is configured but key material is unavailable."
    );
    assert_eq!(
        LockError::WeakPassphrase.message(),
        "Passphrase must be at least 8 characters"
    );
    assert_eq!(LockError::InvalidPassphrase.message(), "Invalid passphrase");
    assert_eq!(LockError::Codec.message(), "Invalid stored app lock keyset");
    assert_eq!(LockError::Kdf.message(), "Failed to derive key with Argon2id");
    assert_eq!(LockError::Cipher.message(), "Failed to initialize cipher");
    assert_eq!(LockError::RandomSource.message(), "Failed to draw random bytes");
}

#[test]
fn derive_kek_refuses_bad_costs_and_short_salts() {
    let none = KdfParams {
        memory_kib: 0,
        iterations: 0,
        parallelism: 0,
    };
    assert_eq!(
        derive_kek("correct-horse", &[7u8; 16], &none),
        Err(LockError::Kdf)
    );
    assert_eq!(
        derive_kek("correct-horse", &[7u8; 4], &light()),
        Err(LockError::Kdf)
    );
}

#[test]
fn seal_keyset_fills_every_field() {
    let keyset = sealed("correct-horse", &[0x11u8; 32]);
    assert_eq!(keyset.version, 1);
    assert_eq!(keyset.memory_kib, 8);
    assert_eq!(keyset.iterations, 1);
    assert_eq!(keyset.parallelism, 1);
    assert_eq!(keyset.salt_b64, "BwcHBwcHBwcHBwcHBwcHBw==");
    assert_eq!(keyset.nonce_b64, "CQkJCQkJCQkJCQkJ");
    // Thirty-two bytes of key and sixteen of tag, in base64.
    assert_eq!(keyset.wrapped_dek_b64.len(), 64);
    assert!(keyset
        .password_hash
        .starts_with("$argon2id$v=19$m=8,t=1,p=1$CAgICAgICAgICAgICAgICA$"));
}

#[test]
fn seal_keyset_is_a_function_of_its_inputs() {
    let a = sealed("correct-horse", &[0x11u8; 32]);
    let b = sealed("correct-horse", &[0x11u8; 32]);
    assert_eq!(a.password_hash, b.password_hash);
    assert_eq!(a.wrapped_dek_b64, b.wrapped_dek_b64);
    let c = sealed("correct-horse", &[0x12u8; 32]);
    assert_ne!(a.wrapped_dek_b64, c.wrapped_dek_b64);
}

#[test]
fn seal_keyset_refuses_bad_costs() {
    let bad = KdfParams {
        memory_kib: 4,
        iterations: 1,
        parallelism: 1,
    };
    let sealed = seal_keyset(
        "correct-horse",
        &[1u8; 32],
        &[7u8; 16],
        &[8u8; 16],
        &[9u8; 12],
        &bad,
    );
    assert_eq!(sealed.err(), Some(LockError::Kdf));
}

#[test]
fn unwrap_dek_gives_back_the_wrapped_key() {
    let dek = [0xc3u8; 32];
    let keyset = sealed("correct-horse", &dek);
    assert_eq!(unwrap_dek(&keyset, "correct-horse"), Ok(dek));
}

#[test]
fn unwrap_dek_refuses_another_passphrase() {
    let keyset = sealed("correct-horse", &[0xc3u8; 32]);
    assert_eq!(
        unwrap_dek(&keyset, "correct-horsf"),
        Err(LockError::InvalidPassphrase)
    );
    assert_eq!(unwrap_dek(&keyset, ""), Err(LockError::InvalidPassphrase));
}

#[test]
fn verify_passphrase_tells_right_from_wrong() {
    let keyset = sealed("correct-horse", &[0xc3u8; 32]);
    assert_eq!(verify_passphrase(&keyset, "correct-horse"), Ok(()));
    assert_eq!(
        verify_passphrase(&keyset, "Correct-horse"),
        Err(LockError::InvalidPassphrase)
    );
}

#[test]
fn verify_passphrase_refuses_a_hash_that_does_not_parse() {
    let mut keyset = sealed("correct-horse", &[0xc3u8; 32]);
    keyset.password_hash = "not a hash".to_string();
    assert_eq!(
        verify_passphrase(&keyset, "correct-horse"),
        Err(LockError::Codec)
    );
    assert_eq!(unwrap_dek(&keyset, "correct-horse"), Err(LockError::Codec));
}

#[test]
fn verify_passphrase_refuses_stored_costs_that_argon2_refuses() {
    let mut keyset = sealed("correct-horse", &[0xc3u8; 32]);
    keyset.parallelism = u32::MAX;
    assert_eq!(
        verify_passphrase(&keyset, "correct-horse"),
        Err(LockError::Kdf)
    );
    keyset.parallelism = 1;
    keyset.memory_kib = 1;
    assert_eq!(unwrap_dek(&keyset, "correct-horse"), Err(LockError::Kdf));
}

#[test]
fn unwrap_dek_uses_the_costs_of_the_record() {
    let mut keyset = sealed("correct-horse", &[0xc3u8; 32]);
    // The hash still verifies, since it carries its own costs, but the key
    // derived with other costs does not open the wrapped key.
    keyset.memory_kib = 16;
    assert_eq!(verify_passphrase(&keyset, "correct-horse"), Ok(()));
    assert_eq!(
        unwrap_dek(&keyset, "correct-horse"),
        Err(LockError::InvalidPassphrase)
    );
}

#[test]
fn unwrap_dek_reports_damaged_fields() {
    let dek = [0xc3u8; 32];
    let mut keyset = sealed("correct-horse", &dek);
    keyset.salt_b64 = "AAAA".to_string();
    assert_eq!(unwrap_dek(&keyset, "correct-horse"), Err(LockError::Codec));

    let mut keyset = sealed("correct-horse", &dek);
    keyset.nonce_b64 = "***".to_string();
    assert_eq!(unwrap_dek(&keyset, "correct-horse"), Err(LockError::Codec));

    let mut keyset = sealed("correct-horse", &dek);
    keyset.wrapped_dek_b64 = "***".to_string();
    assert_eq!(unwrap_dek(&keyset, "correct-horse"), Err(LockError::Codec));
}

#[test]
fn unwrap_dek_reports_a_damaged_ciphertext_as_a_wrong_passphrase() {
    let dek = [0xc3u8; 32];
    let mut keyset = sealed("correct-horse", &dek);
    let mut text: Vec<char> = keyset.wrapped_dek_b64.chars().collect();
    text[0] = if text[0] == 'A' { 'B' } else { 'A' };
    keyset.wrapped_dek_b64 = text.into_iter().collect();
    assert_eq!(
        unwrap_dek(&keyset, "correct-horse"),
        Err(LockError::InvalidPassphrase)
    );

    let mut keyset = sealed("correct-horse", &dek);
    keyset.nonce_b64 = "AAAAAAAAAAAAAAAA".to_string();
    assert_eq!(
        unwrap_dek(&keyset, "correct-horse"),
        Err(LockError::InvalidPassphrase)
    );
}

#[test]
fn unwrap_dek_refuses_a_wrapped_value_of_another_length() {
    let salt = [7u8; 16];
    let nonce = [9u8; 12];
    let keyset = sealed("correct-horse", &[0u8; 32]);
    // The same passphrase, salt and nonce around a plaintext of eight bytes.
    let kek = derive_kek("correct-horse", &salt, &light()).expect("derives");
    let cipher = aes_gcm::Aes256Gcm::new_from_slice(&kek).expect("key length");
    let short = cipher
        .encrypt(aes_gcm::Nonce::from_slice(&nonce), &[1u8; 8][..])
        .expect("encrypts");
    let mut damaged = keyset.duplicate();
    damaged.wrapped_dek_b64 = base64::engine::general_purpose::STANDARD.encode(short);
    assert_eq!(
        unwrap_dek(&damaged, "correct-horse"),
        Err(LockError::InvalidPassphrase)
    );
}

#[test]
fn build_keyset_refuses_a_short_passphrase() {
    let built = build_keyset_from_passphrase("short1", None, Platform::Mobile);
    assert_eq!(built.err(), Some(LockError::WeakPassphrase));
    let built = build_keyset_from_passphrase("", Some([1u8; 32]), Platform::Desktop);
    assert_eq!(built.err(), Some(LockError::WeakPassphrase));
    // Seven code points in fourteen bytes are still too few.
    let built = build_keyset_from_passphrase("ééééééé", None, Platform::Mobile);
    assert_eq!(built.err(), Some(LockError::WeakPassphrase));
}

#[test]
fn build_keyset_wraps_the_given_key() {
    let dek = [0x42u8; 32];
    let keyset =
        build_keyset_from_passphrase("ééééééé!", Some(dek), Platform::Mobile).expect("builds");
    assert_eq!(keyset.version, 1);
    assert_eq!(keyset.memory_kib, 32768);
    assert_eq!(keyset.iterations, 3);
    assert_eq!(keyset.parallelism, 1);
    assert_eq!(unwrap_dek(&keyset, "ééééééé!"), Ok(dek));
}

fn known_kek() -> [u8; 32] {
    app_lock::hex::decode_hex_key(
        "df904290efc8aa0d088e00a15892a5b77c845abb22dffa042dc3313933da8a6b",
    )
    .expect("sixty-four digits")
}

#[test]
fn wrap_dek_gives_the_aes_gcm_ciphertext_and_tag() {
    let wrapped = wrap_dek(&[0x11u8; 32], &known_kek(), &[9u8; 12]).expect("wraps");
    assert_eq!(wrapped.len(), 48);
    assert_eq!(
        app_lock::hex::encode_hex(&wrapped),
        "d814685f417065b5f85596d255d6758888ddd302ab6d3f2c924a0f6bf6e5143b733c9b0c44380afacc175c7936ac55b0"
    );
}

#[test]
fn open_wrapped_dek_inverts_wrap_dek() {
    let kek = known_kek();
    for dek in [[0u8; 32], [0x11u8; 32], [0xffu8; 32]] {
        let wrapped = wrap_dek(&dek, &kek, &[9u8; 12]).expect("wraps");
        assert_ne!(&wrapped[..32], &dek[..]);
        assert_eq!(open_wrapped_dek(&wrapped, &[9u8; 12], &kek), Ok(dek));
    }
}

#[test]
fn open_wrapped_dek_refuses_what_does_not_authenticate() {
    let kek = known_kek();
    let wrapped = wrap_dek(&[0x11u8; 32], &kek, &[9u8; 12]).expect("wraps");
    assert_eq!(
        open_wrapped_dek(&wrapped, &[8u8; 12], &kek),
        Err(LockError::InvalidPassphrase)
    );
    assert_eq!(
        open_wrapped_dek(&wrapped, &[9u8; 12], &[0u8; 32]),
        Err(LockError::InvalidPassphrase)
    );
    let mut damaged = wrapped.clone();
    damaged[47] ^= 1;
    assert_eq!(
        open_wrapped_dek(&damaged, &[9u8; 12], &kek),
        Err(LockError::InvalidPassphrase)
    );
    assert_eq!(
        open_wrapped_dek(&wrapped[..47], &[9u8; 12], &kek),
        Err(LockError::InvalidPassphrase)
    );
    assert_eq!(
        open_wrapped_dek(&[], &[9u8; 12], &kek),
        Err(LockError::InvalidPassphrase)
    );
}

#[test]
fn hash_password_gives_the_phc_text() {
    assert_eq!(
        hash_password("correct-horse", &[8u8; 16], &light()),
        Ok("$argon2id$v=19$m=8,t=1,p=1$CAgICAgICAgICAgICAgICA$w8tS0mp4pOCcq9ZYQC2eKHaH2mHPiURmfxCVP2VLT/E".to_string())
    );
    let bad = KdfParams {
        memory_kib: 8,
        iterations: 0,
        parallelism: 1,
    };
    assert_eq!(
        hash_password("correct-horse", &[7u8; 16], &bad),
        Err(LockError::Kdf)
    );
}

#[test]
fn the_stored_hash_does_not_hold_the_key() {
    let keyset = sealed("correct-horse", &[0x11u8; 32]);
    let kek = derive_kek("correct-horse", &[7u8; 16], &light()).expect("derives");
    let kek_b64 = base64::engine::general_purpose::STANDARD_NO_PAD.encode(kek);
    assert_eq!(kek_b64, "35BCkO/Iqg0IjgChWJKlt3yEWrsi3/oELcMxOTPaims");
    assert!(!keyset.password_hash.contains(&kek_b64));
    // The salt of the hash is in the hash text and is not the keyset's salt.
    assert!(keyset.password_hash.contains("$CAgICAgICAgICAgICAgICA$"));
    assert!(!keyset.password_hash.contains("BwcHBwcHBwcHBwcHBwcHBw"));
    assert_eq!(keyset.salt_b64, "BwcHBwcHBwcHBwcHBwcHBw==");
}

#[test]
fn seal_keyset_refuses_one_salt_for_key_and_hash() {
    let sealed = seal_keyset(
        "correct-horse",
        &[1u8; 32],
        &[7u8; 16],
        &[7u8; 16],
        &[9u8; 12],
        &light(),
    );
    assert_eq!(sealed.err(), Some(LockError::RandomSource));
}

#[test]
fn build_keyset_draws_a_salt_of_its_own_for_the_hash() {
    let keyset =
        build_keyset_from_passphrase("correct-horse", None, Platform::Mobile).expect("builds");
    let salt = keyset.salt_b64.trim_end_matches('=').to_string();
    assert_eq!(salt.len(), 22);
    assert!(!keyset.password_hash.contains(&salt));
    let wrapped = base64::engine::general_purpose::STANDARD
        .decode(&keyset.wrapped_dek_b64)
        .expect("base64");
    assert_eq!(wrapped.len(), 48);
}

#[test]
fn verify_passphrase_refuses_a_hash_text_with_too_many_lanes() {
    let good = sealed("correct-horse", &[0xc3u8; 32]);
    for costs in [
        "m=8,t=1,p=16777216",
        "m=8,t=1,p=536870912",
        "m=4294967295,t=1,p=4294967295",
        "m=8,t=1,p=1,p=536870912",
        "p=536870912,m=8,t=1",
    ] {
        let mut keyset = good.duplicate();
        keyset.password_hash = good.password_hash.replace("m=8,t=1,p=1", costs);
        assert_eq!(
            verify_passphrase(&keyset, "correct-horse"),
            Err(LockError::Kdf)
        );
        assert_eq!(unwrap_dek(&keyset, "correct-horse"), Err(LockError::Kdf));
    }
}

#[test]
fn verify_passphrase_takes_the_costs_of_the_hash_text() {
    let good = sealed("correct-horse", &[0xc3u8; 32]);
    // Lanes within the limit, but more than the memory allows: Argon2
    // refuses, and the passphrase does not verify.
    let mut keyset = good.duplicate();
    keyset.password_hash = good.password_hash.replace("m=8,t=1,p=1", "m=8,t=1,p=16777215");
    assert_eq!(
        verify_passphrase(&keyset, "correct-horse"),
        Err(LockError::InvalidPassphrase)
    );
    // Other costs give another output.
    let mut keyset = good.duplicate();
    keyset.password_hash = good.password_hash.replace("m=8,t=1,p=1", "m=16,t=1,p=1");
    assert_eq!(
        verify_passphrase(&keyset, "correct-horse"),
        Err(LockError::InvalidPassphrase)
    );
    // A value that is no decimal is refused by Argon2 as well.
    let mut keyset = good.duplicate();
    keyset.password_hash = good.password_hash.replace("m=8,t=1,p=1", "m=8,t=1,p=x");
    assert_eq!(
        verify_passphrase(&keyset, "correct-horse"),
        Err(LockError::InvalidPassphrase)
    );
}

#[test]
fn is_valid_agrees_with_the_argon2_crate() {
    let values = [0u32, 1, 2, 7, 8, 9, 15, 16, 17, 64, 0xff_ffff, 0x100_0000, u32::MAX];
    for memory_kib in values {
        for iterations in [0u32, 1, 3, u32::MAX] {
            for parallelism in [0u32, 1, 2, 3, 8, 0xff_fffe, 0xff_ffff, 0x100_0000] {
                let costs = KdfParams {
                    memory_kib,
                    iterations,
                    parallelism,
                };
                let accepted =
                    argon2::Params::new(memory_kib, iterations, parallelism, Some(32)).is_ok();
                assert_eq!(costs.is_valid(), accepted);
            }
        }
    }
}
