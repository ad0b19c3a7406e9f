use vault::codec::{Encryption, VaultPayload};
use vault::error::Error;
use vault::key::{EncryptedKey, EncryptionKey};
use vault::permissions::{EncryptionKeyAction, KeyId, Permissions};
use vault::storage::{LossyMasterKeyStorage, MasterKeyStorage, MemoryMasterKeyStorage};
use vault::vault::Vault;

#[test]
fn vault_encryption_test() {
    let vault = Vault::new(EncryptionKey::random(), MemoryMasterKeyStorage::new());
    let encrypted = vault
        .encrypt_payload(&KeyId::Master, b"hello", None)
        .unwrap();
    let decrypted = vault
        .decrypt_payload(&KeyId::Master, &encrypted, None)
        .unwrap();

    assert_eq!(decrypted, b"hello");
}

#[test]
fn vault_permissions_test() {
    let vault = Vault::new(EncryptionKey::random(), MemoryMasterKeyStorage::new());
    assert!(matches!(
        vault.encrypt_payload(&KeyId::Master, b"hello", Some(&Permissions::default())),
        Err(Error::PermissionDenied { .. })
    ));
    let encrypted = vault
        .encrypt_payload(&KeyId::Master, b"hello", None)
        .unwrap();
    assert!(matches!(
        vault.decrypt_payload(&KeyId::Master, &encrypted, Some(&Permissions::default())),
        Err(Error::PermissionDenied { .. })
    ));
}

#[test]
fn permission_denied_names_key_and_action() {
    let vault = Vault::new(EncryptionKey::random(), MemoryMasterKeyStorage::new());
    match vault.encrypt_payload(&KeyId::Master, b"x", Some(&Permissions::none())) {
        Err(Error::PermissionDenied { key, action }) => {
            assert_eq!(key, KeyId::Master);
            assert_eq!(action, EncryptionKeyAction::Encrypt);
        }
        other => panic!("expected a permission denial, got {:?}", other.err()),
    }
}

#[test]
fn granting_permissions_lets_calls_through() {
    let vault = Vault::new(EncryptionKey::random(), MemoryMasterKeyStorage::new());
    let mut permissions = Permissions::none();
    permissions.grant(KeyId::Master, EncryptionKeyAction::Encrypt);
    permissions.grant(KeyId::Master, EncryptionKeyAction::Decrypt);
    let encrypted = vault
        .encrypt_payload(&KeyId::Master, b"gated", Some(&permissions))
        .unwrap();
    let decrypted = vault
        .decrypt_payload(&KeyId::Master, &encrypted, Some(&permissions))
        .unwrap();
    assert_eq!(decrypted, b"gated");
}

#[test]
fn round_trip_empty_and_long_payloads() {
    let vault = Vault::new(EncryptionKey::random(), MemoryMasterKeyStorage::new());
    for payload in [b"".to_vec(), b"a".to_vec(), vec![0xabu8; 10_000]] {
        let encrypted = vault
            .encrypt_payload(&KeyId::Master, &payload, None)
            .unwrap();
        let decrypted = vault
            .decrypt_payload(&KeyId::Master, &encrypted, None)
            .unwrap();
        assert_eq!(decrypted, payload);
    }
}

#[test]
fn nonce_uniqueness_two_envelopes_differ() {
    let key = EncryptionKey::random();
    let first = key.encrypt_payload(b"same payload");
    let second = key.encrypt_payload(b"same payload");
    assert_ne!(first.nonce, second.nonce);
    assert_ne!(first.to_vec(), second.to_vec());
}

#[test]
fn tampered_ciphertext_fails_on_every_bit() {
    let key = EncryptionKey::random();
    let envelope = key.encrypt_payload(b"hello");
    for byte in 0..envelope.payload.len() {
        for bit in 0..8 {
            let mut tampered_payload = envelope.payload.clone();
            tampered_payload[byte] ^= 1 << bit;
            let tampered = VaultPayload {
                key_version: envelope.key_version,
                encryption: Encryption::XChaCha20Poly1305,
                payload: tampered_payload,
                nonce: envelope.nonce.clone(),
            };
            assert!(key.decrypt_payload(&tampered).is_err());
        }
    }
}

#[test]
fn tampered_nonce_fails_on_every_bit() {
    let key = EncryptionKey::random();
    let envelope = key.encrypt_payload(b"hello");
    for byte in 0..envelope.nonce.len() {
        for bit in 0..8 {
            let mut tampered_nonce = envelope.nonce.clone();
            tampered_nonce[byte] ^= 1 << bit;
            let tampered = VaultPayload {
                key_version: envelope.key_version,
                encryption: Encryption::XChaCha20Poly1305,
                payload: envelope.payload.clone(),
                nonce: tampered_nonce,
            };
            assert!(key.decrypt_payload(&tampered).is_err());
        }
    }
}

#[test]
fn wrong_key_fails_to_decrypt() {
    let key = EncryptionKey::random();
    let other = EncryptionKey::random();
    let envelope = key.encrypt_payload(b"hello");
    assert!(other.decrypt_payload(&envelope).is_err());
    assert_eq!(key.decrypt_payload(&envelope).unwrap(), b"hello");
}

#[test]
fn key_wrap_round_trip() {
    let master = EncryptionKey::random();
    let (wrapping_key, wrapped) = master.encrypt_key();
    let unwrapped = wrapped.decrypt(&wrapping_key).unwrap();
    assert_eq!(unwrapped.to_bytes(), master.to_bytes());
}

#[test]
fn key_wrap_fails_under_wrong_wrapping_key() {
    let master = EncryptionKey::random();
    let (_wrapping_key, wrapped) = master.encrypt_key();
    let wrong = EncryptionKey::random();
    assert!(matches!(wrapped.decrypt(&wrong), Err(Error::Encryption(_))));
}

#[test]
fn encryption_key_serialization_round_trip() {
    let key = EncryptionKey::random();
    let bytes = key.to_bytes();
    assert_eq!(bytes.len(), 32);
    let back = EncryptionKey::from_bytes(&bytes).unwrap();
    assert_eq!(back.to_bytes(), bytes);
    assert!(EncryptionKey::from_bytes(&bytes[..31]).is_none());
    assert!(EncryptionKey::from_bytes(b"").is_none());
}

#[test]
fn envelope_codec_exact_bytes() {
    let envelope = VaultPayload {
        key_version: 7,
        encryption: Encryption::XChaCha20Poly1305,
        payload: vec![1, 2],
        nonce: vec![3],
    };
    let mut expected: Vec<u8> = Vec::new();
    expected.extend_from_slice(&[7, 0, 0, 0]); // key_version
    expected.extend_from_slice(&[0, 0, 0, 0]); // algorithm tag
    expected.extend_from_slice(&[2, 0, 0, 0, 0, 0, 0, 0]); // payload length
    expected.extend_from_slice(&[1, 2]); // payload
    expected.extend_from_slice(&[1, 0, 0, 0, 0, 0, 0, 0]); // nonce length
    expected.extend_from_slice(&[3]); // nonce
    let bytes = envelope.to_vec();
    assert_eq!(bytes, expected);

    let decoded = VaultPayload::from_slice(&bytes).unwrap();
    assert_eq!(decoded.key_version, 7);
    assert_eq!(decoded.payload, vec![1, 2]);
    assert_eq!(decoded.nonce, vec![3]);
}

#[test]
fn envelope_codec_rejects_malformed_bytes() {
    assert!(matches!(VaultPayload::from_slice(b""), Err(Error::Encryption(_))));
    assert!(VaultPayload::from_slice(&[0u8; 23]).is_err());

    let envelope = VaultPayload {
        key_version: 0,
        encryption: Encryption::XChaCha20Poly1305,
        payload: vec![9; 4],
        nonce: vec![8; 24],
    };
    let good = envelope.to_vec();
    assert!(VaultPayload::from_slice(&good).is_ok());
    // A trailing byte breaks the exact-length framing.
    let mut trailing = good.clone();
    trailing.push(0);
    assert!(VaultPayload::from_slice(&trailing).is_err());
    // A truncated envelope no longer matches its length words.
    assert!(VaultPayload::from_slice(&good[..good.len() - 1]).is_err());
    // An unknown algorithm tag is refused.
    let mut bad_tag = good.clone();
    bad_tag[4] = 1;
    assert!(VaultPayload::from_slice(&bad_tag).is_err());
}

#[test]
fn bootstrap_fresh_then_reopen_existing() {
    let storage = MemoryMasterKeyStorage::new();
    let (vault, sealing_key_file) = Vault::initialize(1, None, storage).unwrap();
    // The fresh branch hands back the sealing key to persist, and custody
    // now holds exactly one record for this identity.
    let sealing_key_file = sealing_key_file.unwrap();
    assert_eq!(sealing_key_file.len(), 32);
    assert_eq!(vault.master_key_storage().record_count(), 1);
    assert!(vault
        .master_key_storage()
        .master_key_for(1)
        .unwrap()
        .is_some());

    let encrypted = vault
        .encrypt_payload(&KeyId::Master, b"hello", None)
        .unwrap();
    assert_eq!(
        vault
            .decrypt_payload(&KeyId::Master, &encrypted, None)
            .unwrap(),
        b"hello"
    );

    // Reopen against the same directory contents and backend, as a process
    // restart would: the master key is reconstructed, never regenerated.
    let reopened_storage = vault.master_key_storage().clone();
    let (reopened, written) =
        Vault::initialize(1, Some(sealing_key_file.clone()), reopened_storage).unwrap();
    assert!(written.is_none());
    assert_eq!(
        reopened
            .decrypt_payload(&KeyId::Master, &encrypted, None)
            .unwrap(),
        b"hello"
    );
}

#[test]
fn verify_before_commit_guard() {
    // A backend that acknowledges the write but stores nothing: the
    // readback mismatches, initialization fails, and no sealing key bytes
    // are handed out to be written.
    let result = Vault::initialize(1, None, LossyMasterKeyStorage::new());
    assert!(matches!(result, Err(Error::MasterKeyStorage(_))));
}

#[test]
fn corrupted_custody_record_fails_existing_initialization() {
    let (vault, sealing_key_file) =
        Vault::initialize(1, None, MemoryMasterKeyStorage::new()).unwrap();
    let sealing_key_file = sealing_key_file.unwrap();

    // Corrupt one byte of the custody record, then attempt the existing
    // branch: it must fail with a cryptographic error, never hand back a
    // wrong key.
    let record = vault.master_key_storage().master_key_for(1).unwrap().unwrap();
    let mut corrupted = record.to_vec();
    let last = corrupted.len() - 1;
    corrupted[last] ^= 0x01;
    let mut storage = vault.master_key_storage().clone();
    storage
        .set_master_key_for(1, &EncryptedKey::from_bytes(corrupted))
        .unwrap();
    let result = Vault::initialize(1, Some(sealing_key_file), storage);
    assert!(matches!(result, Err(Error::Encryption(_))));
}

#[test]
fn unusable_sealing_key_file_is_fatal() {
    let result = Vault::initialize(1, Some(vec![1, 2, 3]), MemoryMasterKeyStorage::new());
    assert!(matches!(result, Err(Error::Initializing(_))));
}

#[test]
fn missing_custody_record_is_master_key_not_found() {
    // A sealing key exists locally but custody has no record: distinct from
    // every other initialization failure.
    let result = Vault::initialize(1, Some(vec![0; 32]), MemoryMasterKeyStorage::new());
    assert!(matches!(result, Err(Error::MasterKeyNotFound)));
}

#[test]
fn memory_storage_returns_latest_write() {
    let mut storage = MemoryMasterKeyStorage::new();
    assert!(storage.master_key_for(5).unwrap().is_none());
    storage
        .set_master_key_for(5, &EncryptedKey::from_bytes(vec![1, 2, 3]))
        .unwrap();
    storage
        .set_master_key_for(5, &EncryptedKey::from_bytes(vec![4, 5]))
        .unwrap();
    let record = storage.master_key_for(5).unwrap().unwrap();
    assert_eq!(record.to_vec(), vec![4, 5]);
    assert!(storage.master_key_for(6).unwrap().is_none());
}

#[test]
fn ciphertext_is_not_the_plaintext() {
    let key = EncryptionKey::random();
    let envelope = key.encrypt_payload(b"hello");
    // The sealed form carries a 16-byte tag beyond the message itself.
    assert_eq!(envelope.payload.len(), 5 + 16);
    assert_ne!(&envelope.payload[..5], b"hello");
    assert_eq!(envelope.nonce.len(), 24);
}

#[test]
fn mismatched_sealing_key_fails_existing_initialization() {
    // A well-formed sealing key that is not the one the custody record was
    // wrapped under — restored from inconsistent backups, say — must fail
    // as a cryptographic mismatch, never unwrap to a wrong key.
    let (vault, _sealing_key_file) =
        Vault::initialize(1, None, MemoryMasterKeyStorage::new()).unwrap();
    let wrong_sealing_key = vec![7u8; 32];
    let result = Vault::initialize(1, Some(wrong_sealing_key), vault.master_key_storage().clone());
    assert!(matches!(result, Err(Error::Encryption(_))));
}

#[test]
fn tampering_with_envelope_bytes_through_vault_surface() {
    let vault = Vault::new(EncryptionKey::random(), MemoryMasterKeyStorage::new());
    let encrypted = vault
        .encrypt_payload(&KeyId::Master, b"hello", None)
        .unwrap();
    // Envelope layout: 16 bytes of header words, then the 21-byte sealed
    // payload, then the 8-byte nonce length, then the 24-byte nonce. Every
    // bit of the authenticated regions must trip the decrypt.
    let ciphertext_region = 16..16 + 21;
    let nonce_region = encrypted.len() - 24..encrypted.len();
    for byte in ciphertext_region.chain(nonce_region) {
        for bit in 0..8 {
            let mut tampered = encrypted.clone();
            tampered[byte] ^= 1 << bit;
            assert!(matches!(
                vault.decrypt_payload(&KeyId::Master, &tampered, None),
                Err(Error::Encryption(_))
            ));
        }
    }
}

#[test]
fn commit_fresh_accepts_only_matching_readback() {
    // Matching readback: the commit succeeds and releases the sealing key.
    let master = EncryptionKey::random();
    let (sealing, wrapped) = master.encrypt_key();
    let readback = Some(EncryptedKey::from_bytes(wrapped.to_vec()));
    let (_vault, sk) =
        Vault::commit_fresh(master, sealing, &wrapped, readback, MemoryMasterKeyStorage::new())
            .unwrap();
    assert_eq!(sk.unwrap().len(), 32);

    // A missing readback is the custody error.
    let master = EncryptionKey::random();
    let (sealing, wrapped) = master.encrypt_key();
    assert!(matches!(
        Vault::commit_fresh(master, sealing, &wrapped, None, MemoryMasterKeyStorage::new()),
        Err(Error::MasterKeyStorage(_))
    ));

    // A readback differing in one byte is the custody error too.
    let master = EncryptionKey::random();
    let (sealing, wrapped) = master.encrypt_key();
    let mut other = wrapped.to_vec();
    other[0] ^= 1;
    let readback = Some(EncryptedKey::from_bytes(other));
    assert!(matches!(
        Vault::commit_fresh(master, sealing, &wrapped, readback, MemoryMasterKeyStorage::new()),
        Err(Error::MasterKeyStorage(_))
    ));
}
