use crypto_service_provider::algorithm::AlgorithmId;
use crypto_service_provider::key_id::bytes_hash_as_key_id;
use crypto_service_provider::key_id::public_key_hash_as_key_id;
use crypto_service_provider::key_id::KeyId;
use crypto_service_provider::secret_key_store::CorruptSecretKeyStore;
use crypto_service_provider::secret_key_store::SecretKeyStore;
use crypto_service_provider::secret_key_store::SecretKeyStoreError;
use crypto_service_provider::types::CspPublicKey;
use crypto_service_provider::types::CspSecretKey;
use sha2::Digest;

fn hex(text: &str) -> Vec<u8> {
    (0..text.len() / 2)
        .map(|i| u8::from_str_radix(&text[2 * i..2 * i + 2], 16).unwrap())
        .collect()
}

fn key(algorithm: AlgorithmId, bytes: &[u8]) -> CspSecretKey {
    CspSecretKey::new(algorithm, bytes.to_vec())
}

#[test]
fn should_derive_key_id_of_zero_ed25519_key() {
    let key_id = KeyId::from(&CspPublicKey::Ed25519([0u8; 32]));
    assert_eq!(
        key_id.get().to_vec(),
        hex("40b6d824ac461549624b366ac8d5ad45dcc79138e80e17d47a1b894f0617dbe6")
    );
}

#[test]
fn should_derive_key_id_from_algorithm_and_bytes() {
    let key_id = bytes_hash_as_key_id(AlgorithmId::Groth20_Bls12_381, &[5u8; 48]);
    assert_eq!(
        key_id.get().to_vec(),
        hex("1f6589e0343625230f5ae646b90be0b8a2652cea2f40e1d5d3e296bef7f3243a")
    );
    let mut preimage = vec![9u8];
    preimage.extend_from_slice(b"ic-key-id");
    preimage.push(9);
    preimage.extend_from_slice(&48u64.to_le_bytes());
    preimage.extend_from_slice(&[5u8; 48]);
    assert_eq!(
        key_id.get().to_vec(),
        sha2::Sha256::digest(&preimage).to_vec()
    );
}

#[test]
fn should_derive_same_key_id_for_same_public_key() {
    let public_key = CspPublicKey::MultiBls12_381([7u8; 96]);
    let copy = CspPublicKey::MultiBls12_381([7u8; 96]);
    assert_eq!(KeyId::from(&public_key), KeyId::from(&copy));
    assert_eq!(
        KeyId::from(&public_key),
        public_key_hash_as_key_id(&public_key)
    );
    assert_eq!(
        KeyId::from(&public_key),
        bytes_hash_as_key_id(AlgorithmId::MultiBls12_381, &[7u8; 96])
    );
}

#[test]
fn should_derive_different_key_ids_for_different_keys() {
    let one = KeyId::from(&CspPublicKey::Ed25519([1u8; 32]));
    let other = KeyId::from(&CspPublicKey::Ed25519([2u8; 32]));
    assert_ne!(one, other);
    assert!(!one.same_as(&other));
    assert!(one.same_as(&one));
    let as_ed25519 = bytes_hash_as_key_id(AlgorithmId::Ed25519, &[1u8; 32]);
    let as_tls = bytes_hash_as_key_id(AlgorithmId::Tls, &[1u8; 32]);
    assert_eq!(one, as_ed25519);
    assert_ne!(as_ed25519, as_tls);
    assert_eq!(KeyId::from([3u8; 32]).get(), [3u8; 32]);
}

#[test]
fn should_insert_get_and_remove_keys() {
    let mut store = SecretKeyStore::new();
    let id = KeyId::from([1u8; 32]);
    assert_eq!(store.len(), 0);
    assert!(!store.contains(&id));
    assert_eq!(store.get(&id), None);
    assert_eq!(
        store.insert(id, key(AlgorithmId::Ed25519, &[9u8; 32])),
        Ok(())
    );
    assert!(store.contains(&id));
    assert_eq!(store.get(&id), Some(key(AlgorithmId::Ed25519, &[9u8; 32])));
    assert_eq!(store.len(), 1);
    assert!(!store.contains(&KeyId::from([2u8; 32])));
    assert!(store.remove(&id));
    assert!(!store.remove(&id));
    assert!(!store.contains(&id));
    assert_eq!(store.len(), 0);
}

#[test]
fn should_refuse_other_key_under_same_id() {
    let mut store = SecretKeyStore::new();
    let id = KeyId::from([1u8; 32]);
    store
        .insert(id, key(AlgorithmId::Ed25519, &[9u8; 32]))
        .unwrap();
    assert_eq!(
        store.insert(id, key(AlgorithmId::Ed25519, &[8u8; 32])),
        Err(SecretKeyStoreError::DuplicateKeyId(id))
    );
    assert_eq!(
        store.insert(id, key(AlgorithmId::MultiBls12_381, &[9u8; 32])),
        Err(SecretKeyStoreError::DuplicateKeyId(id))
    );
    assert_eq!(store.get(&id), Some(key(AlgorithmId::Ed25519, &[9u8; 32])));
    assert_eq!(store.len(), 1);
}

#[test]
fn should_accept_same_key_under_same_id_again() {
    let mut store = SecretKeyStore::new();
    let id = KeyId::from([1u8; 32]);
    store
        .insert(id, key(AlgorithmId::Ed25519, &[9u8; 32]))
        .unwrap();
    assert_eq!(
        store.insert(id, key(AlgorithmId::Ed25519, &[9u8; 32])),
        Ok(())
    );
    assert_eq!(store.len(), 1);
}

#[test]
fn should_write_empty_store_as_zero_count() {
    assert_eq!(SecretKeyStore::new().to_bytes(), vec![0u8; 8]);
}

#[test]
fn should_write_store_in_documented_format() {
    let mut store = SecretKeyStore::new();
    store
        .insert(KeyId::from([1u8; 32]), key(AlgorithmId::Ed25519, &[9, 8, 7]))
        .unwrap();
    store
        .insert(KeyId::from([2u8; 32]), key(AlgorithmId::MultiBls12_381, &[]))
        .unwrap();
    let mut expected = vec![2u8, 0, 0, 0, 0, 0, 0, 0];
    expected.extend_from_slice(&[1u8; 32]);
    expected.push(7);
    expected.extend_from_slice(&[3, 0, 0, 0, 0, 0, 0, 0]);
    expected.extend_from_slice(&[9, 8, 7]);
    expected.extend_from_slice(&[2u8; 32]);
    expected.push(1);
    expected.extend_from_slice(&[0u8; 8]);
    assert_eq!(store.to_bytes(), expected);
}

#[test]
fn should_reopen_store_with_identical_keys() {
    let mut store = SecretKeyStore::new();
    let first = KeyId::from(&CspPublicKey::Ed25519([4u8; 32]));
    let second = KeyId::from(&CspPublicKey::MultiBls12_381([5u8; 96]));
    store
        .insert(first, key(AlgorithmId::Ed25519, &[11u8; 32]))
        .unwrap();
    store
        .insert(second, key(AlgorithmId::MultiBls12_381, &[12u8; 32]))
        .unwrap();
    let file = store.to_bytes();
    let reopened = SecretKeyStore::open(Some(&file)).unwrap();
    assert_eq!(reopened.len(), 2);
    assert_eq!(
        reopened.get(&first),
        Some(key(AlgorithmId::Ed25519, &[11u8; 32]))
    );
    assert_eq!(
        reopened.get(&second),
        Some(key(AlgorithmId::MultiBls12_381, &[12u8; 32]))
    );
    assert_eq!(reopened.to_bytes(), file);
}

#[test]
fn should_open_empty_store_without_file() {
    let store = SecretKeyStore::open(None).unwrap();
    assert_eq!(store.len(), 0);
}

#[test]
fn should_refuse_corrupt_store_files() {
    let mut store = SecretKeyStore::new();
    store
        .insert(KeyId::from([1u8; 32]), key(AlgorithmId::Ed25519, &[9, 8, 7]))
        .unwrap();
    let file = store.to_bytes();
    assert!(SecretKeyStore::from_bytes(&file).is_ok());

    assert_eq!(
        SecretKeyStore::from_bytes(&[]).err(),
        Some(CorruptSecretKeyStore)
    );
    assert!(SecretKeyStore::from_bytes(&[0u8; 7]).is_err());
    assert!(SecretKeyStore::open(Some(&[0u8; 9])).is_err());

    let truncated = &file[..file.len() - 1];
    assert!(SecretKeyStore::from_bytes(truncated).is_err());

    let mut trailing = file.clone();
    trailing.push(0);
    assert!(SecretKeyStore::from_bytes(&trailing).is_err());

    let mut bad_algorithm = file.clone();
    bad_algorithm[8 + 32] = 17;
    assert!(SecretKeyStore::from_bytes(&bad_algorithm).is_err());

    let mut too_many = file.clone();
    too_many[0] = 2;
    assert!(SecretKeyStore::from_bytes(&too_many).is_err());

    let mut huge_length = file.clone();
    huge_length[8 + 33 + 7] = 0xff;
    assert!(SecretKeyStore::from_bytes(&huge_length).is_err());

    let mut twice = vec![2u8, 0, 0, 0, 0, 0, 0, 0];
    twice.extend_from_slice(&file[8..]);
    twice.extend_from_slice(&file[8..]);
    assert!(SecretKeyStore::from_bytes(&twice).is_err());
}

#[test]
fn should_tell_secret_keys_apart() {
    let one = key(AlgorithmId::Ed25519, &[1, 2, 3]);
    assert!(one.same_as(&one.duplicate()));
    assert!(!one.same_as(&key(AlgorithmId::Ed25519, &[1, 2, 4])));
    assert!(!one.same_as(&key(AlgorithmId::Ed25519, &[1, 2])));
    assert!(!one.same_as(&key(AlgorithmId::Tls, &[1, 2, 3])));
    assert_eq!(one.enum_variant(), "Ed25519");
}
