use crypto_service_provider::algorithm::AlgorithmId;
use crypto_service_provider::api::CryptoError;
use crypto_service_provider::api::CspKeyGenerator;
use crypto_service_provider::api::CspSecretKeyStoreChecker;
use crypto_service_provider::api::CspSigner;
use crypto_service_provider::api::CspTlsHandshakeSigner;
use crypto_service_provider::api::NodePublicKeyData;
use crypto_service_provider::key_id::bytes_hash_as_key_id;
use crypto_service_provider::key_id::KeyId;
use crypto_service_provider::lock::LockAccess;
use crypto_service_provider::lock::LockedResource;
use crypto_service_provider::node_public_keys::CspFsEncryptionPublicKey;
use crypto_service_provider::node_public_keys::MEGaPublicKeyK256Bytes;
use crypto_service_provider::node_public_keys::NodePublicKeys;
use crypto_service_provider::node_public_keys::PublicKey;
use crypto_service_provider::node_public_keys::PublicKeyDecodeError;
use crypto_service_provider::node_public_keys::X509PublicKeyCert;
use crypto_service_provider::secret_key_store::SecretKeyStore;
use crypto_service_provider::types::CspPublicKey;
use crypto_service_provider::types::CspSecretKey;
use crypto_service_provider::vault::api::CspVault;
use crypto_service_provider::vault::local_csp_vault::LocalCspVault;
use crypto_service_provider::CryptoConfig;
use crypto_service_provider::CryptoServiceProvider;
use crypto_service_provider::Csp;
use crypto_service_provider::CspStartupError;
use crypto_service_provider::CspVaultType;
use crypto_service_provider::PublicKeyData;
use crypto_service_provider::PublicKeyDataError;
use rand::SeedableRng;
use rand_chacha::ChaCha20Rng;

fn entry(algorithm: AlgorithmId, key_value: Vec<u8>) -> PublicKey {
    PublicKey {
        version: 0,
        algorithm: algorithm as i32,
        key_value,
        proof_data: None,
        timestamp: None,
    }
}

fn full_node_public_keys() -> NodePublicKeys {
    NodePublicKeys {
        version: 1,
        node_signing_pk: Some(entry(AlgorithmId::Ed25519, vec![1u8; 32])),
        committee_signing_pk: Some(entry(AlgorithmId::MultiBls12_381, vec![2u8; 96])),
        tls_certificate: Some(X509PublicKeyCert {
            certificate_der: vec![3u8; 10],
        }),
        dkg_dealing_encryption_pk: Some(entry(AlgorithmId::Groth20_Bls12_381, vec![4u8; 48])),
        idkg_dealing_encryption_pk: Some(entry(AlgorithmId::MegaSecp256k1, vec![5u8; 33])),
    }
}

fn csp() -> Csp<LocalCspVault> {
    Csp::of(ChaCha20Rng::from_seed([42u8; 32]), SecretKeyStore::new())
}

fn provider_count<P: CryptoServiceProvider>(provider: &P) -> u8 {
    provider
        .current_node_public_keys()
        .get_pub_keys_and_cert_count()
}

#[test]
fn should_accept_node_public_keys_that_decode() {
    assert!(PublicKeyData::try_from(NodePublicKeys::default()).is_ok());
    assert!(PublicKeyData::try_from(full_node_public_keys()).is_ok());
}

#[test]
fn should_name_first_role_whose_key_does_not_decode() {
    let mut keys = full_node_public_keys();
    keys.node_signing_pk = Some(entry(AlgorithmId::Placeholder, vec![]));
    keys.dkg_dealing_encryption_pk = Some(entry(AlgorithmId::Ed25519, vec![4u8; 48]));
    assert_eq!(
        PublicKeyData::try_from(keys).err(),
        Some(PublicKeyDataError::NodeSigning(
            PublicKeyDecodeError::UnsupportedAlgorithm {
                algorithm: AlgorithmId::Placeholder
            }
        ))
    );

    let mut keys = full_node_public_keys();
    keys.committee_signing_pk = Some(entry(AlgorithmId::MultiBls12_381, vec![2u8; 95]));
    assert_eq!(
        PublicKeyData::try_from(keys).err(),
        Some(PublicKeyDataError::CommitteeSigning(
            PublicKeyDecodeError::MalformedPublicKey {
                algorithm: AlgorithmId::MultiBls12_381,
                key_length: 95
            }
        ))
    );

    let mut keys = full_node_public_keys();
    keys.dkg_dealing_encryption_pk = Some(entry(AlgorithmId::Ed25519, vec![4u8; 48]));
    assert_eq!(
        PublicKeyData::try_from(keys).err(),
        Some(PublicKeyDataError::DkgDealingEncryption(
            PublicKeyDecodeError::UnsupportedAlgorithm {
                algorithm: AlgorithmId::Ed25519
            }
        ))
    );

    let mut keys = full_node_public_keys();
    keys.idkg_dealing_encryption_pk = Some(entry(AlgorithmId::MegaSecp256k1, vec![5u8; 32]));
    assert_eq!(
        PublicKeyData::try_from(keys).err(),
        Some(PublicKeyDataError::IDkgDealingEncryption(
            PublicKeyDecodeError::MalformedPublicKey {
                algorithm: AlgorithmId::MegaSecp256k1,
                key_length: 32
            }
        ))
    );
}

#[test]
fn should_decode_public_keys_by_role() {
    assert_eq!(
        CspPublicKey::try_from(&entry(AlgorithmId::Ed25519, vec![1u8; 32])),
        Ok(CspPublicKey::Ed25519([1u8; 32]))
    );
    assert_eq!(
        CspPublicKey::try_from(&entry(AlgorithmId::MultiBls12_381, vec![2u8; 96])),
        Ok(CspPublicKey::MultiBls12_381([2u8; 96]))
    );
    assert_eq!(
        CspPublicKey::try_from(&entry(AlgorithmId::Ed25519, vec![1u8; 33])),
        Err(PublicKeyDecodeError::MalformedPublicKey {
            algorithm: AlgorithmId::Ed25519,
            key_length: 33
        })
    );
    assert_eq!(
        CspPublicKey::try_from(&entry(AlgorithmId::EcdsaP256, vec![1u8; 32])),
        Err(PublicKeyDecodeError::UnsupportedAlgorithm {
            algorithm: AlgorithmId::EcdsaP256
        })
    );
    assert_eq!(
        CspFsEncryptionPublicKey::try_from(&entry(AlgorithmId::Groth20_Bls12_381, vec![4u8; 48])),
        Ok(CspFsEncryptionPublicKey::Groth20_Bls12_381([4u8; 48]))
    );
    assert_eq!(
        MEGaPublicKeyK256Bytes::try_from(&entry(AlgorithmId::MegaSecp256k1, vec![5u8; 33])),
        Ok(MEGaPublicKeyK256Bytes([5u8; 33]))
    );
    assert!(
        MEGaPublicKeyK256Bytes::try_from(&entry(AlgorithmId::Groth20_Bls12_381, vec![5u8; 33]))
            .is_err()
    );
}

#[test]
fn should_have_no_public_keys_in_test_provider() {
    let csp = csp();
    assert_eq!(provider_count(&csp), 0);
    assert_eq!(csp.csp_vault().node_secret_key_store().len(), 0);
}

#[test]
fn should_reset_public_key_data() {
    let mut csp = csp();
    assert_eq!(csp.reset_public_key_data(full_node_public_keys()), Ok(()));
    let current = csp.current_node_public_keys();
    assert_eq!(current.get_pub_keys_and_cert_count(), 5);
    assert_eq!(
        current.node_signing_public_key,
        full_node_public_keys().node_signing_pk
    );
    assert_eq!(
        current.tls_certificate,
        full_node_public_keys().tls_certificate
    );
    assert_eq!(
        current.idkg_dealing_encryption_public_key,
        full_node_public_keys().idkg_dealing_encryption_pk
    );

    let mut invalid = NodePublicKeys::default();
    invalid.node_signing_pk = Some(entry(AlgorithmId::Ed25519, vec![1u8; 31]));
    assert_eq!(
        csp.reset_public_key_data(invalid),
        Err(PublicKeyDataError::NodeSigning(
            PublicKeyDecodeError::MalformedPublicKey {
                algorithm: AlgorithmId::Ed25519,
                key_length: 31
            }
        ))
    );
    assert_eq!(provider_count(&csp), 5);
}

#[test]
fn should_give_dkg_dealing_encryption_key_id() {
    let mut csp = csp();
    csp.reset_public_key_data(full_node_public_keys()).unwrap();
    assert_eq!(
        csp.dkg_dealing_encryption_key_id(),
        bytes_hash_as_key_id(AlgorithmId::Groth20_Bls12_381, &[4u8; 48])
    );
    assert_eq!(
        CspFsEncryptionPublicKey::Groth20_Bls12_381([5u8; 48])
            .key_id()
            .get()
            .to_vec(),
        (0..32)
            .map(|i| u8::from_str_radix(
                &"1f6589e0343625230f5ae646b90be0b8a2652cea2f40e1d5d3e296bef7f3243a"
                    [2 * i..2 * i + 2],
                16
            )
            .unwrap())
            .collect::<Vec<u8>>()
    );
}

#[test]
fn should_sign_and_verify_through_provider() {
    let mut csp = csp();
    let public_key = csp.gen_key_pair(AlgorithmId::Ed25519).unwrap();
    let key_id = KeyId::from(&public_key);
    let signature = csp.sign(AlgorithmId::Ed25519, b"message", key_id).unwrap();
    assert_eq!(
        csp.verify(&signature, b"message", AlgorithmId::Ed25519, public_key),
        Ok(())
    );

    let (multi_key, pop) = csp
        .gen_key_pair_with_pop(AlgorithmId::MultiBls12_381)
        .unwrap();
    let multi_id = KeyId::from(&multi_key);
    let multi_signature = csp
        .sign(AlgorithmId::MultiBls12_381, b"message", multi_id)
        .unwrap();
    assert_eq!(
        csp.verify(
            &multi_signature,
            b"message",
            AlgorithmId::MultiBls12_381,
            multi_key
        ),
        Ok(())
    );
    assert_eq!(
        csp.verify_pop(&pop, AlgorithmId::MultiBls12_381, multi_key),
        Ok(())
    );
    assert_eq!(csp.csp_vault().node_secret_key_store().len(), 2);
}

#[test]
fn should_hand_on_vault_errors_through_provider() {
    let mut csp = csp();
    let public_key = csp.gen_key_pair(AlgorithmId::Ed25519).unwrap();
    let key_id = KeyId::from(&public_key);
    assert_eq!(
        csp.sign(AlgorithmId::EcdsaP256, b"message", key_id),
        Err(CryptoError::AlgorithmNotSupported {
            algorithm: AlgorithmId::EcdsaP256
        })
    );
    assert_eq!(
        csp.sign(AlgorithmId::MultiBls12_381, b"message", key_id),
        Err(CryptoError::WrongSecretKeyType {
            algorithm: AlgorithmId::MultiBls12_381,
            stored_variant: "Ed25519".to_string()
        })
    );
    let unknown = KeyId::from([0u8; 32]);
    assert_eq!(
        csp.sign(AlgorithmId::Ed25519, b"message", unknown),
        Err(CryptoError::SecretKeyNotFound {
            algorithm: AlgorithmId::Ed25519,
            key_id: unknown
        })
    );
    assert_eq!(
        csp.gen_key_pair(AlgorithmId::Tls),
        Err(CryptoError::AlgorithmNotSupported {
            algorithm: AlgorithmId::Tls
        })
    );
    assert_eq!(
        csp.gen_key_pair_with_pop(AlgorithmId::Ed25519),
        Err(CryptoError::AlgorithmNotSupported {
            algorithm: AlgorithmId::Ed25519
        })
    );
}

#[test]
fn should_start_from_files() {
    let mut vault = LocalCspVault::new_with_seed([1u8; 32]);
    let public_key = vault.gen_key_pair(AlgorithmId::Ed25519).unwrap();
    let key_id = KeyId::from(&public_key);
    let signature = vault.sign(AlgorithmId::Ed25519, b"message", key_id);
    let sks_file = vault.node_secret_key_store().to_bytes();

    let mut canister_store = SecretKeyStore::new();
    canister_store
        .insert(
            KeyId::from([8u8; 32]),
            CspSecretKey::new(AlgorithmId::ThresholdEcdsaSecp256k1, vec![1, 2, 3]),
        )
        .unwrap();
    let canister_file = canister_store.to_bytes();

    let csp = Csp::new_with_in_replica_vault(
        Some(&sks_file),
        Some(&canister_file),
        Some(&full_node_public_keys().to_bytes()),
    )
    .unwrap();
    assert_eq!(csp.sign(AlgorithmId::Ed25519, b"message", key_id).ok(), signature.ok());
    assert_eq!(provider_count(&csp), 5);
    assert_eq!(
        csp.csp_vault()
            .canister_secret_key_store()
            .get(&KeyId::from([8u8; 32])),
        Some(CspSecretKey::new(
            AlgorithmId::ThresholdEcdsaSecp256k1,
            vec![1, 2, 3]
        ))
    );

    let csp = Csp::new_with_in_replica_vault(None, None, None).unwrap();
    assert_eq!(provider_count(&csp), 0);
    assert_eq!(csp.csp_vault().node_secret_key_store().len(), 0);

    let csp = Csp::new_with_rng(ChaCha20Rng::from_seed([3u8; 32]), Some(&sks_file), None).unwrap();
    assert!(csp.csp_vault().node_secret_key_store().contains(&key_id));
}

#[test]
fn should_refuse_to_start_from_corrupt_files() {
    let good = SecretKeyStore::new().to_bytes();
    assert_eq!(
        Csp::new_with_in_replica_vault(Some(&[1, 2, 3]), Some(&[4]), None).err(),
        Some(CspStartupError::CorruptSecretKeyStore)
    );
    assert_eq!(
        Csp::new_with_in_replica_vault(Some(&good), Some(&[4]), None).err(),
        Some(CspStartupError::CorruptCanisterSecretKeyStore)
    );
    let mut invalid = NodePublicKeys::default();
    invalid.dkg_dealing_encryption_pk = Some(entry(AlgorithmId::Groth20_Bls12_381, vec![]));
    let expected = CspStartupError::InvalidNodePublicKeys(
        PublicKeyDataError::DkgDealingEncryption(PublicKeyDecodeError::MalformedPublicKey {
            algorithm: AlgorithmId::Groth20_Bls12_381,
            key_length: 0,
        }),
    );
    assert_eq!(
        Csp::new_with_in_replica_vault(Some(&good), None, Some(&invalid.to_bytes())).err(),
        Some(expected)
    );
    assert_eq!(
        Csp::new_with_rng(
            ChaCha20Rng::from_seed([3u8; 32]),
            None,
            Some(&invalid.to_bytes())
        )
        .err(),
        Some(expected)
    );
    assert_eq!(
        Csp::new_with_rng(ChaCha20Rng::from_seed([3u8; 32]), Some(&[0u8; 3]), None).err(),
        Some(CspStartupError::CorruptSecretKeyStore)
    );
}

#[test]
fn should_need_runtime_handle_only_for_vault_behind_socket() {
    let in_replica = CryptoConfig {
        crypto_root: "/tmp/crypto".to_string(),
        csp_vault_type: CspVaultType::InReplica,
    };
    let behind_socket = CryptoConfig {
        crypto_root: "/tmp/crypto".to_string(),
        csp_vault_type: CspVaultType::UnixSocket("/tmp/vault.sock".to_string()),
    };
    assert!(!in_replica.needs_runtime_handle());
    assert!(behind_socket.needs_runtime_handle());
    assert_eq!(crypto_service_provider::SKS_DATA_FILENAME, "sks_data.pb");
    assert_eq!(
        crypto_service_provider::CANISTER_SKS_DATA_FILENAME,
        "canister_sks_data.pb"
    );
}

#[test]
fn should_name_locks_by_resource() {
    assert_eq!(LockedResource::Rng.name(), "rng");
    assert_eq!(LockedResource::NodeSecretKeyStore.name(), "node-sks");
    assert_eq!(LockedResource::CanisterSecretKeyStore.name(), "canister-sks");
    assert_eq!(LockAccess::Read.as_str(), "read");
    assert_eq!(LockAccess::Write.as_str(), "write");
}

#[test]
fn should_check_keys_and_sign_for_tls_through_provider() {
    let mut store = SecretKeyStore::new();
    let tls = KeyId::from([1u8; 32]);
    store
        .insert(tls, CspSecretKey::new(AlgorithmId::Tls, vec![3u8; 32]))
        .unwrap();
    let csp = Csp::of(ChaCha20Rng::from_seed([42u8; 32]), store);
    assert_eq!(csp.sks_contains(&tls), Ok(true));
    assert_eq!(csp.sks_contains(&KeyId::from([2u8; 32])), Ok(false));
    assert!(csp.tls_sign(b"hello", &tls).is_ok());
    assert_eq!(
        csp.tls_sign(b"hello", &KeyId::from([2u8; 32])),
        Err(CryptoError::SecretKeyNotFound {
            algorithm: AlgorithmId::Tls,
            key_id: KeyId::from([2u8; 32])
        })
    );
    assert_eq!(
        csp.csp_vault().tls_sign(b"hello", &tls).ok(),
        csp.tls_sign(b"hello", &tls).ok()
    );
}

#[test]
fn should_convert_vault_errors_to_provider_errors() {
    let key_id = KeyId::from([4u8; 32]);
    assert_eq!(
        CryptoError::from_basic_signature_error(
            crypto_service_provider::vault::api::CspBasicSignatureError::MalformedSecretKey {
                algorithm: AlgorithmId::Ed25519
            }
        ),
        CryptoError::MalformedSecretKey {
            algorithm: AlgorithmId::Ed25519
        }
    );
    assert_eq!(
        CryptoError::from_multi_signature_error(
            crypto_service_provider::vault::api::CspMultiSignatureError::TransientInternalError {
                internal_error: "later".to_string()
            }
        ),
        CryptoError::TransientInternalError {
            internal_error: "later".to_string()
        }
    );
    assert_eq!(
        CryptoError::from_basic_keygen_error(
            crypto_service_provider::vault::api::CspBasicSignatureKeygenError::DuplicateKeyId {
                key_id
            }
        ),
        CryptoError::DuplicateKeyId { key_id }
    );
    assert_eq!(
        CryptoError::from_multi_keygen_error(
            crypto_service_provider::vault::api::CspMultiSignatureKeygenError::UnsupportedAlgorithm {
                algorithm: AlgorithmId::Tls
            }
        ),
        CryptoError::AlgorithmNotSupported {
            algorithm: AlgorithmId::Tls
        }
    );
    assert_eq!(
        CryptoError::from_contains_error(
            crypto_service_provider::vault::api::CspSecretKeyStoreContainsError::TransientInternalError {
                internal_error: "later".to_string()
            }
        ),
        CryptoError::TransientInternalError {
            internal_error: "later".to_string()
        }
    );
}

#[test]
fn should_refuse_to_start_from_malformed_key_file() {
    let good = SecretKeyStore::new().to_bytes();
    assert_eq!(
        Csp::new_with_in_replica_vault(Some(&good), None, Some(&[1, 2, 3])).err(),
        Some(CspStartupError::MalformedKeyFile)
    );
    assert_eq!(
        Csp::new_with_rng(ChaCha20Rng::from_seed([3u8; 32]), None, Some(&[])).err(),
        Some(CspStartupError::MalformedKeyFile)
    );
    assert_eq!(
        Csp::new_with_in_replica_vault(Some(&[9]), None, Some(&[1, 2, 3])).err(),
        Some(CspStartupError::CorruptSecretKeyStore)
    );
    let vault = LocalCspVault::new_with_seed([1u8; 32]);
    assert_eq!(
        Csp::csp_with_key_file(Some(&[0u8; 7]), vault).err(),
        Some(CspStartupError::MalformedKeyFile)
    );
    let vault = LocalCspVault::new_with_seed([1u8; 32]);
    let csp = Csp::csp_with_key_file(Some(&full_node_public_keys().to_bytes()), vault).unwrap();
    assert_eq!(provider_count(&csp), 5);
    let vault = LocalCspVault::new_with_seed([1u8; 32]);
    let csp = Csp::csp_with_key_file(None, vault).unwrap();
    assert_eq!(provider_count(&csp), 0);
    assert_eq!(
        PublicKeyData::from_key_file(Some(&[1])).err(),
        Some(CspStartupError::MalformedKeyFile)
    );
    assert!(PublicKeyData::from_key_file(None).is_ok());
}

#[test]
fn should_refuse_to_start_without_generator_once_files_are_in_order() {
    let good = SecretKeyStore::new().to_bytes();
    assert_eq!(
        Csp::new_with_generator(None, Some(&good), None, None).err(),
        Some(CspStartupError::NoEntropy)
    );
    assert_eq!(
        Csp::new_with_generator(None, Some(&good), Some(&[4]), None).err(),
        Some(CspStartupError::CorruptCanisterSecretKeyStore)
    );
    assert_eq!(
        Csp::new_with_generator(None, None, None, Some(&[4])).err(),
        Some(CspStartupError::MalformedKeyFile)
    );
    let csp = Csp::new_with_generator(
        Some(ChaCha20Rng::from_seed([3u8; 32])),
        Some(&good),
        None,
        Some(&full_node_public_keys().to_bytes()),
    )
    .unwrap();
    assert_eq!(provider_count(&csp), 5);
    assert!(LocalCspVault::new(SecretKeyStore::new(), SecretKeyStore::new()).is_ok());
}

#[test]
fn should_sign_alike_through_provider_whatever_is_generated_in_between() {
    let mut csp = csp();
    let public_key = csp.gen_key_pair(AlgorithmId::Ed25519).unwrap();
    let key_id = KeyId::from(&public_key);
    let first = csp.sign(AlgorithmId::Ed25519, b"message", key_id);
    assert!(first.is_ok());
    csp.gen_key_pair(AlgorithmId::Ed25519).unwrap();
    csp.gen_key_pair_with_pop(AlgorithmId::MultiBls12_381)
        .unwrap();
    assert!(csp.gen_key_pair(AlgorithmId::Tls).is_err());
    let second = csp.sign(AlgorithmId::Ed25519, b"message", key_id);
    let third = csp.sign(AlgorithmId::Ed25519, b"message", key_id);
    assert_eq!(first, second);
    assert_eq!(second, third);
}
