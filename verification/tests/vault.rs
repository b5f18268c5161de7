use crypto_service_provider::algorithm::AlgorithmId;
use crypto_service_provider::api::verify_proof_of_possession;
use crypto_service_provider::api::verify_signature;
use crypto_service_provider::api::CryptoError;
use crypto_service_provider::key_id::KeyId;
use crypto_service_provider::types::CspPop;
use crypto_service_provider::types::CspPublicKey;
use crypto_service_provider::types::CspSecretKey;
use crypto_service_provider::types::CspSignature;
use crypto_service_provider::vault::api::CspBasicSignatureError;
use crypto_service_provider::vault::api::CspBasicSignatureKeygenError;
use crypto_service_provider::vault::api::CspMultiSignatureError;
use crypto_service_provider::vault::api::CspMultiSignatureKeygenError;
use crypto_service_provider::vault::api::CspVault;
use crypto_service_provider::secret_key_store::SecretKeyStore;
use crypto_service_provider::vault::local_csp_vault::store_ed25519_key_pair_noting;
use crypto_service_provider::vault::local_csp_vault::store_multi_sig_key_pair_noting;
use crypto_service_provider::vault::local_csp_vault::take_back_key_pair;
use crypto_service_provider::vault::local_csp_vault::LocalCspVault;
use crypto_service_provider::vault::test_utils::basic_sig;
use crypto_service_provider::vault::test_utils::multi_sig;
use rand::RngCore;
use rand::SeedableRng;
use rand_chacha::ChaCha20Rng;

fn hex(text: &str) -> Vec<u8> {
    (0..text.len() / 2)
        .map(|i| u8::from_str_radix(&text[2 * i..2 * i + 2], 16).unwrap())
        .collect()
}

fn seed_of(text: &str) -> [u8; 32] {
    let mut seed = [0u8; 32];
    seed.copy_from_slice(&hex(text));
    seed
}

const RFC_8032_SECRET: &str = "9d61b19deffd5a60ba844af492ec2cc44449c5697b326919703bac031cae7f60";
const RFC_8032_PUBLIC: &str = "d75a980182b10ab7d54bfed3c964073a0ee172f3daa62325af021a68f707511a";
const RFC_8032_SIGNATURE: &str = "e5564300c360ac729086e2cc806e828a84877f1eb8e5d974d873e065224901555fb8821590a33bacc61e39701cf9b46bd25bf5f0595bbe24655141438e7a100b";

fn public_key_bytes(public_key: &CspPublicKey) -> Vec<u8> {
    public_key.pk_bytes().to_vec()
}

fn vault() -> LocalCspVault {
    LocalCspVault::new_with_seed([42u8; 32])
}

#[test]
fn local_vault_should_generate_ed25519_key_pair() {
    assert!(basic_sig::should_generate_ed25519_key_pair(&mut vault()));
}

#[test]
fn local_vault_should_fail_to_generate_basic_sig_key_for_wrong_algorithm_id() {
    assert!(basic_sig::should_fail_to_generate_basic_sig_key_for_wrong_algorithm_id(&mut vault()));
}

#[test]
fn local_vault_should_sign_and_verify_with_generated_ed25519_key_pair() {
    let message: Vec<u8> = (0..777u32).map(|i| (i % 251) as u8).collect();
    assert!(
        basic_sig::should_sign_and_verify_with_generated_ed25519_key_pair(&mut vault(), &message)
    );
    assert!(basic_sig::should_sign_and_verify_with_generated_ed25519_key_pair(&mut vault(), &[]));
}

#[test]
fn local_vault_should_not_basic_sign_with_unsupported_algorithm_id() {
    assert!(basic_sig::should_not_basic_sign_with_unsupported_algorithm_id(&mut vault()));
}

#[test]
fn local_vault_should_not_basic_sign_with_non_existent_key() {
    assert!(basic_sig::should_not_basic_sign_with_non_existent_key(
        &vault(),
        [7u8; 32]
    ));
}

#[test]
fn local_vault_should_generate_multi_bls12_381_key_pair() {
    assert!(multi_sig::should_generate_multi_bls12_381_key_pair(
        &mut vault()
    ));
}

#[test]
fn local_vault_should_fail_to_generate_multi_sig_key_for_wrong_algorithm_id() {
    assert!(multi_sig::should_fail_to_generate_multi_sig_key_for_wrong_algorithm_id(&mut vault()));
}

#[test]
fn local_vault_should_generate_verifiable_pop() {
    assert!(multi_sig::should_generate_verifiable_pop(&mut vault()));
}

#[test]
fn local_vault_should_multi_sign_and_verify_with_generated_key() {
    let message: Vec<u8> = (0..1000u32).map(|i| (i % 241) as u8).collect();
    assert!(multi_sig::should_multi_sign_and_verify_with_generated_key(
        &mut vault(),
        &message
    ));
}

#[test]
fn local_vault_should_not_multi_sign_with_unsupported_algorithm_id() {
    assert!(multi_sig::should_not_multi_sign_with_unsupported_algorithm_id(&mut vault()));
}

#[test]
fn local_vault_should_not_multi_sign_if_secret_key_in_store_has_wrong_type() {
    assert!(multi_sig::should_not_multi_sign_if_secret_key_in_store_has_wrong_type(&mut vault()));
}

#[test]
fn should_report_wrong_secret_key_type_with_stored_variant() {
    let mut csp_vault = vault();
    let wrong_csp_pub_key = csp_vault
        .gen_key_pair(AlgorithmId::Ed25519)
        .expect("failed to generate keys");

    let msg = [31; 41];
    let result = csp_vault.multi_sign(
        AlgorithmId::MultiBls12_381,
        &msg,
        KeyId::from(&wrong_csp_pub_key),
    );

    assert_eq!(
        result.unwrap_err(),
        CspMultiSignatureError::WrongSecretKeyType {
            algorithm: AlgorithmId::MultiBls12_381,
            stored_variant: "Ed25519".to_string()
        }
    );
}

#[test]
fn should_report_wrong_secret_key_type_when_basic_signing_with_multi_sig_key() {
    let mut csp_vault = vault();
    let (public_key, _pop) = csp_vault
        .gen_key_pair_with_pop(AlgorithmId::MultiBls12_381)
        .unwrap();
    let result = csp_vault.sign(AlgorithmId::Ed25519, b"message", KeyId::from(&public_key));
    assert_eq!(
        result.unwrap_err(),
        CspBasicSignatureError::WrongSecretKeyType {
            algorithm: AlgorithmId::Ed25519,
            stored_variant: "MultiBls12_381".to_string()
        }
    );
}

#[test]
fn should_sign_empty_and_long_messages_and_refuse_other_algorithm() {
    let mut csp_vault = LocalCspVault::new_with_seed([1u8; 32]);
    let public_key = csp_vault.gen_key_pair(AlgorithmId::Ed25519).unwrap();
    assert!(matches!(public_key, CspPublicKey::Ed25519(_)));
    let key_id = KeyId::from(&public_key);

    let empty: [u8; 0] = [];
    let long = vec![0xabu8; 1024];
    let on_empty = csp_vault
        .sign(AlgorithmId::Ed25519, &empty, key_id)
        .unwrap();
    let on_long = csp_vault.sign(AlgorithmId::Ed25519, &long, key_id).unwrap();
    assert_eq!(
        verify_signature(&on_empty, &empty, AlgorithmId::Ed25519, &public_key),
        Ok(())
    );
    assert_eq!(
        verify_signature(&on_long, &long, AlgorithmId::Ed25519, &public_key),
        Ok(())
    );
    assert_ne!(on_empty, on_long);

    assert_eq!(
        csp_vault.sign(AlgorithmId::EcdsaP256, &long, key_id),
        Err(CspBasicSignatureError::UnsupportedAlgorithm {
            algorithm: AlgorithmId::EcdsaP256
        })
    );
}

#[test]
fn should_sign_deterministically() {
    let mut csp_vault = vault();
    let public_key = csp_vault.gen_key_pair(AlgorithmId::Ed25519).unwrap();
    let key_id = KeyId::from(&public_key);
    let first = csp_vault.sign(AlgorithmId::Ed25519, b"same message", key_id);
    let second = csp_vault.sign(AlgorithmId::Ed25519, b"same message", key_id);
    assert!(first.is_ok());
    assert_eq!(first, second);

    let (multi_key, _pop) = csp_vault
        .gen_key_pair_with_pop(AlgorithmId::MultiBls12_381)
        .unwrap();
    let multi_id = KeyId::from(&multi_key);
    let first = csp_vault.multi_sign(AlgorithmId::MultiBls12_381, b"same message", multi_id);
    let second = csp_vault.multi_sign(AlgorithmId::MultiBls12_381, b"same message", multi_id);
    assert!(first.is_ok());
    assert_eq!(first, second);
}

#[test]
fn should_sign_identically_in_vaults_holding_the_same_key() {
    let seed = seed_of(RFC_8032_SECRET);
    let mut one = LocalCspVault::new_with_seed([1u8; 32]);
    let mut other = LocalCspVault::new_with_seed([2u8; 32]);
    let public_key = one.store_ed25519_key_pair(seed).unwrap();
    assert_eq!(other.store_ed25519_key_pair(seed), Ok(public_key));
    let key_id = KeyId::from(&public_key);
    assert_eq!(
        one.sign(AlgorithmId::Ed25519, b"message", key_id),
        other.sign(AlgorithmId::Ed25519, b"message", key_id)
    );
}

#[test]
fn should_derive_ed25519_public_key_of_known_seed() {
    let mut csp_vault = vault();
    let public_key = csp_vault
        .store_ed25519_key_pair(seed_of(RFC_8032_SECRET))
        .unwrap();
    match public_key {
        CspPublicKey::Ed25519(bytes) => assert_eq!(bytes.to_vec(), hex(RFC_8032_PUBLIC)),
        _ => panic!("Wrong CspPublicKey: {:?}", public_key),
    }
    let key_id = KeyId::from(&public_key);
    assert_eq!(
        key_id.get().to_vec(),
        hex("67a43f8b33a97906887695b8bfd87f8f8df3dc3efff63d102859bfc119a2ddc3")
    );
    assert_eq!(
        csp_vault.node_secret_key_store().get(&key_id),
        Some(CspSecretKey::new(
            AlgorithmId::Ed25519,
            hex(RFC_8032_SECRET)
        ))
    );
}

#[test]
fn should_give_known_ed25519_signature() {
    let mut csp_vault = vault();
    let public_key = csp_vault
        .store_ed25519_key_pair(seed_of(RFC_8032_SECRET))
        .unwrap();
    let signature = csp_vault
        .sign(AlgorithmId::Ed25519, &[], KeyId::from(&public_key))
        .unwrap();
    match signature {
        CspSignature::Ed25519(bytes) => assert_eq!(bytes.to_vec(), hex(RFC_8032_SIGNATURE)),
        _ => panic!("Wrong CspSignature: {:?}", signature),
    }
    assert_eq!(signature.algorithm(), AlgorithmId::Ed25519);
}

#[test]
fn should_store_same_key_pair_twice_without_change() {
    let mut csp_vault = vault();
    let seed = [5u8; 32];
    let first = csp_vault.store_ed25519_key_pair(seed);
    let second = csp_vault.store_ed25519_key_pair(seed);
    assert!(first.is_ok());
    assert_eq!(first, second);
    assert_eq!(csp_vault.node_secret_key_store().len(), 1);
}

#[test]
fn should_refuse_key_pair_whose_id_holds_another_key() {
    let seed = [5u8; 32];
    let mut probe = vault();
    let public_key = probe.store_ed25519_key_pair(seed).unwrap();
    let key_id = KeyId::from(&public_key);

    let mut store = crypto_service_provider::secret_key_store::SecretKeyStore::new();
    store
        .insert(
            key_id,
            CspSecretKey::new(AlgorithmId::Ed25519, vec![6u8; 32]),
        )
        .unwrap();
    let mut csp_vault = LocalCspVault::new(
        store,
        crypto_service_provider::secret_key_store::SecretKeyStore::new(),
    )
    .unwrap();
    assert_eq!(
        csp_vault.store_ed25519_key_pair(seed),
        Err(CspBasicSignatureKeygenError::DuplicateKeyId { key_id })
    );
    assert_eq!(
        csp_vault.node_secret_key_store().get(&key_id),
        Some(CspSecretKey::new(AlgorithmId::Ed25519, vec![6u8; 32]))
    );
}

#[test]
fn should_not_sign_with_unknown_key_id() {
    let csp_vault = vault();
    let key_id = KeyId::from([0u8; 32]);
    assert_eq!(
        csp_vault.sign(AlgorithmId::Ed25519, b"message", key_id),
        Err(CspBasicSignatureError::SecretKeyNotFound {
            algorithm: AlgorithmId::Ed25519,
            key_id
        })
    );
    assert_eq!(
        csp_vault.multi_sign(AlgorithmId::MultiBls12_381, b"message", key_id),
        Err(CspMultiSignatureError::SecretKeyNotFound {
            algorithm: AlgorithmId::MultiBls12_381,
            key_id
        })
    );
}

#[test]
fn should_refuse_every_algorithm_outside_the_family() {
    let mut csp_vault = vault();
    let key_id = KeyId::from([0u8; 32]);
    for algorithm in AlgorithmId::iter() {
        if algorithm != AlgorithmId::Ed25519 {
            assert_eq!(
                csp_vault.gen_key_pair(algorithm),
                Err(CspBasicSignatureKeygenError::UnsupportedAlgorithm { algorithm })
            );
            assert_eq!(
                csp_vault.sign(algorithm, b"message", key_id),
                Err(CspBasicSignatureError::UnsupportedAlgorithm { algorithm })
            );
        }
        if algorithm != AlgorithmId::MultiBls12_381 {
            assert_eq!(
                csp_vault.gen_key_pair_with_pop(algorithm),
                Err(CspMultiSignatureKeygenError::UnsupportedAlgorithm { algorithm })
            );
            assert_eq!(
                csp_vault.multi_sign(algorithm, b"message", key_id),
                Err(CspMultiSignatureError::UnsupportedAlgorithm { algorithm })
            );
        }
    }
    assert_eq!(csp_vault.node_secret_key_store().len(), 0);
    assert_eq!(csp_vault.canister_secret_key_store().len(), 0);
}

#[test]
fn should_report_malformed_secret_keys() {
    let mut store = crypto_service_provider::secret_key_store::SecretKeyStore::new();
    let short = KeyId::from([1u8; 32]);
    let any_32_bytes = KeyId::from([2u8; 32]);
    let short_multi = KeyId::from([3u8; 32]);
    store
        .insert(short, CspSecretKey::new(AlgorithmId::Ed25519, vec![1u8; 31]))
        .unwrap();
    store
        .insert(
            any_32_bytes,
            CspSecretKey::new(AlgorithmId::MultiBls12_381, vec![0xffu8; 32]),
        )
        .unwrap();
    store
        .insert(
            short_multi,
            CspSecretKey::new(AlgorithmId::MultiBls12_381, vec![1u8; 33]),
        )
        .unwrap();
    let csp_vault = LocalCspVault::new(
        store,
        crypto_service_provider::secret_key_store::SecretKeyStore::new(),
    )
    .unwrap();
    assert_eq!(
        csp_vault.sign(AlgorithmId::Ed25519, b"message", short),
        Err(CspBasicSignatureError::MalformedSecretKey {
            algorithm: AlgorithmId::Ed25519
        })
    );
    assert!(csp_vault
        .multi_sign(AlgorithmId::MultiBls12_381, b"message", any_32_bytes)
        .is_ok());
    assert_eq!(
        csp_vault.multi_sign(AlgorithmId::MultiBls12_381, b"message", short_multi),
        Err(CspMultiSignatureError::MalformedSecretKey {
            algorithm: AlgorithmId::MultiBls12_381
        })
    );
}

#[test]
fn should_generate_same_keys_from_same_rng_seed() {
    let mut one = LocalCspVault::new_with_seed([9u8; 32]);
    let mut same = LocalCspVault::new_with_seed([9u8; 32]);
    let mut other = LocalCspVault::new_with_seed([10u8; 32]);
    let first = one.gen_key_pair(AlgorithmId::Ed25519).unwrap();
    assert_eq!(same.gen_key_pair(AlgorithmId::Ed25519), Ok(first));
    assert_ne!(other.gen_key_pair(AlgorithmId::Ed25519), Ok(first));
    let second = one.gen_key_pair(AlgorithmId::Ed25519).unwrap();
    assert_ne!(first, second);
    assert_eq!(one.node_secret_key_store().len(), 2);
}

#[test]
fn should_generate_different_keys_in_production_vaults() {
    let mut one = LocalCspVault::new(
        crypto_service_provider::secret_key_store::SecretKeyStore::new(),
        crypto_service_provider::secret_key_store::SecretKeyStore::new(),
    )
    .unwrap();
    let mut other = LocalCspVault::new(
        crypto_service_provider::secret_key_store::SecretKeyStore::new(),
        crypto_service_provider::secret_key_store::SecretKeyStore::new(),
    )
    .unwrap();
    assert_ne!(
        one.gen_key_pair(AlgorithmId::Ed25519).unwrap(),
        other.gen_key_pair(AlgorithmId::Ed25519).unwrap()
    );
}

#[test]
fn should_store_multi_sig_key_pair_of_given_material() {
    let mut csp_vault = vault();
    let (public_key, pop) = csp_vault.store_multi_sig_key_pair([3u8; 32]).unwrap();
    let mut again = vault();
    assert_eq!(
        again.store_multi_sig_key_pair([3u8; 32]),
        Ok((public_key, pop))
    );
    let (other_key, other_pop) = again.store_multi_sig_key_pair([4u8; 32]).unwrap();
    assert_ne!(other_key, public_key);
    assert_ne!(other_pop, pop);

    assert_eq!(
        verify_proof_of_possession(&pop, AlgorithmId::MultiBls12_381, &public_key),
        Ok(())
    );
    assert_eq!(
        verify_proof_of_possession(&other_pop, AlgorithmId::MultiBls12_381, &public_key),
        Err(CryptoError::PopVerification {
            algorithm: AlgorithmId::MultiBls12_381
        })
    );
    let held = csp_vault
        .node_secret_key_store()
        .get(&KeyId::from(&public_key))
        .unwrap();
    assert_eq!(held.algorithm, AlgorithmId::MultiBls12_381);
    assert_eq!(held.bytes, vec![3u8; 32]);
    match public_key {
        CspPublicKey::MultiBls12_381(bytes) => {
            assert_ne!(bytes[..32], held.bytes[..]);
            assert_ne!(bytes[32..64], held.bytes[..]);
            assert_ne!(bytes[64..], held.bytes[..]);
        }
        _ => panic!("Wrong CspPublicKey: {:?}", public_key),
    }
    let CspPop::MultiBls12_381(pop_bytes) = pop;
    assert_ne!(pop_bytes[..32], held.bytes[..]);
    assert_ne!(pop_bytes[..], public_key_bytes(&public_key)[..48]);
}

#[test]
fn should_verify_only_genuine_signatures() {
    let mut csp_vault = vault();
    let public_key = csp_vault.gen_key_pair(AlgorithmId::Ed25519).unwrap();
    let other_key = csp_vault.gen_key_pair(AlgorithmId::Ed25519).unwrap();
    let signature = csp_vault
        .sign(AlgorithmId::Ed25519, b"message", KeyId::from(&public_key))
        .unwrap();
    assert_eq!(
        verify_signature(&signature, b"message", AlgorithmId::Ed25519, &public_key),
        Ok(())
    );
    let failed = Err(CryptoError::SignatureVerification {
        algorithm: AlgorithmId::Ed25519,
    });
    assert_eq!(
        verify_signature(&signature, b"massage", AlgorithmId::Ed25519, &public_key),
        failed
    );
    assert_eq!(
        verify_signature(&signature, b"message", AlgorithmId::Ed25519, &other_key),
        failed
    );
    assert_eq!(
        verify_signature(
            &CspSignature::Ed25519([0u8; 64]),
            b"message",
            AlgorithmId::Ed25519,
            &public_key
        ),
        failed
    );
    assert_eq!(
        verify_signature(
            &CspSignature::MultiBls12_381([0u8; 48]),
            b"message",
            AlgorithmId::Ed25519,
            &public_key
        ),
        failed
    );
    assert_eq!(
        verify_signature(&signature, b"message", AlgorithmId::EcdsaP256, &public_key),
        Err(CryptoError::AlgorithmNotSupported {
            algorithm: AlgorithmId::EcdsaP256
        })
    );
}

#[test]
fn should_verify_only_genuine_multi_signatures() {
    let mut csp_vault = vault();
    let (public_key, pop) = csp_vault
        .gen_key_pair_with_pop(AlgorithmId::MultiBls12_381)
        .unwrap();
    let signature = csp_vault
        .multi_sign(
            AlgorithmId::MultiBls12_381,
            b"message",
            KeyId::from(&public_key),
        )
        .unwrap();
    assert_eq!(signature.algorithm(), AlgorithmId::MultiBls12_381);
    assert_eq!(
        verify_signature(
            &signature,
            b"message",
            AlgorithmId::MultiBls12_381,
            &public_key
        ),
        Ok(())
    );
    let failed = Err(CryptoError::SignatureVerification {
        algorithm: AlgorithmId::MultiBls12_381,
    });
    assert_eq!(
        verify_signature(
            &signature,
            b"massage",
            AlgorithmId::MultiBls12_381,
            &public_key
        ),
        failed
    );
    let CspPop::MultiBls12_381(pop_bytes) = pop;
    assert_eq!(
        verify_signature(
            &CspSignature::MultiBls12_381(pop_bytes),
            b"message",
            AlgorithmId::MultiBls12_381,
            &public_key
        ),
        failed
    );
    assert_eq!(
        verify_proof_of_possession(&pop, AlgorithmId::Ed25519, &public_key),
        Err(CryptoError::AlgorithmNotSupported {
            algorithm: AlgorithmId::Ed25519
        })
    );
    assert_eq!(
        verify_proof_of_possession(
            &pop,
            AlgorithmId::MultiBls12_381,
            &CspPublicKey::Ed25519([0u8; 32])
        ),
        Err(CryptoError::PopVerification {
            algorithm: AlgorithmId::MultiBls12_381
        })
    );
}

#[test]
fn should_sign_for_tls_handshake_with_tls_key_only() {
    let mut store = crypto_service_provider::secret_key_store::SecretKeyStore::new();
    let tls = KeyId::from([1u8; 32]);
    let short = KeyId::from([2u8; 32]);
    store
        .insert(
            tls,
            CspSecretKey::new(AlgorithmId::Tls, hex(RFC_8032_SECRET)),
        )
        .unwrap();
    store
        .insert(short, CspSecretKey::new(AlgorithmId::Tls, vec![1u8; 16]))
        .unwrap();
    let mut csp_vault = LocalCspVault::new(
        store,
        crypto_service_provider::secret_key_store::SecretKeyStore::new(),
    )
    .unwrap();
    let other = KeyId::from(&csp_vault.gen_key_pair(AlgorithmId::Ed25519).unwrap());

    let signature = csp_vault.tls_sign(&[], &tls).unwrap();
    match signature {
        CspSignature::Ed25519(bytes) => assert_eq!(bytes.to_vec(), hex(RFC_8032_SIGNATURE)),
        _ => panic!("Wrong CspSignature: {:?}", signature),
    }
    let mut public_key = [0u8; 32];
    public_key.copy_from_slice(&hex(RFC_8032_PUBLIC));
    assert_eq!(
        verify_signature(
            &csp_vault.tls_sign(b"client hello", &tls).unwrap(),
            b"client hello",
            AlgorithmId::Ed25519,
            &CspPublicKey::Ed25519(public_key)
        ),
        Ok(())
    );
    assert_eq!(
        csp_vault.tls_sign(b"client hello", &other),
        Err(CspBasicSignatureError::WrongSecretKeyType {
            algorithm: AlgorithmId::Tls,
            stored_variant: "Ed25519".to_string()
        })
    );
    assert_eq!(
        csp_vault.tls_sign(b"client hello", &short),
        Err(CspBasicSignatureError::MalformedSecretKey {
            algorithm: AlgorithmId::Tls
        })
    );
    let unknown = KeyId::from([9u8; 32]);
    assert_eq!(
        csp_vault.tls_sign(b"client hello", &unknown),
        Err(CspBasicSignatureError::SecretKeyNotFound {
            algorithm: AlgorithmId::Tls,
            key_id: unknown
        })
    );
    assert_eq!(
        csp_vault.sign(AlgorithmId::Ed25519, b"client hello", tls),
        Err(CspBasicSignatureError::WrongSecretKeyType {
            algorithm: AlgorithmId::Ed25519,
            stored_variant: "Tls".to_string()
        })
    );
}

#[test]
fn should_say_whether_key_is_held() {
    let mut csp_vault = vault();
    let key_id = KeyId::from(&csp_vault.gen_key_pair(AlgorithmId::Ed25519).unwrap());
    assert_eq!(csp_vault.sks_contains(&key_id), Ok(true));
    assert_eq!(csp_vault.sks_contains(&KeyId::from([0u8; 32])), Ok(false));
}

#[test]
fn should_refuse_multi_sig_key_pair_whose_id_holds_another_key() {
    let material = [5u8; 32];
    let mut probe = vault();
    let (public_key, _pop) = probe.store_multi_sig_key_pair(material).unwrap();
    let key_id = KeyId::from(&public_key);

    let mut store = crypto_service_provider::secret_key_store::SecretKeyStore::new();
    store
        .insert(
            key_id,
            CspSecretKey::new(AlgorithmId::MultiBls12_381, vec![6u8; 32]),
        )
        .unwrap();
    let mut csp_vault = LocalCspVault::new(
        store,
        crypto_service_provider::secret_key_store::SecretKeyStore::new(),
    )
    .unwrap();
    assert_eq!(
        csp_vault.store_multi_sig_key_pair(material),
        Err(CspMultiSignatureKeygenError::DuplicateKeyId { key_id })
    );
    assert_eq!(csp_vault.node_secret_key_store().len(), 1);
}

#[test]
fn should_draw_from_the_stream_of_the_seed() {
    let seed = [11u8; 32];
    let mut rng = ChaCha20Rng::from_seed(seed);
    let mut first = [0u8; 32];
    let mut second = [0u8; 32];
    let mut third = [0u8; 32];
    rng.fill_bytes(&mut first);
    rng.fill_bytes(&mut second);
    rng.fill_bytes(&mut third);
    assert_ne!(first, seed);
    assert_ne!(first, second);

    let mut expected = LocalCspVault::new_with_seed([0u8; 32]);
    let first_key = expected.store_ed25519_key_pair(first);
    let second_key = expected.store_multi_sig_key_pair(second);
    let third_key = expected.store_ed25519_key_pair(third);

    let mut seeded = LocalCspVault::new_with_seed(seed);
    assert_eq!(seeded.gen_key_pair(AlgorithmId::Ed25519), first_key);
    assert!(seeded.gen_key_pair(AlgorithmId::Tls).is_err());
    assert_eq!(
        seeded.gen_key_pair_with_pop(AlgorithmId::MultiBls12_381),
        second_key
    );
    assert!(seeded.gen_key_pair_with_pop(AlgorithmId::Ed25519).is_err());
    assert_eq!(seeded.gen_key_pair(AlgorithmId::Ed25519), third_key);
    assert_eq!(
        seeded.node_secret_key_store().to_bytes(),
        expected.node_secret_key_store().to_bytes()
    );
}

#[test]
fn should_generate_alike_from_seed_and_from_given_generator_of_that_seed() {
    let seed = [12u8; 32];
    let mut seeded = LocalCspVault::new_with_seed(seed);
    let mut given = LocalCspVault::new_for_test(
        ChaCha20Rng::from_seed(seed),
        crypto_service_provider::secret_key_store::SecretKeyStore::new(),
    );
    for _ in 0..5 {
        assert_eq!(
            seeded.gen_key_pair(AlgorithmId::Ed25519),
            given.gen_key_pair(AlgorithmId::Ed25519)
        );
        assert_eq!(
            seeded.gen_key_pair_with_pop(AlgorithmId::MultiBls12_381),
            given.gen_key_pair_with_pop(AlgorithmId::MultiBls12_381)
        );
    }
    assert_eq!(seeded.node_secret_key_store().len(), 10);
}

#[test]
fn should_judge_what_a_vault_answered() {
    let key = Ok(CspPublicKey::Ed25519([1u8; 32]));
    let multi_key = Ok(CspPublicKey::MultiBls12_381([1u8; 96]));
    let refused = Err(CspBasicSignatureKeygenError::UnsupportedAlgorithm {
        algorithm: AlgorithmId::Tls,
    });
    assert!(basic_sig::is_ed25519_key(&key));
    assert!(!basic_sig::is_ed25519_key(&multi_key));
    assert!(!basic_sig::is_ed25519_key(&refused));
    assert!(basic_sig::is_unsupported_keygen(&refused, AlgorithmId::Tls));
    assert!(!basic_sig::is_unsupported_keygen(
        &refused,
        AlgorithmId::EcdsaP256
    ));
    assert!(!basic_sig::is_unsupported_keygen(&key, AlgorithmId::Tls));
    assert!(!basic_sig::is_unsupported_keygen(
        &Err(CspBasicSignatureKeygenError::DuplicateKeyId {
            key_id: KeyId::from([0u8; 32])
        }),
        AlgorithmId::Tls
    ));
    assert!(basic_sig::is_unsupported_signing(&Err(
        CspBasicSignatureError::UnsupportedAlgorithm {
            algorithm: AlgorithmId::Tls
        }
    )));
    assert!(!basic_sig::is_unsupported_signing(&Err(
        CspBasicSignatureError::MalformedSecretKey {
            algorithm: AlgorithmId::Tls
        }
    )));
    assert!(!basic_sig::is_unsupported_signing(&Ok(
        CspSignature::Ed25519([0u8; 64])
    )));

    let pair = Ok((
        CspPublicKey::MultiBls12_381([1u8; 96]),
        CspPop::MultiBls12_381([2u8; 48]),
    ));
    let wrong_pair = Ok((
        CspPublicKey::Ed25519([1u8; 32]),
        CspPop::MultiBls12_381([2u8; 48]),
    ));
    let multi_refused = Err(CspMultiSignatureKeygenError::UnsupportedAlgorithm {
        algorithm: AlgorithmId::Tls,
    });
    assert!(multi_sig::is_multi_bls12_381_key(&pair));
    assert!(!multi_sig::is_multi_bls12_381_key(&wrong_pair));
    assert!(!multi_sig::is_multi_bls12_381_key(&multi_refused));
    assert!(multi_sig::is_unsupported_multi_keygen(
        &multi_refused,
        AlgorithmId::Tls
    ));
    assert!(!multi_sig::is_unsupported_multi_keygen(
        &multi_refused,
        AlgorithmId::Ed25519
    ));
    assert!(!multi_sig::is_unsupported_multi_keygen(
        &pair,
        AlgorithmId::Tls
    ));
    let unsupported = Err(CspMultiSignatureError::UnsupportedAlgorithm {
        algorithm: AlgorithmId::Tls,
    });
    assert!(multi_sig::is_unsupported_multi_signing(
        &unsupported,
        AlgorithmId::Tls
    ));
    assert!(!multi_sig::is_unsupported_multi_signing(
        &unsupported,
        AlgorithmId::Ed25519
    ));
    assert!(multi_sig::is_wrong_key_type_ed25519(&Err(
        CspMultiSignatureError::WrongSecretKeyType {
            algorithm: AlgorithmId::MultiBls12_381,
            stored_variant: "Ed25519".to_string()
        }
    )));
    assert!(!multi_sig::is_wrong_key_type_ed25519(&Err(
        CspMultiSignatureError::WrongSecretKeyType {
            algorithm: AlgorithmId::MultiBls12_381,
            stored_variant: "Tls".to_string()
        }
    )));
    assert!(!multi_sig::is_wrong_key_type_ed25519(&Err(
        CspMultiSignatureError::WrongSecretKeyType {
            algorithm: AlgorithmId::Ed25519,
            stored_variant: "Ed25519".to_string()
        }
    )));
    assert!(!multi_sig::is_wrong_key_type_ed25519(&unsupported));
}

#[test]
fn should_fail_checks_on_vault_that_holds_the_key_asked_for() {
    let seed = [7u8; 32];
    let mut csp_vault = vault();
    assert!(basic_sig::should_not_basic_sign_with_non_existent_key(
        &csp_vault, seed
    ));
    csp_vault.store_ed25519_key_pair(seed).unwrap();
    assert!(!basic_sig::should_not_basic_sign_with_non_existent_key(
        &csp_vault, seed
    ));
    assert!(basic_sig::should_not_basic_sign_with_non_existent_key(
        &csp_vault, [8u8; 32]
    ));
}

#[test]
fn should_leave_new_key_pair_behind_passed_check() {
    let mut csp_vault = vault();
    assert!(basic_sig::should_generate_ed25519_key_pair(&mut csp_vault));
    assert_eq!(csp_vault.node_secret_key_store().len(), 1);
    assert!(multi_sig::should_generate_multi_bls12_381_key_pair(
        &mut csp_vault
    ));
    assert_eq!(csp_vault.node_secret_key_store().len(), 2);
    assert!(basic_sig::should_fail_to_generate_basic_sig_key_for_wrong_algorithm_id(&mut csp_vault));
    assert!(multi_sig::should_fail_to_generate_multi_sig_key_for_wrong_algorithm_id(&mut csp_vault));
    assert_eq!(csp_vault.node_secret_key_store().len(), 2);
    assert!(multi_sig::should_not_multi_sign_if_secret_key_in_store_has_wrong_type(&mut csp_vault));
    assert_eq!(csp_vault.node_secret_key_store().len(), 3);
}

#[test]
fn should_note_whether_storing_added_a_key_and_take_it_back() {
    let mut store = SecretKeyStore::new();
    let before = store.to_bytes();
    let (public_key, added) = store_ed25519_key_pair_noting(&mut store, [5u8; 32]).unwrap();
    assert!(added);
    assert_eq!(store.len(), 1);
    let held = store.to_bytes();
    let (again, added_again) = store_ed25519_key_pair_noting(&mut store, [5u8; 32]).unwrap();
    assert_eq!(again, public_key);
    assert!(!added_again);
    take_back_key_pair(&mut store, &again, added_again);
    assert_eq!(store.to_bytes(), held);
    take_back_key_pair(&mut store, &public_key, added);
    assert_eq!(store.to_bytes(), before);

    let ((multi_key, _pop), added) =
        store_multi_sig_key_pair_noting(&mut store, [6u8; 32]).unwrap();
    assert!(added);
    assert!(store.contains(&KeyId::from(&multi_key)));
    let ((same_key, _pop), added_again) =
        store_multi_sig_key_pair_noting(&mut store, [6u8; 32]).unwrap();
    assert_eq!(same_key, multi_key);
    assert!(!added_again);
    take_back_key_pair(&mut store, &multi_key, true);
    assert_eq!(store.to_bytes(), before);
}
