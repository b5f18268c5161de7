use crypto_service_provider::algorithm::AlgorithmId;
use crypto_service_provider::key_id::KeyId;
use crypto_service_provider::node_public_keys::NodePublicKeys;
use crypto_service_provider::node_public_keys::PublicKey;
use crypto_service_provider::node_public_keys::X509PublicKeyCert;
use crypto_service_provider::types::CspPop;
use crypto_service_provider::types::CspPublicKey;
use crypto_service_provider::types::CspSignature;
use crypto_service_provider::vault::api::CspBasicSignatureError;
use crypto_service_provider::vault::api::CspBasicSignatureKeygenError;
use crypto_service_provider::vault::api::CspMultiSignatureError;
use crypto_service_provider::vault::api::CspMultiSignatureKeygenError;
use crypto_service_provider::vault::api::CspSecretKeyStoreContainsError;
use crypto_service_provider::vault::api::CspVault;
use crypto_service_provider::vault::frame::length_of_payload;
use crypto_service_provider::vault::frame::with_length;
use crypto_service_provider::vault::frame::Frame;
use crypto_service_provider::vault::local_csp_vault::LocalCspVault;
use crypto_service_provider::vault::remote_csp_vault::gen_key_pair_reply;
use crypto_service_provider::vault::remote_csp_vault::gen_key_pair_with_pop_reply;
use crypto_service_provider::vault::remote_csp_vault::multi_sign_reply;
use crypto_service_provider::vault::remote_csp_vault::serve;
use crypto_service_provider::vault::remote_csp_vault::serve_bytes;
use crypto_service_provider::vault::remote_csp_vault::sign_reply;
use crypto_service_provider::vault::remote_csp_vault::sks_contains_reply;
use crypto_service_provider::vault::remote_csp_vault::tls_sign_reply;
use crypto_service_provider::vault::messages::VaultRequest;
use crypto_service_provider::vault::messages::VaultResponse;
use crypto_service_provider::vault::messages::VAULT_ANSWER_UNREADABLE;
use crypto_service_provider::vault::messages::VAULT_UNAVAILABLE;

fn requests() -> Vec<VaultRequest> {
    vec![
        VaultRequest::GenKeyPair {
            algorithm_id: AlgorithmId::Ed25519,
        },
        VaultRequest::Sign {
            algorithm_id: AlgorithmId::Ed25519,
            message: vec![1, 2, 3],
            key_id: KeyId::from([9u8; 32]),
        },
        VaultRequest::GenKeyPairWithPop {
            algorithm_id: AlgorithmId::MultiBls12_381,
        },
        VaultRequest::MultiSign {
            algorithm_id: AlgorithmId::MegaSecp256k1,
            message: vec![],
            key_id: KeyId::from([0u8; 32]),
        },
        VaultRequest::TlsSign {
            message: vec![4, 5],
            key_id: KeyId::from([8u8; 32]),
        },
        VaultRequest::SksContains {
            key_id: KeyId::from([6u8; 32]),
        },
    ]
}

fn responses() -> Vec<VaultResponse> {
    let key_id = KeyId::from([7u8; 32]);
    vec![
        VaultResponse::GenKeyPair(Ok(CspPublicKey::Ed25519([1u8; 32]))),
        VaultResponse::GenKeyPair(Ok(CspPublicKey::MultiBls12_381([2u8; 96]))),
        VaultResponse::GenKeyPair(Err(CspBasicSignatureKeygenError::UnsupportedAlgorithm {
            algorithm: AlgorithmId::Tls,
        })),
        VaultResponse::GenKeyPair(Err(CspBasicSignatureKeygenError::DuplicateKeyId { key_id })),
        VaultResponse::GenKeyPair(Err(
            CspBasicSignatureKeygenError::TransientInternalError {
                internal_error: "disk full".to_string(),
            },
        )),
        VaultResponse::Sign(Ok(CspSignature::Ed25519([3u8; 64]))),
        VaultResponse::Sign(Err(CspBasicSignatureError::SecretKeyNotFound {
            algorithm: AlgorithmId::Ed25519,
            key_id,
        })),
        VaultResponse::Sign(Err(CspBasicSignatureError::UnsupportedAlgorithm {
            algorithm: AlgorithmId::EcdsaP256,
        })),
        VaultResponse::Sign(Err(CspBasicSignatureError::WrongSecretKeyType {
            algorithm: AlgorithmId::Ed25519,
            stored_variant: "MultiBls12_381".to_string(),
        })),
        VaultResponse::Sign(Err(CspBasicSignatureError::MalformedSecretKey {
            algorithm: AlgorithmId::Ed25519,
        })),
        VaultResponse::Sign(Err(CspBasicSignatureError::TransientInternalError {
            internal_error: "\u{1f511} gone".to_string(),
        })),
        VaultResponse::GenKeyPairWithPop(Ok((
            CspPublicKey::MultiBls12_381([4u8; 96]),
            CspPop::MultiBls12_381([5u8; 48]),
        ))),
        VaultResponse::GenKeyPairWithPop(Ok((
            CspPublicKey::Ed25519([4u8; 32]),
            CspPop::MultiBls12_381([5u8; 48]),
        ))),
        VaultResponse::GenKeyPairWithPop(Err(
            CspMultiSignatureKeygenError::UnsupportedAlgorithm {
                algorithm: AlgorithmId::Ed25519,
            },
        )),
        VaultResponse::MultiSign(Ok(CspSignature::MultiBls12_381([6u8; 48]))),
        VaultResponse::MultiSign(Err(CspMultiSignatureError::WrongSecretKeyType {
            algorithm: AlgorithmId::MultiBls12_381,
            stored_variant: "Ed25519".to_string(),
        })),
        VaultResponse::MultiSign(Err(CspMultiSignatureError::SecretKeyNotFound {
            algorithm: AlgorithmId::MultiBls12_381,
            key_id,
        })),
        VaultResponse::TlsSign(Ok(CspSignature::Ed25519([7u8; 64]))),
        VaultResponse::TlsSign(Err(CspBasicSignatureError::WrongSecretKeyType {
            algorithm: AlgorithmId::Tls,
            stored_variant: "Ed25519".to_string(),
        })),
        VaultResponse::SksContains(Ok(true)),
        VaultResponse::SksContains(Ok(false)),
        VaultResponse::SksContains(Err(
            CspSecretKeyStoreContainsError::TransientInternalError {
                internal_error: "busy".to_string(),
            },
        )),
    ]
}

#[test]
fn should_read_back_written_requests() {
    for request in requests() {
        let bytes = request.to_bytes();
        assert_eq!(VaultRequest::from_bytes(&bytes), Some(request.clone()));
        assert_eq!(VaultRequest::from_frame(request.to_frame()), Some(request));
    }
}

#[test]
fn should_read_back_written_responses() {
    for response in responses() {
        let bytes = response.to_bytes();
        assert_eq!(VaultResponse::from_bytes(&bytes).as_ref(), Some(&response));
        assert_eq!(
            VaultResponse::from_frame(&response.to_frame()),
            Some(response)
        );
    }
}

#[test]
fn should_write_sign_request_in_documented_format() {
    let request = VaultRequest::Sign {
        algorithm_id: AlgorithmId::Ed25519,
        message: vec![1, 2, 3],
        key_id: KeyId::from([9u8; 32]),
    };
    let mut expected = vec![1u8, 0, 7];
    expected.extend_from_slice(&[9u8; 32]);
    expected.extend_from_slice(&[3, 0, 0, 0, 0, 0, 0, 0]);
    expected.extend_from_slice(&[1, 2, 3]);
    expected.extend_from_slice(&[0u8; 8]);
    assert_eq!(request.to_bytes(), expected);
}

#[test]
fn should_write_wrong_key_type_answer_in_documented_format() {
    let response = VaultResponse::MultiSign(Err(CspMultiSignatureError::WrongSecretKeyType {
        algorithm: AlgorithmId::MultiBls12_381,
        stored_variant: "Ed25519".to_string(),
    }));
    let mut expected = vec![3u8, 4, 1];
    expected.extend_from_slice(&[0u8; 32]);
    expected.extend_from_slice(&[7, 0, 0, 0, 0, 0, 0, 0]);
    expected.extend_from_slice(b"Ed25519");
    expected.extend_from_slice(&[0u8; 8]);
    assert_eq!(response.to_bytes(), expected);
}

#[test]
fn should_refuse_bytes_that_are_no_frame() {
    let good = requests()[1].to_bytes();
    assert!(Frame::from_bytes(&good).is_some());
    assert_eq!(Frame::from_bytes(&[]), None);
    assert_eq!(Frame::from_bytes(&good[..good.len() - 1]), None);
    let mut trailing = good.clone();
    trailing.push(0);
    assert_eq!(Frame::from_bytes(&trailing), None);
    let mut long_first = good.clone();
    long_first[35] = 200;
    assert_eq!(Frame::from_bytes(&long_first), None);
    let mut huge_first = good.clone();
    huge_first[42] = 0xff;
    assert_eq!(Frame::from_bytes(&huge_first), None);
}

#[test]
fn should_refuse_frames_that_are_no_request_or_answer() {
    let mut frame = requests()[0].to_frame();
    frame.operation = 6;
    assert_eq!(VaultRequest::from_frame(frame.clone()), None);
    frame.operation = 0;
    frame.algorithm = 17;
    assert_eq!(VaultRequest::from_frame(frame.clone()), None);
    frame.algorithm = 7;
    frame.status = 1;
    assert_eq!(VaultRequest::from_frame(frame), None);

    let mut frame = responses()[0].to_frame();
    frame.first.push(0);
    assert_eq!(VaultResponse::from_frame(&frame), None);
    let mut frame = responses()[0].to_frame();
    frame.algorithm = 11;
    assert_eq!(VaultResponse::from_frame(&frame), None);
    let mut frame = responses()[8].to_frame();
    frame.first = vec![0xff, 0xfe];
    assert_eq!(VaultResponse::from_frame(&frame), None);
    let mut frame = responses()[8].to_frame();
    frame.status = 7;
    assert_eq!(VaultResponse::from_frame(&frame), None);
    let mut frame = responses()[11].to_frame();
    frame.second.pop();
    assert_eq!(VaultResponse::from_frame(&frame), None);
    let mut frame = responses()[5].to_frame();
    frame.operation = 9;
    assert_eq!(VaultResponse::from_frame(&frame), None);
}

#[test]
fn should_serve_requests_as_the_vault_answers_them() {
    let mut served = LocalCspVault::new_with_seed([5u8; 32]);
    let mut direct = LocalCspVault::new_with_seed([5u8; 32]);

    let response = serve(
        &mut served,
        &VaultRequest::GenKeyPair {
            algorithm_id: AlgorithmId::Ed25519,
        },
    );
    let public_key = direct.gen_key_pair(AlgorithmId::Ed25519).unwrap();
    assert_eq!(response, VaultResponse::GenKeyPair(Ok(public_key)));

    let key_id = KeyId::from(&public_key);
    let response = serve(
        &mut served,
        &VaultRequest::Sign {
            algorithm_id: AlgorithmId::Ed25519,
            message: b"message".to_vec(),
            key_id,
        },
    );
    assert_eq!(
        response,
        VaultResponse::Sign(direct.sign(AlgorithmId::Ed25519, b"message", key_id))
    );

    let response = serve(
        &mut served,
        &VaultRequest::MultiSign {
            algorithm_id: AlgorithmId::MultiBls12_381,
            message: b"message".to_vec(),
            key_id,
        },
    );
    assert_eq!(
        response,
        VaultResponse::MultiSign(Err(CspMultiSignatureError::WrongSecretKeyType {
            algorithm: AlgorithmId::MultiBls12_381,
            stored_variant: "Ed25519".to_string()
        }))
    );

    let response = serve(
        &mut served,
        &VaultRequest::GenKeyPairWithPop {
            algorithm_id: AlgorithmId::MultiBls12_381,
        },
    );
    assert_eq!(
        response,
        VaultResponse::GenKeyPairWithPop(direct.gen_key_pair_with_pop(AlgorithmId::MultiBls12_381))
    );
}

#[test]
fn should_give_caller_what_the_vault_answered() {
    let mut served = LocalCspVault::new_with_seed([5u8; 32]);
    let mut direct = LocalCspVault::new_with_seed([5u8; 32]);

    let request = VaultRequest::GenKeyPair {
        algorithm_id: AlgorithmId::Ed25519,
    };
    let answer = serve_bytes(&mut served, &request.to_bytes()).unwrap();
    let remote = gen_key_pair_reply(Some(&answer));
    assert_eq!(remote, direct.gen_key_pair(AlgorithmId::Ed25519));
    let key_id = KeyId::from(&remote.unwrap());

    for algorithm_id in AlgorithmId::iter() {
        let request = VaultRequest::Sign {
            algorithm_id,
            message: b"message".to_vec(),
            key_id,
        };
        let answer = serve_bytes(&mut served, &request.to_bytes()).unwrap();
        assert_eq!(
            sign_reply(Some(&answer)),
            direct.sign(algorithm_id, b"message", key_id)
        );

        let request = VaultRequest::MultiSign {
            algorithm_id,
            message: b"message".to_vec(),
            key_id,
        };
        let answer = serve_bytes(&mut served, &request.to_bytes()).unwrap();
        assert_eq!(
            multi_sign_reply(Some(&answer)),
            direct.multi_sign(algorithm_id, b"message", key_id)
        );
    }

    let request = VaultRequest::GenKeyPairWithPop {
        algorithm_id: AlgorithmId::MultiBls12_381,
    };
    let answer = serve_bytes(&mut served, &request.to_bytes()).unwrap();
    assert_eq!(
        gen_key_pair_with_pop_reply(Some(&answer)),
        direct.gen_key_pair_with_pop(AlgorithmId::MultiBls12_381)
    );
    assert_eq!(
        served.node_secret_key_store().to_bytes(),
        direct.node_secret_key_store().to_bytes()
    );

    for id in [key_id, KeyId::from([0u8; 32])] {
        let request = VaultRequest::SksContains { key_id: id };
        let answer = serve_bytes(&mut served, &request.to_bytes()).unwrap();
        assert_eq!(sks_contains_reply(Some(&answer)), direct.sks_contains(&id));
        let request = VaultRequest::TlsSign {
            message: b"hello".to_vec(),
            key_id: id,
        };
        let answer = serve_bytes(&mut served, &request.to_bytes()).unwrap();
        assert_eq!(
            tls_sign_reply(Some(&answer)),
            direct.tls_sign(b"hello", &id)
        );
    }
    assert_eq!(
        sks_contains_reply(None),
        Err(CspSecretKeyStoreContainsError::TransientInternalError {
            internal_error: VAULT_UNAVAILABLE.to_string()
        })
    );
    assert_eq!(
        tls_sign_reply(Some(&[0u8; 4])),
        Err(CspBasicSignatureError::TransientInternalError {
            internal_error: VAULT_ANSWER_UNREADABLE.to_string()
        })
    );
}

#[test]
fn should_not_answer_what_is_no_request() {
    let mut vault = LocalCspVault::new_with_seed([5u8; 32]);
    assert_eq!(serve_bytes(&mut vault, &[1, 2, 3]), None);
    assert_eq!(serve_bytes(&mut vault, &responses()[0].to_bytes()), None);
    assert_eq!(vault.node_secret_key_store().len(), 0);
}

#[test]
fn should_report_unreachable_vault_as_transient_error() {
    assert_eq!(
        sign_reply(None),
        Err(CspBasicSignatureError::TransientInternalError {
            internal_error: VAULT_UNAVAILABLE.to_string()
        })
    );
    assert_eq!(
        multi_sign_reply(None),
        Err(CspMultiSignatureError::TransientInternalError {
            internal_error: VAULT_UNAVAILABLE.to_string()
        })
    );
    assert_eq!(
        gen_key_pair_reply(None),
        Err(CspBasicSignatureKeygenError::TransientInternalError {
            internal_error: VAULT_UNAVAILABLE.to_string()
        })
    );
    assert_eq!(
        gen_key_pair_with_pop_reply(None),
        Err(CspMultiSignatureKeygenError::TransientInternalError {
            internal_error: VAULT_UNAVAILABLE.to_string()
        })
    );
}

#[test]
fn should_report_answer_to_other_operation_as_transient_error() {
    let signature = VaultResponse::Sign(Ok(CspSignature::Ed25519([3u8; 64]))).to_bytes();
    assert_eq!(
        sign_reply(Some(&signature)),
        Ok(CspSignature::Ed25519([3u8; 64]))
    );
    assert_eq!(
        multi_sign_reply(Some(&signature)),
        Err(CspMultiSignatureError::TransientInternalError {
            internal_error: VAULT_ANSWER_UNREADABLE.to_string()
        })
    );
    assert_eq!(
        gen_key_pair_reply(Some(&signature)),
        Err(CspBasicSignatureKeygenError::TransientInternalError {
            internal_error: VAULT_ANSWER_UNREADABLE.to_string()
        })
    );
    assert_eq!(
        gen_key_pair_with_pop_reply(Some(&[1, 2, 3])),
        Err(CspMultiSignatureKeygenError::TransientInternalError {
            internal_error: VAULT_ANSWER_UNREADABLE.to_string()
        })
    );
    assert_eq!(
        sign_reply(Some(&[])),
        Err(CspBasicSignatureError::TransientInternalError {
            internal_error: VAULT_ANSWER_UNREADABLE.to_string()
        })
    );
}

#[test]
fn should_prefix_payload_with_its_length() {
    assert_eq!(
        with_length(&[7, 8, 9]),
        vec![3, 0, 0, 0, 0, 0, 0, 0, 7, 8, 9]
    );
    assert_eq!(with_length(&[]), vec![0u8; 8]);
    assert_eq!(length_of_payload(&[3, 0, 0, 0, 0, 0, 0, 0]), 3);
    assert_eq!(length_of_payload(&[0, 1, 0, 0, 0, 0, 0, 0]), 256);
    assert_eq!(length_of_payload(&[0xff; 8]), u64::MAX);
}

fn entry(algorithm: i32, key_value: Vec<u8>) -> PublicKey {
    PublicKey {
        version: 3,
        algorithm,
        key_value,
        proof_data: Some(vec![1, 2]),
        timestamp: Some(1_700_000_000_000),
    }
}

#[test]
fn should_read_back_written_key_file() {
    let full = NodePublicKeys {
        version: 1,
        node_signing_pk: Some(entry(7, vec![1u8; 32])),
        committee_signing_pk: Some(PublicKey {
            version: 0,
            algorithm: -5,
            key_value: vec![],
            proof_data: None,
            timestamp: None,
        }),
        tls_certificate: Some(X509PublicKeyCert {
            certificate_der: vec![0x30, 0x82],
        }),
        dkg_dealing_encryption_pk: None,
        idkg_dealing_encryption_pk: Some(entry(i32::MAX, vec![9u8; 33])),
    };
    assert_eq!(
        NodePublicKeys::from_bytes(&full.to_bytes()),
        Some(full.clone())
    );
    let none = NodePublicKeys::default();
    assert_eq!(NodePublicKeys::from_bytes(&none.to_bytes()), Some(none));
    let mut no_timestamp = full;
    no_timestamp.node_signing_pk = Some(PublicKey {
        version: u32::MAX,
        algorithm: i32::MIN,
        key_value: vec![5],
        proof_data: Some(vec![]),
        timestamp: None,
    });
    assert_eq!(
        NodePublicKeys::from_bytes(&no_timestamp.to_bytes()),
        Some(no_timestamp)
    );
}

#[test]
fn should_write_empty_key_file_in_documented_format() {
    let mut expected = vec![8u8, 0, 0, 0, 0, 0, 0, 0];
    expected.extend_from_slice(&[0u8; 8]);
    expected.extend_from_slice(&[0u8; 8 * 14]);
    assert_eq!(NodePublicKeys::default().to_bytes(), expected);
}

#[test]
fn should_write_key_head_in_documented_format() {
    let keys = NodePublicKeys {
        version: 2,
        node_signing_pk: Some(PublicKey {
            version: 1,
            algorithm: 7,
            key_value: vec![0xaa],
            proof_data: None,
            timestamp: Some(5),
        }),
        committee_signing_pk: None,
        tls_certificate: None,
        dkg_dealing_encryption_pk: None,
        idkg_dealing_encryption_pk: None,
    };
    let mut expected = vec![8u8, 0, 0, 0, 0, 0, 0, 0, 2, 0, 0, 0, 0, 0, 0, 0];
    expected.extend_from_slice(&[26, 0, 0, 0, 0, 0, 0, 0]);
    expected.extend_from_slice(&[1, 0, 0, 0, 0, 0, 0, 0]);
    expected.extend_from_slice(&[7, 0, 0, 0x80, 0, 0, 0, 0]);
    expected.extend_from_slice(&[0, 1]);
    expected.extend_from_slice(&[5, 0, 0, 0, 0, 0, 0, 0]);
    expected.extend_from_slice(&[1, 0, 0, 0, 0, 0, 0, 0, 0xaa]);
    expected.extend_from_slice(&[0u8; 8 * 12]);
    assert_eq!(keys.to_bytes(), expected);
}

#[test]
fn should_refuse_malformed_key_file() {
    let good = NodePublicKeys {
        version: 1,
        node_signing_pk: Some(entry(7, vec![1u8; 32])),
        committee_signing_pk: None,
        tls_certificate: Some(X509PublicKeyCert {
            certificate_der: vec![1],
        }),
        dkg_dealing_encryption_pk: None,
        idkg_dealing_encryption_pk: None,
    }
    .to_bytes();
    assert!(NodePublicKeys::from_bytes(&good).is_some());
    assert_eq!(NodePublicKeys::from_bytes(&[]), None);
    assert_eq!(NodePublicKeys::from_bytes(&good[..good.len() - 8]), None);
    let mut one_more = good.clone();
    one_more.extend_from_slice(&[0u8; 8]);
    assert_eq!(NodePublicKeys::from_bytes(&one_more), None);
    let mut big_version = good.clone();
    big_version[8 + 4] = 1;
    assert_eq!(NodePublicKeys::from_bytes(&big_version), None);
    let mut bad_mark = good.clone();
    bad_mark[16 + 8 + 16] = 2;
    assert_eq!(NodePublicKeys::from_bytes(&bad_mark), None);
    let mut big_algorithm = good.clone();
    big_algorithm[16 + 8 + 8 + 4] = 1;
    assert_eq!(NodePublicKeys::from_bytes(&big_algorithm), None);
    let mut short_head = good.clone();
    short_head[16] = 25;
    assert_eq!(NodePublicKeys::from_bytes(&short_head), None);
}
