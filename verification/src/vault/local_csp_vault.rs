//! The vault that lives in the calling process.

use crate::algorithm::AlgorithmId;
use crate::bls12_381;
use crate::bytes::copy_range;
use crate::bytes::read_32_bytes;
use crate::csprng;
use crate::csprng::after_draw;
use crate::csprng::seeded_draw;
use crate::csprng::Csprng;
use crate::csprng::CsprngView;
use crate::ed25519;
use crate::key_id::key_id_of;
use crate::key_id::public_key_hash_as_key_id;
use crate::key_id::KeyId;
use crate::secret_key_store::SecretKeyStore;
use crate::secret_key_store::SecretKeyStoreError;
use crate::types::CspPop;
use crate::types::CspPublicKey;
use crate::types::CspSecretKey;
use crate::types::CspSignature;
use crate::types::TaggedBytes;
use crate::vault::api::basic_keygen_outcome;
use crate::vault::api::basic_sign_result;
use crate::vault::api::ed25519_public;
use crate::vault::api::ed25519_secret;
use crate::vault::api::key_with_pop_view;
use crate::vault::api::multi_keygen_outcome;
use crate::vault::api::multi_keygen_result;
use crate::vault::api::multi_sign_result;
use crate::vault::api::result_view;
use crate::vault::api::store_key_result;
use crate::vault::api::tls_sign_result;
use crate::vault::api::CspSecretKeyStoreContainsError;
use crate::vault::api::CspBasicSignatureError;
use crate::vault::api::CspBasicSignatureKeygenError;
use crate::vault::api::CspMultiSignatureError;
use crate::vault::api::CspMultiSignatureKeygenError;
use crate::vault::api::CspVault;
use crate::vault::api::KeyMap;
use crate::vault::api::MULTI_SIG_DOMAIN;
use crate::vault::api::MULTI_SIG_POP_DOMAIN;
use rand_chacha::ChaCha20Rng;
use vstd::prelude::*;
use vstd::string::StringSliceAdditionalSpecFns;

verus! {

/// What is left of the result of storing a key pair when the note of
/// whether a key was added is dropped.
pub open spec fn noted_view<E: View>(stored: Result<(CspPublicKey, bool), E>) -> Result<
    TaggedBytes,
    E::V,
> {
    match stored {
        Ok((public_key, _)) => Ok(public_key@),
        Err(error) => Err(error@),
    }
}

/// What is left of the result of storing a key pair with its proof of
/// possession when the note of whether a key was added is dropped.
pub open spec fn noted_pair_view<E: View>(
    stored: Result<((CspPublicKey, CspPop), bool), E>,
) -> Result<(TaggedBytes, TaggedBytes), E::V> {
    match stored {
        Ok((pair, _)) => Ok((pair.0@, pair.1@)),
        Err(error) => Err(error@),
    }
}

/// The keys held after a key pair that was stored is taken back out: the
/// key under the identifier of the public key goes where storing added it.
pub open spec fn taken_back(keys: KeyMap, public: TaggedBytes, added: bool) -> KeyMap {
    if added {
        keys.remove(key_id_of(public))
    } else {
        keys
    }
}

/// Storing a key pair and taking it back leaves what was held.
pub proof fn lemma_take_back_restores(before: KeyMap, public: TaggedBytes, secret: TaggedBytes)
    requires
        store_key_result(before, public, secret).0 is Ok,
    ensures
        taken_back(
            store_key_result(before, public, secret).1,
            public,
            !before.contains_key(key_id_of(public)),
        ) == before,
{
    let key_id = key_id_of(public);
    let after = store_key_result(before, public, secret).1;
    if before.contains_key(key_id) {
        assert(after =~= before);
    } else {
        assert(after.remove(key_id) =~= before);
    }
}

/// Whether key pairs for single-key signatures are generated for an
/// algorithm: for Ed25519 and no other.
pub fn check_basic_keygen_algorithm(algorithm_id: AlgorithmId) -> (checked: Result<
    (),
    CspBasicSignatureKeygenError,
>)
    ensures
        match checked {
            Ok(()) => algorithm_id == AlgorithmId::Ed25519,
            Err(error) => algorithm_id != AlgorithmId::Ed25519 && error@
                == (crate::vault::api::KeygenErrorView::UnsupportedAlgorithm {
                algorithm: algorithm_id,
            }),
        },
{
    match algorithm_id {
        AlgorithmId::Ed25519 => Ok(()),
        _ => Err(CspBasicSignatureKeygenError::UnsupportedAlgorithm { algorithm: algorithm_id }),
    }
}

/// Whether key pairs for multi-signatures are generated for an algorithm:
/// for MultiBls12_381 and no other.
pub fn check_multi_keygen_algorithm(algorithm_id: AlgorithmId) -> (checked: Result<
    (),
    CspMultiSignatureKeygenError,
>)
    ensures
        match checked {
            Ok(()) => algorithm_id == AlgorithmId::MultiBls12_381,
            Err(error) => algorithm_id != AlgorithmId::MultiBls12_381 && error@
                == (crate::vault::api::KeygenErrorView::UnsupportedAlgorithm {
                algorithm: algorithm_id,
            }),
        },
{
    match algorithm_id {
        AlgorithmId::MultiBls12_381 => Ok(()),
        _ => Err(CspMultiSignatureKeygenError::UnsupportedAlgorithm { algorithm: algorithm_id }),
    }
}

/// Stores the Ed25519 key pair of the given seed in a store and returns its
/// public key. Where another key is already held under the identifier of
/// the public key, nothing is stored.
pub fn store_ed25519_key_pair(store: &mut SecretKeyStore, seed: [u8; 32]) -> (stored: Result<
    CspPublicKey,
    CspBasicSignatureKeygenError,
>)
    requires
        old(store).well_formed(),
    ensures
        final(store).well_formed(),
        (result_view(stored), final(store)@) == store_key_result(
            old(store)@,
            ed25519_public(seed@),
            ed25519_secret(seed@),
        ),
{
    match store_ed25519_key_pair_noting(store, seed) {
        Ok((public_key, _)) => Ok(public_key),
        Err(error) => Err(error),
    }
}

/// Stores the Ed25519 key pair of the given seed in a store, as
/// `store_ed25519_key_pair` does, and says besides whether the store holds
/// a key more than before: it does not where the very same key was held
/// already.
pub fn store_ed25519_key_pair_noting(store: &mut SecretKeyStore, seed: [u8; 32]) -> (stored: Result<
    (CspPublicKey, bool),
    CspBasicSignatureKeygenError,
>)
    requires
        old(store).well_formed(),
    ensures
        final(store).well_formed(),
        (noted_view(stored), final(store)@) == store_key_result(
            old(store)@,
            ed25519_public(seed@),
            ed25519_secret(seed@),
        ),
        stored matches Ok((public_key, added)) ==> added == !old(store)@.contains_key(
            key_id_of(public_key@),
        ),
{
    let public_key = CspPublicKey::Ed25519(ed25519::public_key(&seed));
    let key_id = public_key_hash_as_key_id(&public_key);
    let secret_bytes = copy_range(seed.as_slice(), 0, 32);
    assert(secret_bytes@ =~= seed@);
    let secret_key = CspSecretKey::new(AlgorithmId::Ed25519, secret_bytes);
    let held = store.contains(&key_id);
    match store.insert(key_id, secret_key) {
        Ok(()) => Ok((public_key, !held)),
        Err(SecretKeyStoreError::DuplicateKeyId(key_id)) => Err(
            CspBasicSignatureKeygenError::DuplicateKeyId { key_id },
        ),
    }
}

/// Takes a key pair that was stored back out of a store, where storing it
/// added a key; the store then holds what it held before the key pair was
/// stored.
pub fn take_back_key_pair(store: &mut SecretKeyStore, public_key: &CspPublicKey, added: bool)
    requires
        old(store).well_formed(),
    ensures
        final(store).well_formed(),
        final(store)@ == taken_back(old(store)@, public_key@, added),
{
    if added {
        let key_id = public_key_hash_as_key_id(public_key);
        let _ = store.remove(&key_id);
    }
}

/// Stores the multi-signature key pair of the given secret key in a store
/// and returns its public key with the proof of possession, which is
/// accepted under the public key. Where another key is already
/// held under the identifier of the public key, nothing is stored.
pub fn store_multi_sig_key_pair(store: &mut SecretKeyStore, material: [u8; 32]) -> (stored: Result<
    (CspPublicKey, CspPop),
    CspMultiSignatureKeygenError,
>)
    requires
        old(store).well_formed(),
    ensures
        final(store).well_formed(),
        (key_with_pop_view(stored), final(store)@) == multi_keygen_result(old(store)@, material@),
        stored matches Ok((public, pop)) ==> crate::vault::api::holds_multi_sig_key(
            final(store)@,
            public@,
        ) && bls12_381::accepts(
            public@.bytes,
            public@.bytes,
            MULTI_SIG_POP_DOMAIN.spec_bytes(),
            pop@.bytes,
        ),
{
    match store_multi_sig_key_pair_noting(store, material) {
        Ok((pair, _)) => Ok(pair),
        Err(error) => Err(error),
    }
}

/// Stores the multi-signature key pair of the given secret key in a store,
/// as `store_multi_sig_key_pair` does, and says besides whether the store
/// holds a key more than before: it does not where the very same key was
/// held already.
pub fn store_multi_sig_key_pair_noting(store: &mut SecretKeyStore, material: [u8; 32]) -> (stored:
    Result<((CspPublicKey, CspPop), bool), CspMultiSignatureKeygenError>)
    requires
        old(store).well_formed(),
    ensures
        final(store).well_formed(),
        (noted_pair_view(stored), final(store)@) == multi_keygen_result(old(store)@, material@),
        stored matches Ok((pair, added)) ==> {
            &&& added == !old(store)@.contains_key(key_id_of(pair.0@))
            &&& crate::vault::api::holds_multi_sig_key(final(store)@, pair.0@)
            &&& bls12_381::accepts(
                pair.0@.bytes,
                pair.0@.bytes,
                MULTI_SIG_POP_DOMAIN.spec_bytes(),
                pair.1@.bytes,
            )
        },
{
    let public = bls12_381::public_key(&material);
    let public_key = CspPublicKey::MultiBls12_381(public);
    let key_id = public_key_hash_as_key_id(&public_key);
    let pop = bls12_381::sign(&material, public.as_slice(), MULTI_SIG_POP_DOMAIN.as_bytes());
    let secret_bytes = copy_range(material.as_slice(), 0, 32);
    assert(secret_bytes@ =~= material@);
    let secret_key = CspSecretKey::new(AlgorithmId::MultiBls12_381, secret_bytes);
    let held = store.contains(&key_id);
    match store.insert(key_id, secret_key) {
        Ok(()) => Ok(((public_key, CspPop::MultiBls12_381(pop)), !held)),
        Err(SecretKeyStoreError::DuplicateKeyId(key_id)) => Err(
            CspMultiSignatureKeygenError::DuplicateKeyId { key_id },
        ),
    }
}

/// Signs a message with the Ed25519 key that a store holds under an
/// identifier. A signature that is returned is accepted under the public
/// key of the key held.
pub fn sign_with_key_of(
    store: &SecretKeyStore,
    algorithm_id: AlgorithmId,
    message: &[u8],
    key_id: KeyId,
) -> (signed: Result<CspSignature, CspBasicSignatureError>)
    requires
        store.well_formed(),
    ensures
        result_view(signed) == basic_sign_result(store@, algorithm_id, message@, key_id@),
        signed matches Ok(signature) ==> ed25519::accepts(
            ed25519::public_key_of(store@[key_id@].bytes),
            message@,
            signature@.bytes,
        ),
{
    match algorithm_id {
        AlgorithmId::Ed25519 => {},
        _ => {
            return Err(CspBasicSignatureError::UnsupportedAlgorithm { algorithm: algorithm_id });
        },
    }
    let secret_key = match store.get(&key_id) {
        Some(secret_key) => secret_key,
        None => {
            return Err(
                CspBasicSignatureError::SecretKeyNotFound { algorithm: algorithm_id, key_id },
            );
        },
    };
    match secret_key.algorithm {
        AlgorithmId::Ed25519 => {},
        _ => {
            return Err(
                CspBasicSignatureError::WrongSecretKeyType {
                    algorithm: algorithm_id,
                    stored_variant: secret_key.enum_variant().to_owned(),
                },
            );
        },
    }
    if secret_key.bytes.len() != ed25519::SECRET_KEY_LEN {
        return Err(CspBasicSignatureError::MalformedSecretKey { algorithm: algorithm_id });
    }
    let seed = read_32_bytes(secret_key.bytes.as_slice(), 0);
    assert(seed@ =~= secret_key.bytes@);
    Ok(CspSignature::Ed25519(ed25519::sign(&seed, message)))
}

/// Signs a message of a TLS handshake with the TLS key that a store holds
/// under an identifier. A signature that is returned is accepted under the
/// public key of the key held.
pub fn tls_sign_with_key_of(store: &SecretKeyStore, message: &[u8], key_id: &KeyId) -> (signed:
    Result<CspSignature, CspBasicSignatureError>)
    requires
        store.well_formed(),
    ensures
        result_view(signed) == tls_sign_result(store@, message@, key_id@),
        signed matches Ok(signature) ==> ed25519::accepts(
            ed25519::public_key_of(store@[key_id@].bytes),
            message@,
            signature@.bytes,
        ),
{
    let secret_key = match store.get(key_id) {
        Some(secret_key) => secret_key,
        None => {
            return Err(
                CspBasicSignatureError::SecretKeyNotFound {
                    algorithm: AlgorithmId::Tls,
                    key_id: *key_id,
                },
            );
        },
    };
    match secret_key.algorithm {
        AlgorithmId::Tls => {},
        _ => {
            return Err(
                CspBasicSignatureError::WrongSecretKeyType {
                    algorithm: AlgorithmId::Tls,
                    stored_variant: secret_key.enum_variant().to_owned(),
                },
            );
        },
    }
    if secret_key.bytes.len() != ed25519::SECRET_KEY_LEN {
        return Err(CspBasicSignatureError::MalformedSecretKey { algorithm: AlgorithmId::Tls });
    }
    let seed = read_32_bytes(secret_key.bytes.as_slice(), 0);
    assert(seed@ =~= secret_key.bytes@);
    Ok(CspSignature::Ed25519(ed25519::sign(&seed, message)))
}

/// Signs a message with the multi-signature key that a store holds under
/// an identifier. A signature that is returned is accepted under the public
/// key of the key held.
pub fn multi_sign_with_key_of(
    store: &SecretKeyStore,
    algorithm_id: AlgorithmId,
    message: &[u8],
    key_id: KeyId,
) -> (signed: Result<CspSignature, CspMultiSignatureError>)
    requires
        store.well_formed(),
    ensures
        result_view(signed) == multi_sign_result(store@, algorithm_id, message@, key_id@),
        signed matches Ok(signature) ==> bls12_381::accepts(
            bls12_381::public_key_of(store@[key_id@].bytes),
            message@,
            MULTI_SIG_DOMAIN.spec_bytes(),
            signature@.bytes,
        ),
{
    match algorithm_id {
        AlgorithmId::MultiBls12_381 => {},
        _ => {
            return Err(CspMultiSignatureError::UnsupportedAlgorithm { algorithm: algorithm_id });
        },
    }
    let secret_key = match store.get(&key_id) {
        Some(secret_key) => secret_key,
        None => {
            return Err(
                CspMultiSignatureError::SecretKeyNotFound { algorithm: algorithm_id, key_id },
            );
        },
    };
    match secret_key.algorithm {
        AlgorithmId::MultiBls12_381 => {},
        _ => {
            return Err(
                CspMultiSignatureError::WrongSecretKeyType {
                    algorithm: algorithm_id,
                    stored_variant: secret_key.enum_variant().to_owned(),
                },
            );
        },
    }
    if secret_key.bytes.len() != bls12_381::SECRET_KEY_LEN {
        return Err(CspMultiSignatureError::MalformedSecretKey { algorithm: algorithm_id });
    }
    let secret = read_32_bytes(secret_key.bytes.as_slice(), 0);
    assert(secret@ =~= secret_key.bytes@);
    Ok(
        CspSignature::MultiBls12_381(
            bls12_381::sign(&secret, message, MULTI_SIG_DOMAIN.as_bytes()),
        ),
    )
}

/// The operating system gave no seed for a random number generator.
#[derive(Clone, Copy, Debug, PartialEq, Eq, Structural)]
pub struct NoEntropy;

/// A vault in the calling process: a random number generator, the store of
/// the node's secret keys and the store of the keys held for canisters.
pub struct LocalCspVault {
    csprng: Csprng,
    node_secret_key_store: SecretKeyStore,
    canister_secret_key_store: SecretKeyStore,
}

impl LocalCspVault {
    /// The node's secret keys, by identifier.
    pub closed spec fn node_key_map(&self) -> KeyMap {
        self.node_secret_key_store@
    }

    /// The secret keys held for canisters, by identifier.
    pub closed spec fn canister_key_map(&self) -> KeyMap {
        self.canister_secret_key_store@
    }

    /// The random number generator of the vault.
    pub closed spec fn generator(&self) -> CsprngView {
        self.csprng@
    }

    /// Whether both stores are in order.
    pub closed spec fn stores_well_formed(&self) -> bool {
        self.node_secret_key_store.well_formed() && self.canister_secret_key_store.well_formed()
    }

    /// A vault with the given random number generator and stores.
    pub fn new_with_generator(
        csprng: ChaCha20Rng,
        node_secret_key_store: SecretKeyStore,
        canister_secret_key_store: SecretKeyStore,
    ) -> (vault: LocalCspVault)
        requires
            node_secret_key_store.well_formed(),
            canister_secret_key_store.well_formed(),
        ensures
            vault.stores_well_formed(),
            vault.node_key_map() == node_secret_key_store@,
            vault.canister_key_map() == canister_secret_key_store@,
            vault.generator() is Unpredictable,
    {
        LocalCspVault {
            csprng: Csprng::Given(csprng),
            node_secret_key_store,
            canister_secret_key_store,
        }
    }

    /// A vault for production: its random number generator is seeded by the
    /// operating system. Where the system gives no seed there is no vault.
    pub fn new(node_secret_key_store: SecretKeyStore, canister_secret_key_store: SecretKeyStore) -> (made:
        Result<LocalCspVault, NoEntropy>)
        requires
            node_secret_key_store.well_formed(),
            canister_secret_key_store.well_formed(),
        ensures
            made matches Ok(vault) ==> {
                &&& vault.stores_well_formed()
                &&& vault.node_key_map() == node_secret_key_store@
                &&& vault.canister_key_map() == canister_secret_key_store@
                &&& vault.generator() is Unpredictable
            },
    {
        match csprng::from_os_entropy() {
            Some(csprng) => Ok(
                LocalCspVault::new_with_generator(
                    csprng,
                    node_secret_key_store,
                    canister_secret_key_store,
                ),
            ),
            None => Err(NoEntropy),
        }
    }

    /// A vault for tests, with a random number generator of the caller's
    /// and no key held for canisters. A generator that others can predict
    /// gives keys that others can predict.
    pub fn new_for_test(csprng: ChaCha20Rng, node_secret_key_store: SecretKeyStore) -> (vault:
        LocalCspVault)
        requires
            node_secret_key_store.well_formed(),
        ensures
            vault.stores_well_formed(),
            vault.node_key_map() == node_secret_key_store@,
            vault.canister_key_map() == Map::<Seq<u8>, crate::types::TaggedBytes>::empty(),
            vault.generator() is Unpredictable,
    {
        LocalCspVault {
            csprng: Csprng::Given(csprng),
            node_secret_key_store,
            canister_secret_key_store: SecretKeyStore::new(),
        }
    }

    /// A vault for tests whose random number generator starts from the
    /// given seed, with no key in it. What such a vault generates is
    /// determined by the seed and by how often it has drawn.
    pub fn new_with_seed(seed: [u8; 32]) -> (vault: LocalCspVault)
        ensures
            vault.stores_well_formed(),
            vault.node_key_map() == Map::<Seq<u8>, crate::types::TaggedBytes>::empty(),
            vault.canister_key_map() == Map::<Seq<u8>, crate::types::TaggedBytes>::empty(),
            vault.generator() == (CsprngView::Seeded { seed: seed@, draws: 0 }),
    {
        LocalCspVault {
            csprng: Csprng::from_seed(seed),
            node_secret_key_store: SecretKeyStore::new(),
            canister_secret_key_store: SecretKeyStore::new(),
        }
    }

    /// The store of the node's secret keys.
    pub fn node_secret_key_store(&self) -> (store: &SecretKeyStore)
        ensures
            store@ == self.node_key_map(),
            self.stores_well_formed() ==> store.well_formed(),
    {
        &self.node_secret_key_store
    }

    /// The store of the secret keys held for canisters.
    pub fn canister_secret_key_store(&self) -> (store: &SecretKeyStore)
        ensures
            store@ == self.canister_key_map(),
            self.stores_well_formed() ==> store.well_formed(),
    {
        &self.canister_secret_key_store
    }

    /// Stores the Ed25519 key pair of the given seed among the node's keys
    /// and returns its public key. Where another key is already held under
    /// the identifier of the public key, nothing is stored.
    pub fn store_ed25519_key_pair(&mut self, seed: [u8; 32]) -> (stored: Result<
        CspPublicKey,
        CspBasicSignatureKeygenError,
    >)
        requires
            old(self).stores_well_formed(),
        ensures
            final(self).stores_well_formed(),
            final(self).canister_key_map() == old(self).canister_key_map(),
            final(self).generator() == old(self).generator(),
            (result_view(stored), final(self).node_key_map()) == store_key_result(
                old(self).node_key_map(),
                ed25519_public(seed@),
                ed25519_secret(seed@),
            ),
    {
        self::store_ed25519_key_pair(&mut self.node_secret_key_store, seed)
    }

    /// Stores the multi-signature key pair of the given secret key among
    /// the node's keys and returns its public key with the proof of
    /// possession. Where another key is already held under the
    /// identifier of the public key, nothing is stored.
    pub fn store_multi_sig_key_pair(&mut self, material: [u8; 32]) -> (stored: Result<
        (CspPublicKey, CspPop),
        CspMultiSignatureKeygenError,
    >)
        requires
            old(self).stores_well_formed(),
        ensures
            final(self).stores_well_formed(),
            final(self).canister_key_map() == old(self).canister_key_map(),
            final(self).generator() == old(self).generator(),
            (key_with_pop_view(stored), final(self).node_key_map()) == multi_keygen_result(
                old(self).node_key_map(),
                material@,
            ),
            stored matches Ok((public, pop)) ==> crate::vault::api::holds_multi_sig_key(
                final(self).node_key_map(),
                public@,
            ) && bls12_381::accepts(
                public@.bytes,
                public@.bytes,
                MULTI_SIG_POP_DOMAIN.spec_bytes(),
                pop@.bytes,
            ),
    {
        self::store_multi_sig_key_pair(&mut self.node_secret_key_store, material)
    }
}

impl CspVault for LocalCspVault {
    open spec fn node_keys(&self) -> KeyMap {
        self.node_key_map()
    }

    open spec fn well_formed(&self) -> bool {
        self.stores_well_formed()
    }

    open spec fn in_process(&self) -> bool {
        true
    }

    /// Draws a seed from the random number generator, then stores the key
    /// pair of that seed. Never returns `TransientInternalError`.
    fn gen_key_pair(&mut self, algorithm_id: AlgorithmId) -> (generated: Result<
        CspPublicKey,
        CspBasicSignatureKeygenError,
    >)
        ensures
            final(self).canister_key_map() == old(self).canister_key_map(),
            basic_keygen_outcome(
                old(self).node_keys(),
                algorithm_id,
                result_view(generated),
                final(self).node_keys(),
            ),
            final(self).generator() == if algorithm_id == AlgorithmId::Ed25519 {
                after_draw(old(self).generator())
            } else {
                old(self).generator()
            },
            algorithm_id == AlgorithmId::Ed25519 ==> (old(self).generator() matches CsprngView::Seeded {
                seed,
                draws,
            } ==> (result_view(generated), final(self).node_keys()) == store_key_result(
                old(self).node_keys(),
                ed25519_public(seeded_draw(seed, draws)),
                ed25519_secret(seeded_draw(seed, draws)),
            )),
    {
        match check_basic_keygen_algorithm(algorithm_id) {
            Ok(()) => {
                let seed = self.csprng.draw();
                let stored = self.store_ed25519_key_pair(seed);
                proof {
                    assert(seed@.len() == 32);
                    assert((result_view(stored), self.node_keys()) == store_key_result(
                        old(self).node_keys(),
                        ed25519_public(seed@),
                        ed25519_secret(seed@),
                    ));
                }
                stored
            },
            Err(error) => Err(error),
        }
    }

    /// Never returns `TransientInternalError`.
    fn sign(&self, algorithm_id: AlgorithmId, message: &[u8], key_id: KeyId) -> (signed: Result<
        CspSignature,
        CspBasicSignatureError,
    >)
        ensures
            result_view(signed) == basic_sign_result(
                self.node_keys(),
                algorithm_id,
                message@,
                key_id@,
            ),
    {
        sign_with_key_of(&self.node_secret_key_store, algorithm_id, message, key_id)
    }

    /// Draws a secret key from the random number generator, then stores
    /// the key pair of it. Never returns `TransientInternalError`.
    fn gen_key_pair_with_pop(&mut self, algorithm_id: AlgorithmId) -> (generated: Result<
        (CspPublicKey, CspPop),
        CspMultiSignatureKeygenError,
    >)
        ensures
            final(self).canister_key_map() == old(self).canister_key_map(),
            multi_keygen_outcome(
                old(self).node_keys(),
                algorithm_id,
                key_with_pop_view(generated),
                final(self).node_keys(),
            ),
            final(self).generator() == if algorithm_id == AlgorithmId::MultiBls12_381 {
                after_draw(old(self).generator())
            } else {
                old(self).generator()
            },
            algorithm_id == AlgorithmId::MultiBls12_381 ==> (
            old(self).generator() matches CsprngView::Seeded {
                seed,
                draws,
            } ==> (key_with_pop_view(generated), final(self).node_keys()) == multi_keygen_result(
                old(self).node_keys(),
                seeded_draw(seed, draws),
            )),
    {
        match check_multi_keygen_algorithm(algorithm_id) {
            Ok(()) => {
                let material = self.csprng.draw();
                let stored = self.store_multi_sig_key_pair(material);
                proof {
                    assert(material@.len() == 32);
                    assert((key_with_pop_view(stored), self.node_keys()) == multi_keygen_result(
                        old(self).node_keys(),
                        material@,
                    ));
                }
                stored
            },
            Err(error) => Err(error),
        }
    }

    /// Never returns `TransientInternalError`.
    fn multi_sign(&self, algorithm_id: AlgorithmId, message: &[u8], key_id: KeyId) -> (signed:
        Result<CspSignature, CspMultiSignatureError>)
        ensures
            result_view(signed) == multi_sign_result(
                self.node_keys(),
                algorithm_id,
                message@,
                key_id@,
            ),
    {
        multi_sign_with_key_of(&self.node_secret_key_store, algorithm_id, message, key_id)
    }

    /// Never returns `TransientInternalError`.
    fn tls_sign(&self, message: &[u8], key_id: &KeyId) -> (signed: Result<
        CspSignature,
        CspBasicSignatureError,
    >)
        ensures
            result_view(signed) == tls_sign_result(self.node_keys(), message@, key_id@),
    {
        tls_sign_with_key_of(&self.node_secret_key_store, message, key_id)
    }

    /// Never fails.
    fn sks_contains(&self, key_id: &KeyId) -> (held: Result<bool, CspSecretKeyStoreContainsError>)
        ensures
            held == Ok::<bool, CspSecretKeyStoreContainsError>(
                self.node_keys().contains_key(key_id@),
            ),
    {
        Ok(self.node_secret_key_store.contains(key_id))
    }
}

} // verus!
