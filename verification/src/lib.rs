//! Secret-key custody for a node's cryptographic service provider: the
//! provider generates, stores and uses the node's keys through a vault, and
//! hides whether the vault lives in this process or in another one.

pub mod algorithm;
pub mod api;
pub mod blobs;
pub mod bls12_381;
pub mod bytes;
pub mod csprng;
pub mod ed25519;
pub mod key_file_format;
pub mod key_id;
pub mod key_purpose;
pub mod lock;
pub mod node_id;
pub mod node_public_keys;
pub mod secret_key_store;
pub mod sha256;
pub mod store_format;
pub mod types;
pub mod vault;

use crate::algorithm::AlgorithmId;
use crate::api::provider_keygen_result;
use crate::api::verify_proof_of_possession;
use crate::api::verify_signature;
use crate::api::CryptoError;
use crate::api::CspKeyGenerator;
use crate::api::CspSecretKeyStoreChecker;
use crate::api::CspTlsHandshakeSigner;
use crate::api::CspSigner;
use crate::api::NodePublicKeyData;
use crate::key_file_format::decode_key_file;
use crate::key_file_format::KeyFileView;
use crate::key_id::KeyId;
use crate::node_public_keys::decode_fs_encryption_key;
use crate::node_public_keys::decode_mega_key;
use crate::node_public_keys::decode_signing_key;
use crate::node_public_keys::CspFsEncryptionPublicKey;
use crate::node_public_keys::CurrentNodePublicKeys;
use crate::node_public_keys::MEGaPublicKeyK256Bytes;
use crate::node_public_keys::NodePublicKeys;
use crate::node_public_keys::NodePublicKeysView;
use crate::node_public_keys::PublicKeyView;
use crate::node_public_keys::PublicKeyDecodeError;
use crate::secret_key_store::keys_by_id;
use crate::secret_key_store::CorruptSecretKeyStore;
use crate::secret_key_store::SecretKeyStore;
use crate::store_format::decode_store;
use crate::types::CspPop;
use crate::types::CspPublicKey;
use crate::types::CspSignature;
use crate::types::TaggedBytes;
use crate::vault::api::basic_keygen_outcome;
use crate::vault::api::key_with_pop_view;
use crate::vault::api::multi_keygen_outcome;
use crate::vault::api::result_view;
use crate::vault::api::CspVault;
use crate::vault::api::KeyMap;
use crate::vault::local_csp_vault::LocalCspVault;
use rand_chacha::ChaCha20Rng;
use vstd::prelude::*;

verus! {

/// The name of the file that holds the store of the node's secret keys.
pub const SKS_DATA_FILENAME: &'static str = "sks_data.pb";

/// The name of the file that holds the store of the secret keys held for
/// canisters.
pub const CANISTER_SKS_DATA_FILENAME: &'static str = "canister_sks_data.pb";

/// Where the vault of a provider lives.
#[derive(Clone, Debug, PartialEq, Eq)]
pub enum CspVaultType {
    /// In the process of the provider.
    InReplica,
    /// In a process of its own, reached through the socket at this path.
    UnixSocket(String),
}

/// What a provider is configured with.
#[derive(Clone, Debug, PartialEq, Eq)]
pub struct CryptoConfig {
    /// The directory of the key files.
    pub crypto_root: String,
    /// Where the vault lives.
    pub csp_vault_type: CspVaultType,
}

impl CryptoConfig {
    /// Whether a provider with this configuration needs a handle to a
    /// runtime that drives the exchange with its vault: it does where the
    /// vault lives in a process of its own.
    pub fn needs_runtime_handle(&self) -> (needed: bool)
        ensures
            needed == (self.csp_vault_type is UnixSocket),
    {
        match &self.csp_vault_type {
            CspVaultType::InReplica => false,
            CspVaultType::UnixSocket(_) => true,
        }
    }
}

/// The role whose entry in the key file does not decode, and why.
#[derive(Clone, Copy, Debug, PartialEq, Eq, Structural)]
pub enum PublicKeyDataError {
    NodeSigning(PublicKeyDecodeError),
    CommitteeSigning(PublicKeyDecodeError),
    DkgDealingEncryption(PublicKeyDecodeError),
    IDkgDealingEncryption(PublicKeyDecodeError),
}

/// Why an entry does not decode, where there is an entry and it does not.
pub open spec fn decode_failure(
    entry: Option<PublicKeyView>,
    decode: spec_fn(PublicKeyView) -> Result<TaggedBytes, PublicKeyDecodeError>,
) -> Option<PublicKeyDecodeError> {
    match entry {
        Some(entry) => match decode(entry) {
            Ok(_) => None,
            Err(error) => Some(error),
        },
        None => None,
    }
}

/// The first role, in the order node signing, committee signing, dealing
/// encryption of the non-interactive and of the interactive key generation,
/// whose entry is present and does not decode under the algorithm it
/// declares. The certificate declares no algorithm and is not looked at.
pub open spec fn first_undecodable(keys: NodePublicKeysView) -> Option<PublicKeyDataError> {
    if let Some(error) = decode_failure(
        keys.node_signing,
        |e: PublicKeyView| decode_signing_key(e),
    ) {
        Some(PublicKeyDataError::NodeSigning(error))
    } else if let Some(error) = decode_failure(
        keys.committee_signing,
        |e: PublicKeyView| decode_signing_key(e),
    ) {
        Some(PublicKeyDataError::CommitteeSigning(error))
    } else if let Some(error) = decode_failure(
        keys.dkg_dealing_encryption,
        |e: PublicKeyView| decode_fs_encryption_key(e),
    ) {
        Some(PublicKeyDataError::DkgDealingEncryption(error))
    } else if let Some(error) = decode_failure(
        keys.idkg_dealing_encryption,
        |e: PublicKeyView| decode_mega_key(e),
    ) {
        Some(PublicKeyDataError::IDkgDealingEncryption(error))
    } else {
        None
    }
}

/// What a node without a key file has: no entry for any role.
pub open spec fn no_node_public_keys() -> NodePublicKeys {
    NodePublicKeys {
        version: 0,
        node_signing_pk: None,
        committee_signing_pk: None,
        tls_certificate: None,
        dkg_dealing_encryption_pk: None,
        idkg_dealing_encryption_pk: None,
    }
}

/// What the key file holds, or what a node without a key file has.
pub open spec fn keys_or_none(file: Option<NodePublicKeys>) -> NodePublicKeys {
    match file {
        Some(keys) => keys,
        None => no_node_public_keys(),
    }
}

/// The node's own public keys, every one of which decodes.
pub struct PublicKeyData {
    node_public_keys: NodePublicKeys,
}

impl PublicKeyData {
    /// The keys, as the key file holds them.
    pub closed spec fn keys(&self) -> NodePublicKeys {
        self.node_public_keys
    }

    /// Whether every entry that is present decodes.
    pub closed spec fn well_formed(&self) -> bool {
        first_undecodable(self.node_public_keys@).is_none()
    }

    /// The public keys of a node without a key file: none.
    pub fn none() -> (data: PublicKeyData)
        ensures
            data.well_formed(),
            data.keys() == no_node_public_keys(),
    {
        PublicKeyData { node_public_keys: NodePublicKeys::default() }
    }

    /// The public keys that the key file holds; a node without a key file
    /// has none. A file that holds anything but keys, or an entry that does
    /// not decode, is refused.
    pub fn from_key_file(key_file: Option<&[u8]>) -> (read: Result<PublicKeyData, CspStartupError>)
        ensures
            match read {
                Ok(data) => {
                    &&& key_file_failure(file_view(key_file)).is_none()
                    &&& data.well_formed()
                    &&& Some(data.keys().file_view()) == key_file_contents(file_view(key_file))
                },
                Err(error) => key_file_failure(file_view(key_file)) == Some(error),
            },
    {
        let node_public_keys = match key_file {
            None => NodePublicKeys::default(),
            Some(bytes) => match NodePublicKeys::from_bytes(bytes) {
                Some(keys) => keys,
                None => {
                    return Err(CspStartupError::MalformedKeyFile);
                },
            },
        };
        match PublicKeyData::try_from(node_public_keys) {
            Ok(data) => Ok(data),
            Err(error) => Err(CspStartupError::InvalidNodePublicKeys(error)),
        }
    }

    /// Takes what the key file holds, if every entry that is present
    /// decodes under the algorithm it declares; otherwise names the first
    /// role whose entry does not.
    pub fn try_from(node_public_keys: NodePublicKeys) -> (checked: Result<
        PublicKeyData,
        PublicKeyDataError,
    >)
        ensures
            match checked {
                Ok(data) => data.well_formed() && data.keys() == node_public_keys
                    && first_undecodable(node_public_keys@).is_none(),
                Err(error) => first_undecodable(node_public_keys@) == Some(error),
            },
    {
        if let Some(entry) = &node_public_keys.node_signing_pk {
            if let Err(error) = CspPublicKey::try_from(entry) {
                return Err(PublicKeyDataError::NodeSigning(error));
            }
        }
        if let Some(entry) = &node_public_keys.committee_signing_pk {
            if let Err(error) = CspPublicKey::try_from(entry) {
                return Err(PublicKeyDataError::CommitteeSigning(error));
            }
        }
        if let Some(entry) = &node_public_keys.dkg_dealing_encryption_pk {
            if let Err(error) = CspFsEncryptionPublicKey::try_from(entry) {
                return Err(PublicKeyDataError::DkgDealingEncryption(error));
            }
        }
        if let Some(entry) = &node_public_keys.idkg_dealing_encryption_pk {
            if let Err(error) = MEGaPublicKeyK256Bytes::try_from(entry) {
                return Err(PublicKeyDataError::IDkgDealingEncryption(error));
            }
        }
        Ok(PublicKeyData { node_public_keys })
    }
}

/// Why a provider with a vault in its own process could not be made.
#[derive(Clone, Copy, Debug, PartialEq, Eq, Structural)]
pub enum CspStartupError {
    /// The file of the node's secret keys holds no store.
    CorruptSecretKeyStore,
    /// The file of the secret keys held for canisters holds no store.
    CorruptCanisterSecretKeyStore,
    /// The key file holds anything but the node's public keys.
    MalformedKeyFile,
    /// An entry of the key file does not decode.
    InvalidNodePublicKeys(PublicKeyDataError),
    /// The operating system gave no seed for the random number generator.
    NoEntropy,
}

/// The keys of the store that a file holds: none where there is no file,
/// and nothing at all where the file holds no store.
pub open spec fn keys_in_file(file: Option<Seq<u8>>) -> Option<KeyMap> {
    match file {
        None => Some(Map::empty()),
        Some(bytes) => match decode_store(bytes) {
            Some(entries) => Some(keys_by_id(entries)),
            None => None,
        },
    }
}

/// The bytes of a file, where there is one.
pub open spec fn file_view(file: Option<&[u8]>) -> Option<Seq<u8>> {
    match file {
        Some(bytes) => Some(bytes@),
        None => None,
    }
}

/// What the key file holds: no key where there is no file, and nothing at
/// all where the file holds anything but keys.
pub open spec fn key_file_contents(key_file: Option<Seq<u8>>) -> Option<KeyFileView> {
    match key_file {
        None => Some(no_node_public_keys().file_view()),
        Some(bytes) => decode_key_file(bytes),
    }
}

/// Why the key file gives no public keys, if it gives none: it is
/// malformed, or one of its entries does not decode.
pub open spec fn key_file_failure(key_file: Option<Seq<u8>>) -> Option<CspStartupError> {
    match key_file_contents(key_file) {
        None => Some(CspStartupError::MalformedKeyFile),
        Some(file) => match first_undecodable(file.keys) {
            Some(error) => Some(CspStartupError::InvalidNodePublicKeys(error)),
            None => None,
        },
    }
}

/// What making a provider with a vault in its own process fails with for
/// its files, if it fails for them: the first of the three files, in the
/// order node keys, canister keys, public keys, that does not hold what it
/// should.
pub open spec fn startup_failure(
    sks_file: Option<Seq<u8>>,
    canister_sks_file: Option<Seq<u8>>,
    key_file: Option<Seq<u8>>,
) -> Option<CspStartupError> {
    if keys_in_file(sks_file).is_none() {
        Some(CspStartupError::CorruptSecretKeyStore)
    } else if keys_in_file(canister_sks_file).is_none() {
        Some(CspStartupError::CorruptCanisterSecretKeyStore)
    } else {
        key_file_failure(key_file)
    }
}

/// What making a provider with a vault in its own process fails with, if it
/// fails: what it fails with for its files, or, where the files are in
/// order, the want of a seed from the operating system.
pub open spec fn startup_failure_with(
    seeded: bool,
    sks_file: Option<Seq<u8>>,
    canister_sks_file: Option<Seq<u8>>,
    key_file: Option<Seq<u8>>,
) -> Option<CspStartupError> {
    match startup_failure(sks_file, canister_sks_file, key_file) {
        Some(error) => Some(error),
        None => if seeded {
            None
        } else {
            Some(CspStartupError::NoEntropy)
        },
    }
}

/// The crypto service provider: a vault that holds and uses the secret
/// keys, and the node's own public keys.
///
/// What is proved of a provider is proved from the contracts of `CspVault`
/// alone, so it holds over every vault that meets them. The one vault that
/// this library proves to meet them is `LocalCspVault`.
pub struct Csp<V: CspVault> {
    csp_vault: V,
    public_key_data: PublicKeyData,
}

impl<V: CspVault> Csp<V> {
    /// The vault of the provider.
    pub closed spec fn vault(&self) -> V {
        self.csp_vault
    }

    /// The node's own public keys, as the key file holds them.
    pub closed spec fn public_keys(&self) -> NodePublicKeys {
        self.public_key_data.keys()
    }

    /// Whether the vault is in order and every public key decodes.
    pub closed spec fn well_formed(&self) -> bool {
        self.csp_vault.well_formed() && self.public_key_data.well_formed()
    }

    /// What it is for a provider to be in order.
    pub proof fn lemma_well_formed(&self)
        ensures
            self.well_formed() == (self.vault().well_formed() && first_undecodable(
                self.public_keys()@,
            ).is_none()),
    {
    }

    /// A provider with the given vault and the public keys that the key
    /// file holds; a node without a key file has none. An entry that does
    /// not decode is refused.
    pub fn csp_with(node_public_keys: Option<NodePublicKeys>, csp_vault: V) -> (made: Result<
        Csp<V>,
        PublicKeyDataError,
    >)
        requires
            csp_vault.well_formed(),
        ensures
            match made {
                Ok(csp) => csp.well_formed() && csp.vault() == csp_vault && csp.public_keys()
                    == keys_or_none(node_public_keys) && first_undecodable(
                    keys_or_none(node_public_keys)@,
                ).is_none(),
                Err(error) => first_undecodable(keys_or_none(node_public_keys)@) == Some(error),
            },
    {
        let node_public_keys = match node_public_keys {
            Some(keys) => keys,
            None => NodePublicKeys::default(),
        };
        match PublicKeyData::try_from(node_public_keys) {
            Ok(public_key_data) => Ok(Csp { csp_vault, public_key_data }),
            Err(error) => Err(error),
        }
    }

    /// A provider with the given vault and the public keys that the key
    /// file holds; a node without a key file has none. A file that holds
    /// anything but keys, or an entry that does not decode, is refused.
    pub fn csp_with_key_file(key_file: Option<&[u8]>, csp_vault: V) -> (made: Result<
        Csp<V>,
        CspStartupError,
    >)
        requires
            csp_vault.well_formed(),
        ensures
            match made {
                Ok(csp) => {
                    &&& key_file_failure(file_view(key_file)).is_none()
                    &&& csp.well_formed()
                    &&& csp.vault() == csp_vault
                    &&& Some(csp.public_keys().file_view()) == key_file_contents(
                        file_view(key_file),
                    )
                },
                Err(error) => key_file_failure(file_view(key_file)) == Some(error),
            },
    {
        match PublicKeyData::from_key_file(key_file) {
            Ok(public_key_data) => Ok(Csp { csp_vault, public_key_data }),
            Err(error) => Err(error),
        }
    }

    /// Replaces the node's own public keys. Keys with an entry that does
    /// not decode are refused, and the provider keeps those it has. For
    /// tests only.
    pub fn reset_public_key_data(&mut self, node_public_keys: NodePublicKeys) -> (reset: Result<
        (),
        PublicKeyDataError,
    >)
        requires
            old(self).well_formed(),
        ensures
            final(self).well_formed(),
            final(self).vault() == old(self).vault(),
            match reset {
                Ok(()) => {
                    &&& first_undecodable(node_public_keys@).is_none()
                    &&& final(self).public_keys() == node_public_keys
                },
                Err(error) => {
                    &&& first_undecodable(node_public_keys@) == Some(error)
                    &&& final(self).public_keys() == old(self).public_keys()
                },
            },
    {
        match PublicKeyData::try_from(node_public_keys) {
            Ok(public_key_data) => {
                self.public_key_data = public_key_data;
                Ok(())
            },
            Err(error) => Err(error),
        }
    }

    /// The vault of the provider.
    pub fn csp_vault(&self) -> (vault: &V)
        ensures
            *vault == self.vault(),
    {
        &self.csp_vault
    }
}

impl Csp<LocalCspVault> {
    /// A provider for tests, with the given random number generator and
    /// store of the node's secret keys, and no public keys. A generator or
    /// a store that others can read gives keys that others can read.
    pub fn of(csprng: ChaCha20Rng, secret_key_store: SecretKeyStore) -> (csp: Csp<LocalCspVault>)
        requires
            secret_key_store.well_formed(),
        ensures
            csp.well_formed(),
            csp.vault().in_process(),
            csp.vault().node_keys() == secret_key_store@,
            csp.public_keys() == no_node_public_keys(),
    {
        Csp {
            csp_vault: LocalCspVault::new_for_test(csprng, secret_key_store),
            public_key_data: PublicKeyData::none(),
        }
    }

    /// A provider for tests, with the given random number generator, the
    /// store of the node's secret keys that its file holds and the public
    /// keys that the key file holds. A generator that others can predict
    /// gives keys that others can predict.
    pub fn new_with_rng(
        csprng: ChaCha20Rng,
        sks_file: Option<&[u8]>,
        key_file: Option<&[u8]>,
    ) -> (made: Result<Csp<LocalCspVault>, CspStartupError>)
        ensures
            match made {
                Ok(csp) => {
                    &&& startup_failure(file_view(sks_file), None, file_view(key_file)).is_none()
                    &&& csp.well_formed()
                    &&& csp.vault().in_process()
                    &&& Some(csp.vault().node_keys()) == keys_in_file(file_view(sks_file))
                    &&& Some(csp.public_keys().file_view()) == key_file_contents(
                        file_view(key_file),
                    )
                },
                Err(error) => startup_failure(file_view(sks_file), None, file_view(key_file))
                    == Some(error),
            },
    {
        let secret_key_store = match SecretKeyStore::open(sks_file) {
            Ok(store) => store,
            Err(CorruptSecretKeyStore) => {
                return Err(CspStartupError::CorruptSecretKeyStore);
            },
        };
        proof {
            secret_key_store.lemma_well_formed();
            assert(keys_by_id(Seq::empty()) =~= Map::<Seq<u8>, TaggedBytes>::empty());
        }
        let csp_vault = LocalCspVault::new_for_test(csprng, secret_key_store);
        Csp::csp_with_key_file(key_file, csp_vault)
    }

    /// A provider with a vault in its own process: the stores are those
    /// that the two files hold, the public keys are those that the key file
    /// holds, and the random number generator is the given one. A file that
    /// is not there stands for an empty store, or for no public keys. A
    /// file that holds anything but what it should, or an entry that does
    /// not decode, is refused; so is the want of a generator, where the
    /// files are in order.
    pub fn new_with_generator(
        csprng: Option<ChaCha20Rng>,
        sks_file: Option<&[u8]>,
        canister_sks_file: Option<&[u8]>,
        key_file: Option<&[u8]>,
    ) -> (made: Result<Csp<LocalCspVault>, CspStartupError>)
        ensures
            match made {
                Ok(csp) => {
                    &&& startup_failure_with(
                        csprng.is_some(),
                        file_view(sks_file),
                        file_view(canister_sks_file),
                        file_view(key_file),
                    ).is_none()
                    &&& csp.well_formed()
                    &&& csp.vault().in_process()
                    &&& Some(csp.vault().node_keys()) == keys_in_file(file_view(sks_file))
                    &&& Some(csp.vault().canister_key_map()) == keys_in_file(
                        file_view(canister_sks_file),
                    )
                    &&& Some(csp.public_keys().file_view()) == key_file_contents(
                        file_view(key_file),
                    )
                },
                Err(error) => startup_failure_with(
                    csprng.is_some(),
                    file_view(sks_file),
                    file_view(canister_sks_file),
                    file_view(key_file),
                ) == Some(error),
            },
    {
        let secret_key_store = match SecretKeyStore::open(sks_file) {
            Ok(store) => store,
            Err(CorruptSecretKeyStore) => {
                return Err(CspStartupError::CorruptSecretKeyStore);
            },
        };
        let canister_key_store = match SecretKeyStore::open(canister_sks_file) {
            Ok(store) => store,
            Err(CorruptSecretKeyStore) => {
                return Err(CspStartupError::CorruptCanisterSecretKeyStore);
            },
        };
        let public_key_data = match PublicKeyData::from_key_file(key_file) {
            Ok(data) => data,
            Err(error) => {
                return Err(error);
            },
        };
        let csprng = match csprng {
            Some(csprng) => csprng,
            None => {
                return Err(CspStartupError::NoEntropy);
            },
        };
        proof {
            secret_key_store.lemma_well_formed();
            canister_key_store.lemma_well_formed();
            assert(keys_by_id(Seq::empty()) =~= Map::<Seq<u8>, TaggedBytes>::empty());
        }
        Ok(
            Csp {
                csp_vault: LocalCspVault::new_with_generator(
                    csprng,
                    secret_key_store,
                    canister_key_store,
                ),
                public_key_data,
            },
        )
    }

    /// A provider for production with a vault in its own process: as
    /// `new_with_generator` makes it, with a random number generator that
    /// the operating system seeds. Whether the system gives a seed is the
    /// system's to say; where the files are in order, nothing else stands
    /// in the way.
    pub fn new_with_in_replica_vault(
        sks_file: Option<&[u8]>,
        canister_sks_file: Option<&[u8]>,
        key_file: Option<&[u8]>,
    ) -> (made: Result<Csp<LocalCspVault>, CspStartupError>)
        ensures
            match made {
                Ok(csp) => {
                    &&& startup_failure(
                        file_view(sks_file),
                        file_view(canister_sks_file),
                        file_view(key_file),
                    ).is_none()
                    &&& csp.well_formed()
                    &&& csp.vault().in_process()
                    &&& Some(csp.vault().node_keys()) == keys_in_file(file_view(sks_file))
                    &&& Some(csp.vault().canister_key_map()) == keys_in_file(
                        file_view(canister_sks_file),
                    )
                    &&& Some(csp.public_keys().file_view()) == key_file_contents(
                        file_view(key_file),
                    )
                },
                Err(error) => startup_failure_with(
                    error != CspStartupError::NoEntropy,
                    file_view(sks_file),
                    file_view(canister_sks_file),
                    file_view(key_file),
                ) == Some(error),
            },
    {
        Csp::new_with_generator(
            csprng::from_os_entropy(),
            sks_file,
            canister_sks_file,
            key_file,
        )
    }
}

impl<V: CspVault> CspSigner for Csp<V> {
    open spec fn signing_keys(&self) -> KeyMap {
        self.vault().node_keys()
    }

    open spec fn in_order(&self) -> bool {
        self.well_formed()
    }

    open spec fn reaches_vault(&self) -> bool {
        self.vault().in_process()
    }

    /// Hands the call to the vault: multi-signature signing for
    /// MultiBls12_381, single-key signing for every other algorithm.
    fn sign(&self, algorithm_id: AlgorithmId, message: &[u8], key_id: KeyId) -> (signed: Result<
        CspSignature,
        CryptoError,
    >) {
        match algorithm_id {
            AlgorithmId::MultiBls12_381 => match self.csp_vault.multi_sign(
                algorithm_id,
                message,
                key_id,
            ) {
                Ok(signature) => Ok(signature),
                Err(error) => Err(CryptoError::from_multi_signature_error(error)),
            },
            _ => match self.csp_vault.sign(algorithm_id, message, key_id) {
                Ok(signature) => Ok(signature),
                Err(error) => Err(CryptoError::from_basic_signature_error(error)),
            },
        }
    }

    fn verify(
        &self,
        signature: &CspSignature,
        message: &[u8],
        algorithm_id: AlgorithmId,
        signer: CspPublicKey,
    ) -> (verified: Result<(), CryptoError>) {
        verify_signature(signature, message, algorithm_id, &signer)
    }

    fn verify_pop(&self, pop: &CspPop, algorithm_id: AlgorithmId, public_key: CspPublicKey) -> (verified:
        Result<(), CryptoError>) {
        verify_proof_of_possession(pop, algorithm_id, &public_key)
    }
}

impl<V: CspVault> CspTlsHandshakeSigner for Csp<V> {
    fn tls_sign(&self, message: &[u8], key_id: &KeyId) -> (signed: Result<
        CspSignature,
        CryptoError,
    >) {
        match self.csp_vault.tls_sign(message, key_id) {
            Ok(signature) => Ok(signature),
            Err(error) => Err(CryptoError::from_basic_signature_error(error)),
        }
    }
}

impl<V: CspVault> CspSecretKeyStoreChecker for Csp<V> {
    fn sks_contains(&self, key_id: &KeyId) -> (held: Result<bool, CryptoError>) {
        match self.csp_vault.sks_contains(key_id) {
            Ok(held) => Ok(held),
            Err(error) => Err(CryptoError::from_contains_error(error)),
        }
    }
}

impl<V: CspVault> CspKeyGenerator for Csp<V> {
    fn gen_key_pair(&mut self, algorithm_id: AlgorithmId) -> (generated: Result<
        CspPublicKey,
        CryptoError,
    >)
        ensures
            final(self).public_keys() == old(self).public_keys(),
    {
        let outcome = self.csp_vault.gen_key_pair(algorithm_id);
        let ghost seen = result_view(outcome);
        assert(crate::vault::api::is_transient_keygen_error(seen) || basic_keygen_outcome(
            old(self).signing_keys(),
            algorithm_id,
            seen,
            self.signing_keys(),
        ));
        match outcome {
            Ok(public_key) => {
                assert(result_view::<CspPublicKey, CryptoError>(Ok(public_key))
                    == provider_keygen_result(seen));
                Ok(public_key)
            },
            Err(error) => {
                let converted = CryptoError::from_basic_keygen_error(error);
                assert(result_view::<CspPublicKey, CryptoError>(Err(converted))
                    == provider_keygen_result(seen));
                Err(converted)
            },
        }
    }

    fn gen_key_pair_with_pop(&mut self, algorithm_id: AlgorithmId) -> (generated: Result<
        (CspPublicKey, CspPop),
        CryptoError,
    >)
        ensures
            final(self).public_keys() == old(self).public_keys(),
    {
        let outcome = self.csp_vault.gen_key_pair_with_pop(algorithm_id);
        let ghost seen = key_with_pop_view(outcome);
        assert(crate::vault::api::is_transient_keygen_error(seen) || multi_keygen_outcome(
            old(self).signing_keys(),
            algorithm_id,
            seen,
            self.signing_keys(),
        ));
        match outcome {
            Ok(pair) => {
                assert(key_with_pop_view::<CryptoError>(Ok(pair)) == provider_keygen_result(seen));
                Ok(pair)
            },
            Err(error) => {
                let converted = CryptoError::from_multi_keygen_error(error);
                assert(key_with_pop_view::<CryptoError>(Err(converted)) == provider_keygen_result(
                    seen,
                ));
                Err(converted)
            },
        }
    }
}

impl<V: CspVault> NodePublicKeyData for Csp<V> {
    open spec fn node_public_keys(&self) -> NodePublicKeys {
        self.public_keys()
    }

    fn current_node_public_keys(&self) -> (current: CurrentNodePublicKeys) {
        self.public_key_data.node_public_keys.current()
    }

    fn dkg_dealing_encryption_key_id(&self) -> (id: KeyId) {
        match &self.public_key_data.node_public_keys.dkg_dealing_encryption_pk {
            Some(entry) => match CspFsEncryptionPublicKey::try_from(entry) {
                Ok(key) => key.key_id(),
                Err(_) => unreached(),
            },
            None => unreached(),
        }
    }
}

/// Everything the crypto service provider offers: signing and verifying,
/// generating keys, signing for TLS handshakes, asking for keys, and the
/// node's own public keys.
pub trait CryptoServiceProvider:
    CspSigner
    + CspKeyGenerator
    + CspSecretKeyStoreChecker
    + CspTlsHandshakeSigner
    + NodePublicKeyData
{

}

impl<T> CryptoServiceProvider for T where
    T: CspSigner
        + CspKeyGenerator
        + CspSecretKeyStoreChecker
        + CspTlsHandshakeSigner
        + NodePublicKeyData,
{

}

} // verus!
