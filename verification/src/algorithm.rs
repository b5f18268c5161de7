//! Identifiers of the cryptographic algorithms a node knows.

use vstd::prelude::*;

verus! {

/// The algorithms that keys and signatures are tagged with.
///
/// The position of a variant in this list is its number: it is what
/// [`AlgorithmId::as_u8`] returns and what a stored key is tagged with.
#[allow(non_camel_case_types)]
#[derive(Clone, Copy, Debug, PartialEq, Eq, Hash, Structural)]
pub enum AlgorithmId {
    Placeholder,
    MultiBls12_381,
    ThresBls12_381,
    SchnorrSecp256k1,
    StaticDhSecp256k1,
    HashSha256,
    Tls,
    Ed25519,
    Secp256k1,
    Groth20_Bls12_381,
    NiDkg_Groth20_Bls12_381,
    EcdsaP256,
    EcdsaSecp256k1,
    IcCanisterSignature,
    RsaSha256,
    ThresholdEcdsaSecp256k1,
    MegaSecp256k1,
}

/// How many algorithms there are.
pub const ALGORITHM_COUNT: usize = 17;

/// The number of an algorithm.
pub open spec fn algorithm_number(algorithm: AlgorithmId) -> int {
    match algorithm {
        AlgorithmId::Placeholder => 0,
        AlgorithmId::MultiBls12_381 => 1,
        AlgorithmId::ThresBls12_381 => 2,
        AlgorithmId::SchnorrSecp256k1 => 3,
        AlgorithmId::StaticDhSecp256k1 => 4,
        AlgorithmId::HashSha256 => 5,
        AlgorithmId::Tls => 6,
        AlgorithmId::Ed25519 => 7,
        AlgorithmId::Secp256k1 => 8,
        AlgorithmId::Groth20_Bls12_381 => 9,
        AlgorithmId::NiDkg_Groth20_Bls12_381 => 10,
        AlgorithmId::EcdsaP256 => 11,
        AlgorithmId::EcdsaSecp256k1 => 12,
        AlgorithmId::IcCanisterSignature => 13,
        AlgorithmId::RsaSha256 => 14,
        AlgorithmId::ThresholdEcdsaSecp256k1 => 15,
        AlgorithmId::MegaSecp256k1 => 16,
    }
}

/// The algorithm that a number stands for; a number that stands for none
/// gives `Placeholder`.
pub open spec fn algorithm_of_number(number: int) -> AlgorithmId {
    if number == 1 {
        AlgorithmId::MultiBls12_381
    } else if number == 2 {
        AlgorithmId::ThresBls12_381
    } else if number == 3 {
        AlgorithmId::SchnorrSecp256k1
    } else if number == 4 {
        AlgorithmId::StaticDhSecp256k1
    } else if number == 5 {
        AlgorithmId::HashSha256
    } else if number == 6 {
        AlgorithmId::Tls
    } else if number == 7 {
        AlgorithmId::Ed25519
    } else if number == 8 {
        AlgorithmId::Secp256k1
    } else if number == 9 {
        AlgorithmId::Groth20_Bls12_381
    } else if number == 10 {
        AlgorithmId::NiDkg_Groth20_Bls12_381
    } else if number == 11 {
        AlgorithmId::EcdsaP256
    } else if number == 12 {
        AlgorithmId::EcdsaSecp256k1
    } else if number == 13 {
        AlgorithmId::IcCanisterSignature
    } else if number == 14 {
        AlgorithmId::RsaSha256
    } else if number == 15 {
        AlgorithmId::ThresholdEcdsaSecp256k1
    } else if number == 16 {
        AlgorithmId::MegaSecp256k1
    } else {
        AlgorithmId::Placeholder
    }
}

/// The name of an algorithm, as it is written in error values.
pub open spec fn algorithm_name(algorithm: AlgorithmId) -> Seq<char> {
    match algorithm {
        AlgorithmId::Placeholder => "Placeholder"@,
        AlgorithmId::MultiBls12_381 => "MultiBls12_381"@,
        AlgorithmId::ThresBls12_381 => "ThresBls12_381"@,
        AlgorithmId::SchnorrSecp256k1 => "SchnorrSecp256k1"@,
        AlgorithmId::StaticDhSecp256k1 => "StaticDhSecp256k1"@,
        AlgorithmId::HashSha256 => "HashSha256"@,
        AlgorithmId::Tls => "Tls"@,
        AlgorithmId::Ed25519 => "Ed25519"@,
        AlgorithmId::Secp256k1 => "Secp256k1"@,
        AlgorithmId::Groth20_Bls12_381 => "Groth20_Bls12_381"@,
        AlgorithmId::NiDkg_Groth20_Bls12_381 => "NiDkg_Groth20_Bls12_381"@,
        AlgorithmId::EcdsaP256 => "EcdsaP256"@,
        AlgorithmId::EcdsaSecp256k1 => "EcdsaSecp256k1"@,
        AlgorithmId::IcCanisterSignature => "IcCanisterSignature"@,
        AlgorithmId::RsaSha256 => "RsaSha256"@,
        AlgorithmId::ThresholdEcdsaSecp256k1 => "ThresholdEcdsaSecp256k1"@,
        AlgorithmId::MegaSecp256k1 => "MegaSecp256k1"@,
    }
}

impl AlgorithmId {
    /// The number of this algorithm, as one byte.
    pub fn as_u8(&self) -> (number: u8)
        ensures
            number == algorithm_number(*self),
            number < ALGORITHM_COUNT,
    {
        match self {
            AlgorithmId::Placeholder => 0,
            AlgorithmId::MultiBls12_381 => 1,
            AlgorithmId::ThresBls12_381 => 2,
            AlgorithmId::SchnorrSecp256k1 => 3,
            AlgorithmId::StaticDhSecp256k1 => 4,
            AlgorithmId::HashSha256 => 5,
            AlgorithmId::Tls => 6,
            AlgorithmId::Ed25519 => 7,
            AlgorithmId::Secp256k1 => 8,
            AlgorithmId::Groth20_Bls12_381 => 9,
            AlgorithmId::NiDkg_Groth20_Bls12_381 => 10,
            AlgorithmId::EcdsaP256 => 11,
            AlgorithmId::EcdsaSecp256k1 => 12,
            AlgorithmId::IcCanisterSignature => 13,
            AlgorithmId::RsaSha256 => 14,
            AlgorithmId::ThresholdEcdsaSecp256k1 => 15,
            AlgorithmId::MegaSecp256k1 => 16,
        }
    }

    /// The algorithm with the given number, if there is one.
    pub fn from_u8(number: u8) -> (found: Option<AlgorithmId>)
        ensures
            number < ALGORITHM_COUNT ==> found == Some(algorithm_of_number(number as int)),
            number >= ALGORITHM_COUNT ==> found.is_none(),
            found matches Some(algorithm) ==> algorithm_number(algorithm) == number,
    {
        match number {
            0 => Some(AlgorithmId::Placeholder),
            1 => Some(AlgorithmId::MultiBls12_381),
            2 => Some(AlgorithmId::ThresBls12_381),
            3 => Some(AlgorithmId::SchnorrSecp256k1),
            4 => Some(AlgorithmId::StaticDhSecp256k1),
            5 => Some(AlgorithmId::HashSha256),
            6 => Some(AlgorithmId::Tls),
            7 => Some(AlgorithmId::Ed25519),
            8 => Some(AlgorithmId::Secp256k1),
            9 => Some(AlgorithmId::Groth20_Bls12_381),
            10 => Some(AlgorithmId::NiDkg_Groth20_Bls12_381),
            11 => Some(AlgorithmId::EcdsaP256),
            12 => Some(AlgorithmId::EcdsaSecp256k1),
            13 => Some(AlgorithmId::IcCanisterSignature),
            14 => Some(AlgorithmId::RsaSha256),
            15 => Some(AlgorithmId::ThresholdEcdsaSecp256k1),
            16 => Some(AlgorithmId::MegaSecp256k1),
            _ => None,
        }
    }

    /// The name of this algorithm.
    pub fn name(&self) -> (name: &'static str)
        ensures
            name@ == algorithm_name(*self),
    {
        match self {
            AlgorithmId::Placeholder => "Placeholder",
            AlgorithmId::MultiBls12_381 => "MultiBls12_381",
            AlgorithmId::ThresBls12_381 => "ThresBls12_381",
            AlgorithmId::SchnorrSecp256k1 => "SchnorrSecp256k1",
            AlgorithmId::StaticDhSecp256k1 => "StaticDhSecp256k1",
            AlgorithmId::HashSha256 => "HashSha256",
            AlgorithmId::Tls => "Tls",
            AlgorithmId::Ed25519 => "Ed25519",
            AlgorithmId::Secp256k1 => "Secp256k1",
            AlgorithmId::Groth20_Bls12_381 => "Groth20_Bls12_381",
            AlgorithmId::NiDkg_Groth20_Bls12_381 => "NiDkg_Groth20_Bls12_381",
            AlgorithmId::EcdsaP256 => "EcdsaP256",
            AlgorithmId::EcdsaSecp256k1 => "EcdsaSecp256k1",
            AlgorithmId::IcCanisterSignature => "IcCanisterSignature",
            AlgorithmId::RsaSha256 => "RsaSha256",
            AlgorithmId::ThresholdEcdsaSecp256k1 => "ThresholdEcdsaSecp256k1",
            AlgorithmId::MegaSecp256k1 => "MegaSecp256k1",
        }
    }

    /// Every algorithm, in the order of their numbers.
    pub fn iter() -> (all: Vec<AlgorithmId>)
        ensures
            all@.len() == ALGORITHM_COUNT,
            forall|i: int| 0 <= i < all@.len() ==> all@[i] == algorithm_of_number(i),
    {
        let mut all: Vec<AlgorithmId> = Vec::new();
        let mut number: u8 = 0;
        while number < 17
            invariant
                number <= 17,
                all@.len() == number,
                forall|i: int| 0 <= i < all@.len() ==> all@[i] == algorithm_of_number(i),
            decreases 17 - number,
        {
            match AlgorithmId::from_u8(number) {
                Some(algorithm) => all.push(algorithm),
                None => {},
            }
            number = number + 1;
        }
        all
    }
}

impl From<i32> for AlgorithmId {
    /// The algorithm with the given number; `Placeholder` where the number
    /// stands for none.
    fn from(number: i32) -> (algorithm: AlgorithmId) {
        if 0 <= number && number < 17 {
            match AlgorithmId::from_u8(number as u8) {
                Some(algorithm) => algorithm,
                None => AlgorithmId::Placeholder,
            }
        } else {
            AlgorithmId::Placeholder
        }
    }
}

impl vstd::std_specs::convert::FromSpecImpl<i32> for AlgorithmId {
    open spec fn obeys_from_spec() -> bool {
        true
    }

    open spec fn from_spec(number: i32) -> AlgorithmId {
        algorithm_of_number(number as int)
    }
}

/// Whether the given numbers are those of all the algorithms, each once and
/// in order: 0, 1, and so on up to 16.
pub fn ensure_all_algorithm_ids_are_compared(tested_algorithm_ids: &[isize]) -> (all: bool)
    ensures
        all == (tested_algorithm_ids@.len() == ALGORITHM_COUNT && forall|i: int|
            0 <= i < ALGORITHM_COUNT ==> tested_algorithm_ids@[i] == i),
{
    if tested_algorithm_ids.len() != ALGORITHM_COUNT {
        return false;
    }
    let mut expected: isize = 0;
    let mut i: usize = 0;
    while i < ALGORITHM_COUNT
        invariant
            i <= ALGORITHM_COUNT,
            expected == i,
            tested_algorithm_ids@.len() == ALGORITHM_COUNT,
            forall|j: int| 0 <= j < i ==> tested_algorithm_ids@[j] == j,
        decreases ALGORITHM_COUNT - i,
    {
        if tested_algorithm_ids[i] != expected {
            return false;
        }
        expected = expected + 1;
        i = i + 1;
    }
    true
}

/// A number and the algorithm it stands for determine each other.
pub proof fn lemma_algorithm_number_round_trip(algorithm: AlgorithmId)
    ensures
        0 <= algorithm_number(algorithm) < ALGORITHM_COUNT,
        algorithm_of_number(algorithm_number(algorithm)) == algorithm,
{
}

/// Two algorithms with one number are one algorithm.
pub proof fn lemma_algorithm_number_injective(a: AlgorithmId, b: AlgorithmId)
    requires
        algorithm_number(a) == algorithm_number(b),
    ensures
        a == b,
{
}

} // verus!
