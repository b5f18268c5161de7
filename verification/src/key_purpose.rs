//! What a key of the node is used for.

use crate::bytes::same_text;
use vstd::prelude::*;

verus! {

/// The purposes a node key can have.
#[derive(Clone, Copy, Debug, PartialEq, Eq, Hash, Structural)]
pub enum KeyPurpose {
    Placeholder,
    NodeSigning,
    QueryResponseSigning,
    DkgDealingEncryption,
    CommitteeSigning,
    IDkgMEGaEncryption,
}

/// How many purposes there are.
pub const KEY_PURPOSE_COUNT: usize = 6;

/// The purpose that a number stands for; a number that stands for none gives
/// `Placeholder`.
pub open spec fn key_purpose_of_number(number: int) -> KeyPurpose {
    if number == 1 {
        KeyPurpose::NodeSigning
    } else if number == 2 {
        KeyPurpose::QueryResponseSigning
    } else if number == 3 {
        KeyPurpose::DkgDealingEncryption
    } else if number == 4 {
        KeyPurpose::CommitteeSigning
    } else if number == 5 {
        KeyPurpose::IDkgMEGaEncryption
    } else {
        KeyPurpose::Placeholder
    }
}

/// The written form of a purpose. `Placeholder` is written as the empty
/// text, which is the written form of no purpose that can be read back.
pub open spec fn key_purpose_text(purpose: KeyPurpose) -> Seq<char> {
    match purpose {
        KeyPurpose::Placeholder => ""@,
        KeyPurpose::NodeSigning => "node_signing"@,
        KeyPurpose::QueryResponseSigning => "query_response_signing"@,
        KeyPurpose::DkgDealingEncryption => "dkg_dealing_encryption"@,
        KeyPurpose::CommitteeSigning => "committee_signing"@,
        KeyPurpose::IDkgMEGaEncryption => "idkg_mega_encryption"@,
    }
}

/// The purpose that a text names, if it names one.
pub open spec fn key_purpose_of_text(text: Seq<char>) -> Option<KeyPurpose> {
    if text == "node_signing"@ {
        Some(KeyPurpose::NodeSigning)
    } else if text == "query_response_signing"@ {
        Some(KeyPurpose::QueryResponseSigning)
    } else if text == "dkg_dealing_encryption"@ {
        Some(KeyPurpose::DkgDealingEncryption)
    } else if text == "committee_signing"@ {
        Some(KeyPurpose::CommitteeSigning)
    } else if text == "idkg_mega_encryption"@ {
        Some(KeyPurpose::IDkgMEGaEncryption)
    } else {
        None
    }
}

/// A text that names no key purpose.
#[derive(Clone, Debug, PartialEq, Eq)]
pub struct InvalidKeyPurpose {
    pub text: String,
}

impl KeyPurpose {
    /// The written form of this purpose.
    pub fn as_str(&self) -> (text: &'static str)
        ensures
            text@ == key_purpose_text(*self),
    {
        match self {
            KeyPurpose::Placeholder => "",
            KeyPurpose::NodeSigning => "node_signing",
            KeyPurpose::QueryResponseSigning => "query_response_signing",
            KeyPurpose::DkgDealingEncryption => "dkg_dealing_encryption",
            KeyPurpose::CommitteeSigning => "committee_signing",
            KeyPurpose::IDkgMEGaEncryption => "idkg_mega_encryption",
        }
    }

    /// Reads a purpose from its written form.
    pub fn from_str(text: &str) -> (parsed: Result<KeyPurpose, InvalidKeyPurpose>)
        ensures
            match parsed {
                Ok(purpose) => key_purpose_of_text(text@) == Some(purpose),
                Err(e) => key_purpose_of_text(text@).is_none() && e.text@ == text@,
            },
    {
        if same_text(text, "node_signing") {
            Ok(KeyPurpose::NodeSigning)
        } else if same_text(text, "query_response_signing") {
            Ok(KeyPurpose::QueryResponseSigning)
        } else if same_text(text, "dkg_dealing_encryption") {
            Ok(KeyPurpose::DkgDealingEncryption)
        } else if same_text(text, "committee_signing") {
            Ok(KeyPurpose::CommitteeSigning)
        } else if same_text(text, "idkg_mega_encryption") {
            Ok(KeyPurpose::IDkgMEGaEncryption)
        } else {
            Err(InvalidKeyPurpose { text: text.to_owned() })
        }
    }

    /// Every purpose, in the order of their numbers.
    pub fn iter() -> (all: Vec<KeyPurpose>)
        ensures
            all@.len() == KEY_PURPOSE_COUNT,
            forall|i: int| 0 <= i < all@.len() ==> all@[i] == key_purpose_of_number(i),
    {
        let mut all: Vec<KeyPurpose> = Vec::new();
        all.push(KeyPurpose::Placeholder);
        all.push(KeyPurpose::NodeSigning);
        all.push(KeyPurpose::QueryResponseSigning);
        all.push(KeyPurpose::DkgDealingEncryption);
        all.push(KeyPurpose::CommitteeSigning);
        all.push(KeyPurpose::IDkgMEGaEncryption);
        all
    }
}

impl From<usize> for KeyPurpose {
    /// The purpose with the given number; `Placeholder` where the number
    /// stands for none.
    fn from(number: usize) -> (purpose: KeyPurpose) {
        match number {
            1 => KeyPurpose::NodeSigning,
            2 => KeyPurpose::QueryResponseSigning,
            3 => KeyPurpose::DkgDealingEncryption,
            4 => KeyPurpose::CommitteeSigning,
            5 => KeyPurpose::IDkgMEGaEncryption,
            _ => KeyPurpose::Placeholder,
        }
    }
}

impl vstd::std_specs::convert::FromSpecImpl<usize> for KeyPurpose {
    open spec fn obeys_from_spec() -> bool {
        true
    }

    open spec fn from_spec(number: usize) -> KeyPurpose {
        key_purpose_of_number(number as int)
    }
}

/// Every purpose but `Placeholder` is read back from its written form.
pub proof fn lemma_key_purpose_text_round_trip(purpose: KeyPurpose)
    requires
        purpose != KeyPurpose::Placeholder,
    ensures
        key_purpose_of_text(key_purpose_text(purpose)) == Some(purpose),
{
    reveal_strlit("node_signing");
    reveal_strlit("query_response_signing");
    reveal_strlit("dkg_dealing_encryption");
    reveal_strlit("committee_signing");
    reveal_strlit("idkg_mega_encryption");
    assert("node_signing"@.len() == 12);
    assert("query_response_signing"@.len() == 22);
    assert("dkg_dealing_encryption"@.len() == 22);
    assert("committee_signing"@.len() == 17);
    assert("idkg_mega_encryption"@.len() == 20);
    assert("query_response_signing"@[0] == 'q');
    assert("dkg_dealing_encryption"@[0] == 'd');
}

} // verus!
