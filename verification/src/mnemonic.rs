//! Recovery phrases: the words that stand for the entropy of a wallet.

use crate::error::KeyError;
use crate::primitives::{
    entropy_phrase, lowercase, lowercased, mnemonic_from_entropy, mnemonic_phrase,
    mnemonic_seed, mnemonic_to_seed, parse_mnemonic, random_bytes,
};
use vstd::prelude::*;

verus! {

/// The number of bytes of entropy that a freshly generated phrase stands for:
/// with four bits of checksum they make twelve words of eleven bits.
pub const ENTROPY_LEN: usize = 16;

/// The number of bytes of a seed.
pub const SEED_LEN: usize = 64;

/// The phrase that a text entered by a user stands for: its case is folded,
/// then it is normalized, split at white space and tested word by word and
/// against its checksum. `None` where it fails one of the tests.
pub open spec fn accepted_phrase(text: Seq<char>) -> Option<Seq<char>> {
    mnemonic_phrase(lowercased(text))
}

/// Whether a number of bytes is one that a phrase can stand for: 16, 20, 24,
/// 28 or 32, which make 12, 15, 18, 21 or 24 words.
pub open spec fn entropy_len_ok(len: nat) -> bool {
    len % 4 == 0 && 16 <= len <= 32
}

/// Whether `phrase` is a valid phrase in the form in which this crate holds
/// one: its words with one space between them.
pub open spec fn is_canonical(phrase: Seq<char>) -> bool {
    mnemonic_phrase(phrase) == Some(phrase)
}

/// A recovery phrase whose word count, words and checksum have been found
/// valid. It is never changed once it exists.
pub struct RecoveryPhrase {
    text: String,
}

impl View for RecoveryPhrase {
    type V = Seq<char>;

    closed spec fn view(&self) -> Seq<char> {
        self.text@
    }
}

impl RecoveryPhrase {
    #[verifier::type_invariant]
    spec fn valid(&self) -> bool {
        is_canonical(self@)
    }

    /// Reads a phrase from a text that a user has entered.
    ///
    /// The case of the text is folded, then it is normalized and split at
    /// white space. It is accepted exactly where [`accepted_phrase`] has a
    /// value; any other text gives [`KeyError::InvalidPhrase`].
    pub fn validate(text: &str) -> (r: Result<RecoveryPhrase, KeyError>)
        ensures
            match r {
                Ok(phrase) => accepted_phrase(text@) == Some(phrase@) && is_canonical(phrase@),
                Err(e) => e == KeyError::InvalidPhrase && accepted_phrase(text@) is None,
            },
    {
        let folded = lowercase(text);
        match parse_mnemonic(folded.as_str()) {
            Some(text) => Ok(RecoveryPhrase { text }),
            None => Err(KeyError::InvalidPhrase),
        }
    }

    /// Makes the phrase that stands for `entropy`: twelve words for 16 bytes.
    ///
    /// Succeeds exactly where the entropy has 16, 20, 24, 28 or 32 bytes; any
    /// other length gives [`KeyError::EntropyError`]. The phrase is the one
    /// that [`entropy_phrase`] names, and it is one that
    /// [`RecoveryPhrase::validate`] accepts and gives back unchanged.
    pub fn from_entropy(entropy: &[u8]) -> (r: Result<RecoveryPhrase, KeyError>)
        ensures
            r is Ok <==> entropy_len_ok(entropy@.len()),
            match r {
                Ok(phrase) => entropy_phrase(entropy@) == Some(phrase@) && is_canonical(phrase@)
                    && accepted_phrase(phrase@) == Some(phrase@),
                Err(e) => e == KeyError::EntropyError && entropy_phrase(entropy@) is None,
            },
    {
        match mnemonic_from_entropy(entropy) {
            Some(text) => Ok(RecoveryPhrase { text }),
            None => Err(KeyError::EntropyError),
        }
    }

    /// Makes a new phrase of twelve words from [`ENTROPY_LEN`] bytes of fresh
    /// entropy.
    ///
    /// Every phrase that comes back is the phrase of some 16 bytes, and is one
    /// that [`RecoveryPhrase::validate`] accepts and gives back unchanged. The
    /// only failure is [`KeyError::EntropyError`], and it comes only where the
    /// random source fails: [`RecoveryPhrase::from_entropy`] makes a phrase of
    /// every 16 bytes.
    pub fn generate() -> (r: Result<RecoveryPhrase, KeyError>)
        ensures
            match r {
                Ok(phrase) => is_canonical(phrase@) && accepted_phrase(phrase@) == Some(phrase@)
                    && exists|entropy: Seq<u8>|
                    entropy.len() == ENTROPY_LEN && #[trigger] entropy_phrase(entropy) == Some(
                        phrase@,
                    ),
                Err(e) => e == KeyError::EntropyError,
            },
    {
        match random_bytes(ENTROPY_LEN) {
            None => Err(KeyError::EntropyError),
            Some(entropy) => RecoveryPhrase::from_entropy(entropy.as_slice()),
        }
    }

    /// Stretches the phrase and a passphrase, which may be empty, into the
    /// 64-byte seed. The seed depends on nothing but the two.
    pub fn to_seed(&self, passphrase: &str) -> (seed: Vec<u8>)
        ensures
            seed@ == mnemonic_seed(self@, passphrase@),
            seed@.len() == SEED_LEN,
    {
        proof {
            use_type_invariant(self);
        }
        match mnemonic_to_seed(self.text.as_str(), passphrase) {
            Some(seed) => seed,
            None => Vec::new(),
        }
    }

    /// The words of the phrase, with one space between them.
    pub fn as_str(&self) -> (text: &str)
        ensures
            text@ == self@,
            is_canonical(text@),
    {
        proof {
            use_type_invariant(self);
        }
        self.text.as_str()
    }

    /// Gives up the phrase for its text.
    pub fn into_string(self) -> (text: String)
        ensures
            text@ == self@,
            is_canonical(text@),
    {
        proof {
            use_type_invariant(&self);
        }
        self.text
    }
}

} // verus!
