//! The key manager: the operations of the wallet on phrases and paths given as
//! text.

use crate::error::KeyError;
use crate::extended_key::{
    derive_spec, master_key_spec, serialized, ExtendedKey, ExtendedKeyView,
};
use crate::hex::hex_text;
use crate::mnemonic::{accepted_phrase, is_canonical, RecoveryPhrase, ENTROPY_LEN};
use crate::path::{
    lemma_bad_component_refused, lemma_root_path, parsed_component, parsed_path, split_parts,
    DerivationPath,
};
use crate::primitives::{base58check, entropy_phrase, mnemonic_seed, secp_public_key};
use crate::signing::{sign, signature_spec, verifies};
use crate::vault::{
    nonce_of, plaintext_ok, salt_of, seal, sealed_spec, unseal, unsealed_text, HEADER_LEN,
    TAG_LEN,
};
use vstd::prelude::*;
use vstd::utf8::encode_utf8;

verus! {

/// The key that `path` leads to from the master key of `phrase`, taken with an
/// empty passphrase, or the reason why there is none. The phrase is looked at
/// first, then the master key, then the path, then the children.
pub open spec fn derived_key(phrase: Seq<char>, path: Seq<char>) -> Result<
    ExtendedKeyView,
    KeyError,
> {
    match accepted_phrase(phrase) {
        None => Err(KeyError::InvalidPhrase),
        Some(words) => match master_key_spec(mnemonic_seed(words, Seq::<char>::empty())) {
            None => Err(KeyError::KeyDerivationError),
            Some(master) => match parsed_path(path) {
                None => Err(KeyError::InvalidPath),
                Some(numbers) => match derive_spec(master, numbers) {
                    None => Err(KeyError::KeyDerivationError),
                    Some(key) => Ok(key),
                },
            },
        },
    }
}

/// The path `m` leads to the master key itself, unchanged: depth 0, no parent,
/// child number 0.
pub proof fn lemma_root_path_gives_master(phrase: Seq<char>)
    ensures
        derived_key(phrase, seq!['m']) == match accepted_phrase(phrase) {
            None => Err::<ExtendedKeyView, KeyError>(KeyError::InvalidPhrase),
            Some(words) => match master_key_spec(mnemonic_seed(words, Seq::<char>::empty())) {
                None => Err(KeyError::KeyDerivationError),
                Some(master) => Ok(master),
            },
        },
        derived_key(phrase, seq!['m']) matches Ok(key) ==> key.depth == 0 && key.child_number == 0
            && key.parent_fingerprint == seq![0u8, 0u8, 0u8, 0u8],
{
    lemma_root_path();
}

/// A path with a component that is no number gives
/// [`KeyError::InvalidPath`], wherever phrase and master key are in order.
pub proof fn lemma_non_numeric_path_refused(phrase: Seq<char>, path: Seq<char>, i: int)
    requires
        1 <= i < split_parts(path).len(),
        parsed_component(split_parts(path)[i]) is None,
        accepted_phrase(phrase) matches Some(words) && master_key_spec(
            mnemonic_seed(words, Seq::<char>::empty()),
        ) is Some,
    ensures
        derived_key(phrase, path) == Err::<ExtendedKeyView, KeyError>(KeyError::InvalidPath),
{
    lemma_bad_component_refused(path, i);
}

/// The text of the key that `path` leads to from `phrase`, or the reason why
/// there is none.
pub open spec fn derived_key_text(phrase: Seq<char>, path: Seq<char>) -> Result<
    Seq<char>,
    KeyError,
> {
    match derived_key(phrase, path) {
        Ok(key) => Ok(base58check(serialized(key))),
        Err(e) => Err(e),
    }
}

/// The hexadecimal text of the signature over `message` by the key that `path`
/// leads to from `phrase`, or the reason why there is none.
pub open spec fn signed_text(phrase: Seq<char>, path: Seq<char>, message: Seq<char>) -> Result<
    Seq<char>,
    KeyError,
> {
    match derived_key(phrase, path) {
        Err(e) => Err(e),
        Ok(key) => match signature_spec(key.private_key, encode_utf8(message)) {
            Some(signature) => Ok(hex_text(signature)),
            None => Err(KeyError::SigningError),
        },
    }
}

/// The operations of the wallet. A key manager holds no phrase, no key and no
/// password: each call gets what it works on and keeps nothing.
pub struct KeyManager {}

impl KeyManager {
    /// A key manager.
    pub fn new() -> (manager: KeyManager) {
        KeyManager {  }
    }

    /// Makes a new recovery phrase of twelve words.
    ///
    /// Every phrase that comes back is the phrase of some 16 bytes of entropy,
    /// and is one that [`KeyManager::import_from_seed`] accepts. The only
    /// failure is [`KeyError::EntropyError`].
    pub fn generate_new_seed(&self) -> (r: Result<String, KeyError>)
        ensures
            match r {
                Ok(phrase) => is_canonical(phrase@) && accepted_phrase(phrase@) == Some(phrase@)
                    && exists|entropy: Seq<u8>|
                    entropy.len() == ENTROPY_LEN && #[trigger] entropy_phrase(entropy) == Some(
                        phrase@,
                    ),
                Err(e) => e == KeyError::EntropyError,
            },
    {
        match RecoveryPhrase::generate() {
            Ok(phrase) => Ok(phrase.into_string()),
            Err(e) => Err(e),
        }
    }

    /// Says whether a text is a valid recovery phrase.
    ///
    /// The case of the text is folded and its white space normalized before
    /// words and checksum are tested. Succeeds exactly where
    /// [`accepted_phrase`] has a value; any other text gives
    /// [`KeyError::InvalidPhrase`].
    pub fn import_from_seed(&self, seed_phrase: &str) -> (r: Result<(), KeyError>)
        ensures
            match r {
                Ok(_) => accepted_phrase(seed_phrase@) is Some,
                Err(e) => e == KeyError::InvalidPhrase && accepted_phrase(seed_phrase@) is None,
            },
    {
        match RecoveryPhrase::validate(seed_phrase) {
            Ok(_) => Ok(()),
            Err(e) => Err(e),
        }
    }

    /// Derives the key that `path` leads to from the master key of
    /// `seed_phrase`, and writes it as text.
    ///
    /// The result is [`derived_key_text`] of the two texts: it depends on
    /// nothing else.
    pub fn derive_private_key_for_path(&self, seed_phrase: &str, path: &str) -> (r: Result<
        String,
        KeyError,
    >)
        ensures
            r is Ok <==> derived_key(seed_phrase@, path@) is Ok,
            r is Ok ==> derived_key(seed_phrase@, path@)->Ok_0.wf() && serialized(
                derived_key(seed_phrase@, path@)->Ok_0,
            ).len() == 78,
            match r {
                Ok(text) => derived_key_text(seed_phrase@, path@) == Ok::<Seq<char>, KeyError>(
                    text@,
                ),
                Err(e) => derived_key_text(seed_phrase@, path@) == Err::<Seq<char>, KeyError>(e),
            },
    {
        match derive_key(seed_phrase, path) {
            Ok(key) => Ok(key.to_base58()),
            Err(e) => Err(e),
        }
    }

    /// Seals a recovery phrase under a password.
    ///
    /// Every blob that comes back is one that [`KeyManager::decrypt_seed`]
    /// opens, under the same password, to the same phrase, and is 45 bytes
    /// longer than the phrase. The one failure is [`KeyError::EntropyError`]:
    /// it comes where the random source fails, and for a phrase longer than
    /// the cipher takes under one nonce.
    pub fn encrypt_seed(&self, seed_phrase: &str, password: &str) -> (r: Result<Vec<u8>, KeyError>)
        ensures
            match r {
                Ok(blob) => unsealed_text(blob@, password@) == Some(seed_phrase@) && blob@.len()
                    == HEADER_LEN + encode_utf8(seed_phrase@).len() + TAG_LEN && sealed_spec(
                    encode_utf8(seed_phrase@),
                    encode_utf8(password@),
                    salt_of(blob@),
                    nonce_of(blob@),
                ) == Some(blob@),
                Err(e) => e == KeyError::EntropyError,
            },
            !plaintext_ok(encode_utf8(seed_phrase@)) ==> r is Err,
    {
        seal(seed_phrase, password)
    }

    /// Opens a sealed recovery phrase.
    ///
    /// Fails with [`KeyError::AuthenticationFailed`], and with nothing else,
    /// exactly where [`unsealed_text`] has no phrase. A phrase comes back only
    /// for a blob that sealing makes of this phrase under this password.
    pub fn decrypt_seed(&self, encrypted_seed: &[u8], password: &str) -> (r: Result<
        String,
        KeyError,
    >)
        ensures
            match r {
                Ok(phrase) => unsealed_text(encrypted_seed@, password@) == Some(phrase@)
                    && sealed_spec(
                    encode_utf8(phrase@),
                    encode_utf8(password@),
                    salt_of(encrypted_seed@),
                    nonce_of(encrypted_seed@),
                ) == Some(encrypted_seed@),
                Err(e) => e == KeyError::AuthenticationFailed && unsealed_text(
                    encrypted_seed@,
                    password@,
                ) is None,
            },
    {
        unseal(encrypted_seed, password)
    }

    /// Signs `message` with the key that `path` leads to from the master key of
    /// `seed_phrase`, and writes the signature as hexadecimal text.
    ///
    /// The result is [`signed_text`] of the three texts: it depends on nothing
    /// else. Signing succeeds exactly where the key can be derived, whatever
    /// the message: a derived key is a valid private key. The signature
    /// verifies for the public key of the derived key.
    pub fn sign_transaction(&self, seed_phrase: &str, path: &str, message: &str) -> (r: Result<
        String,
        KeyError,
    >)
        ensures
            r is Ok <==> derived_key(seed_phrase@, path@) is Ok,
            r is Err ==> r == Err::<String, KeyError>(derived_key(seed_phrase@, path@)->Err_0),
            r matches Ok(text) ==> 0 < text@.len() <= 144 && text@.len() % 2 == 0,
            r is Ok ==> exists|signature: Seq<u8>|
                signature_spec(
                    derived_key(seed_phrase@, path@)->Ok_0.private_key,
                    encode_utf8(message@),
                ) == Some(signature) && verifies(
                    secp_public_key(derived_key(seed_phrase@, path@)->Ok_0.private_key).unwrap(),
                    encode_utf8(message@),
                    signature,
                ),
            match r {
                Ok(text) => signed_text(seed_phrase@, path@, message@) == Ok::<Seq<char>, KeyError>(
                    text@,
                ),
                Err(e) => signed_text(seed_phrase@, path@, message@) == Err::<Seq<char>, KeyError>(
                    e,
                ),
            },
    {
        let key = match derive_key(seed_phrase, path) {
            Ok(key) => key,
            Err(e) => {
                return Err(e);
            },
        };
        match sign(key.private_key(), message.as_bytes()) {
            Ok(signature) => Ok(signature.to_hex()),
            Err(e) => Err(e),
        }
    }
}

/// Derives the key that `path` leads to from the master key of `seed_phrase`.
/// A key that comes back holds a valid private key.
pub fn derive_key(seed_phrase: &str, path: &str) -> (r: Result<ExtendedKey, KeyError>)
    ensures
        match r {
            Ok(key) => derived_key(seed_phrase@, path@) == Ok::<ExtendedKeyView, KeyError>(key@)
                && key@.wf(),
            Err(e) => derived_key(seed_phrase@, path@) == Err::<ExtendedKeyView, KeyError>(e),
        },
{
    let phrase = match RecoveryPhrase::validate(seed_phrase) {
        Ok(phrase) => phrase,
        Err(e) => {
            return Err(e);
        },
    };
    proof {
        reveal_strlit("");
        assert(""@ =~= Seq::<char>::empty());
    }
    let seed = phrase.to_seed("");
    let master = match ExtendedKey::master(seed.as_slice()) {
        Ok(master) => master,
        Err(e) => {
            return Err(e);
        },
    };
    let path = match DerivationPath::parse(path) {
        Ok(path) => path,
        Err(e) => {
            return Err(e);
        },
    };
    master.derive(&path)
}

} // verus!
