//! The cryptographic primitives, as this crate calls them.
//!
//! Nothing in this module is proved. Each function below makes one call into
//! `bip39`, `bitcoin`, `secp256k1`, `ring` or `std`, and its contract is taken on
//! trust from that crate's source and documentation. Where a result is a
//! function of the arguments alone, it is given a name (a spec function without
//! a body), so that the contracts of the other modules can say exactly which
//! result they hand on. Results that depend on chance have no name.

use bip39::Mnemonic;
use bitcoin::bip32::{ChildNumber, DerivationPath, ExtendedPrivKey};
use bitcoin::hashes::{hash160, sha256d, sha512, HashEngine, Hmac, HmacEngine};
use bitcoin::Network;
use ring::rand::SecureRandom;
use ring::{aead, pbkdf2};
use secp256k1::{ecdsa, Message, PublicKey, Scalar, SecretKey, SECP256K1};
use std::num::NonZeroU32;
use std::str::FromStr;
use crate::extended_key::master_code;
use crate::path::path_components;
use vstd::prelude::*;
use vstd::utf8::{encode_utf8, valid_utf8};

verus! {

/// The phrase that `bip39::Mnemonic::parse` reads from `text`, written as its
/// words with one space between them; `None` where the parse fails.
pub uninterp spec fn mnemonic_phrase(text: Seq<char>) -> Option<Seq<char>>;

/// The phrase that `bip39::Mnemonic::from_entropy` makes of `entropy`, written
/// as its words with one space between them; `None` where it refuses the
/// entropy.
pub uninterp spec fn entropy_phrase(entropy: Seq<u8>) -> Option<Seq<char>>;

/// The lower-case form of `text`, as `str::to_lowercase` gives it.
pub uninterp spec fn lowercased(text: Seq<char>) -> Seq<char>;

/// The 64 bytes that `bip39::Mnemonic::to_seed` stretches from a phrase, given
/// in the form of [`mnemonic_phrase`], and a passphrase.
pub uninterp spec fn mnemonic_seed(phrase: Seq<char>, passphrase: Seq<char>) -> Seq<u8>;

/// HMAC-SHA512 of `data` under `key`, as `bitcoin::hashes::Hmac<sha512::Hash>`
/// computes it.
pub uninterp spec fn hmac_sha512(key: Seq<u8>, data: Seq<u8>) -> Seq<u8>;

/// RIPEMD-160 of SHA-256 of `data`, as `bitcoin::hashes::hash160` computes it.
pub uninterp spec fn hash160(data: Seq<u8>) -> Seq<u8>;

/// SHA-256 of SHA-256 of `data`, as `bitcoin::hashes::sha256d` computes it.
pub uninterp spec fn sha256d(data: Seq<u8>) -> Seq<u8>;

/// The compressed public key of the secret key `secret`, as
/// `secp256k1::PublicKey::from_secret_key` and `serialize` give it; `None`
/// where `secp256k1::SecretKey::from_slice` refuses `secret`.
pub uninterp spec fn secp_public_key(secret: Seq<u8>) -> Option<Seq<u8>>;

/// The secret key `key` with `tweak` added modulo the order of the curve, as
/// `secp256k1::SecretKey::add_tweak` gives it; `None` where either is refused
/// as a secret key or the sum is no valid key.
pub uninterp spec fn secret_key_sum(key: Seq<u8>, tweak: Seq<u8>) -> Option<Seq<u8>>;

/// The DER bytes of the signature that `secp256k1::Secp256k1::sign_ecdsa` makes
/// over `digest` with the secret key `secret`; `None` where `secret` is refused
/// as a secret key or `digest` as a message.
pub uninterp spec fn ecdsa_signature(secret: Seq<u8>, digest: Seq<u8>) -> Option<Seq<u8>>;

/// Whether `secp256k1::Secp256k1::verify_ecdsa` accepts the DER signature
/// `signature` over `digest` for the public key `public_key`; false where one
/// of the three does not parse.
pub uninterp spec fn ecdsa_accepts(
    public_key: Seq<u8>,
    digest: Seq<u8>,
    signature: Seq<u8>,
) -> bool;

/// The Base58Check text of `data`, as `bitcoin::base58::encode_check` writes it.
pub uninterp spec fn base58check(data: Seq<u8>) -> Seq<char>;

/// The first `len` bytes of PBKDF2 with HMAC-SHA256, as `ring::pbkdf2::derive`
/// computes them.
pub uninterp spec fn pbkdf2_hmac_sha256(
    iterations: u32,
    salt: Seq<u8>,
    secret: Seq<u8>,
    len: nat,
) -> Seq<u8>;

/// The ciphertext followed by the tag that `ring::aead::LessSafeKey` makes of
/// `plaintext` with AES-256-GCM; `None` where ring refuses the key, the nonce
/// or the length of the plaintext.
pub uninterp spec fn aes_gcm_sealed(
    key: Seq<u8>,
    nonce: Seq<u8>,
    aad: Seq<u8>,
    plaintext: Seq<u8>,
) -> Option<Seq<u8>>;

/// The plaintext that `ring::aead::LessSafeKey` recovers from `sealed` with
/// AES-256-GCM; `None` where ring refuses the key or the nonce, or the tag does
/// not authenticate `sealed` and `aad`.
pub uninterp spec fn aes_gcm_opened(
    key: Seq<u8>,
    nonce: Seq<u8>,
    aad: Seq<u8>,
    sealed: Seq<u8>,
) -> Option<Seq<u8>>;

/// Calls `bip39::Mnemonic::parse`, which normalizes the text, splits it at
/// white space, looks every word up and verifies the checksum.
///
/// Trusted: the result is the named one, and a phrase written out by `bip39`
/// parses to itself.
#[verifier::external_body]
pub(crate) fn parse_mnemonic(text: &str) -> (r: Option<String>)
    ensures
        r matches Some(phrase) ==> mnemonic_phrase(text@) == Some(phrase@) && mnemonic_phrase(
            phrase@,
        ) == Some(phrase@),
        r is None ==> mnemonic_phrase(text@) is None,
{
    match Mnemonic::parse(text) {
        Ok(mnemonic) => Some(mnemonic.to_string()),
        Err(_) => None,
    }
}

/// Calls `bip39::Mnemonic::to_seed` on the phrase that `bip39::Mnemonic::parse`
/// reads from `phrase`.
///
/// Trusted: there is a seed exactly where the phrase parses; it is the named
/// one and has 64 bytes.
#[verifier::external_body]
pub(crate) fn mnemonic_to_seed(phrase: &str, passphrase: &str) -> (r: Option<Vec<u8>>)
    ensures
        r is Some <==> mnemonic_phrase(phrase@) is Some,
        r matches Some(seed) ==> seed@ == mnemonic_seed(
            mnemonic_phrase(phrase@).unwrap(),
            passphrase@,
        ) && seed@.len() == 64,
{
    match Mnemonic::parse(phrase) {
        Ok(mnemonic) => Some(mnemonic.to_seed(passphrase).to_vec()),
        Err(_) => None,
    }
}

/// Calls `bip39::Mnemonic::from_entropy`, which appends the checksum to the
/// entropy and reads the words off it, eleven bits each.
///
/// Trusted: the result is the named one, and there is a phrase exactly where
/// the entropy has 16, 20, 24, 28 or 32 bytes. Such a phrase parses to itself,
/// since the checksum that is appended is the one that `bip39::Mnemonic::parse`
/// verifies, and it is in lower case already, as all words of the list are.
#[verifier::external_body]
pub(crate) fn mnemonic_from_entropy(entropy: &[u8]) -> (r: Option<String>)
    ensures
        r matches Some(phrase) ==> entropy_phrase(entropy@) == Some(phrase@) && mnemonic_phrase(
            phrase@,
        ) == Some(phrase@) && lowercased(phrase@) == phrase@,
        r is None ==> entropy_phrase(entropy@) is None,
        r is Some <==> (entropy@.len() % 4 == 0 && 16 <= entropy@.len() <= 32),
{
    match Mnemonic::from_entropy(entropy) {
        Ok(mnemonic) => Some(mnemonic.to_string()),
        Err(_) => None,
    }
}

/// Calls `str::to_lowercase`.
///
/// Trusted: the result is the named one.
#[verifier::external_body]
pub(crate) fn lowercase(text: &str) -> (r: String)
    ensures
        r@ == lowercased(text@),
{
    text.to_lowercase()
}

/// Calls `bitcoin::bip32::DerivationPath::from_str`, which splits the text at
/// every `/`, asks that the first part is `m`, and reads every other part as a
/// child number: a decimal `u32` below 2^31, as `u32::from_str` reads one,
/// with `'` or `h` behind it for a hardened child.
///
/// Trusted: the result is what [`path_components`] says, each component as
/// its index and whether it is hardened.
#[verifier::external_body]
pub(crate) fn parse_derivation_path(path: &str) -> (r: Option<Vec<(u32, bool)>>)
    ensures
        r matches Some(components) ==> path_components(path@) == Some(components@),
        r is None ==> path_components(path@) is None,
{
    let parsed = DerivationPath::from_str(path).ok()?;
    Some(
        parsed.into_iter().map(
            |child| match *child {
                ChildNumber::Normal { index } => (index, false),
                ChildNumber::Hardened { index } => (index, true),
            },
        ).collect(),
    )
}

/// Calls `bitcoin::bip32::ExtendedPrivKey::new_master` and hands out the
/// private key and the chain code of the key it builds.
///
/// Trusted: `new_master` computes HMAC-SHA512 of the seed under the key
/// `Bitcoin seed`. The left half of the code is the private key, and there is
/// a master key exactly where `secp256k1::SecretKey::from_slice` accepts it;
/// the right half is the chain code.
#[verifier::external_body]
pub(crate) fn master_key_material(seed: &[u8]) -> (r: Option<(Vec<u8>, Vec<u8>)>)
    ensures
        r is Some <==> secp_public_key(master_code(seed@).subrange(0, 32)) is Some,
        r matches Some(material) ==> material.0@ == master_code(seed@).subrange(0, 32)
            && material.1@ == master_code(seed@).subrange(32, 64) && material.0@.len() == 32
            && material.1@.len() == 32,
{
    let master = ExtendedPrivKey::new_master(Network::Bitcoin, seed).ok()?;
    Some((master.private_key.secret_bytes().to_vec(), master.chain_code.to_bytes().to_vec()))
}

/// Calls `bitcoin::hashes::HmacEngine` and `Hmac::from_engine` for SHA-512.
///
/// Trusted: the result is the named one and has 64 bytes.
#[verifier::external_body]
pub(crate) fn compute_hmac_sha512(key: &[u8], data: &[u8]) -> (r: Vec<u8>)
    ensures
        r@ == hmac_sha512(key@, data@),
        r@.len() == 64,
{
    let mut engine = HmacEngine::<sha512::Hash>::new(key);
    engine.input(data);
    let code: Hmac<sha512::Hash> = bitcoin::hashes::Hash::from_engine(engine);
    bitcoin::hashes::Hash::to_byte_array(code).to_vec()
}

/// Calls `bitcoin::hashes::hash160::Hash::hash`.
///
/// Trusted: the result is the named one and has 20 bytes.
#[verifier::external_body]
pub(crate) fn compute_hash160(data: &[u8]) -> (r: Vec<u8>)
    ensures
        r@ == hash160(data@),
        r@.len() == 20,
{
    let digest: hash160::Hash = bitcoin::hashes::Hash::hash(data);
    bitcoin::hashes::Hash::to_byte_array(digest).to_vec()
}

/// Calls `bitcoin::hashes::sha256d::Hash::hash`.
///
/// Trusted: the result is the named one and has 32 bytes.
#[verifier::external_body]
pub(crate) fn compute_sha256d(data: &[u8]) -> (r: Vec<u8>)
    ensures
        r@ == sha256d(data@),
        r@.len() == 32,
{
    let digest: sha256d::Hash = bitcoin::hashes::Hash::hash(data);
    bitcoin::hashes::Hash::to_byte_array(digest).to_vec()
}

/// Calls `secp256k1::PublicKey::from_secret_key` and `serialize` on the key
/// that `secp256k1::SecretKey::from_slice` reads from `secret`.
///
/// Trusted: the result is the named one; a public key has 33 bytes.
#[verifier::external_body]
pub(crate) fn compute_public_key(secret: &[u8]) -> (r: Option<Vec<u8>>)
    ensures
        r matches Some(key) ==> secp_public_key(secret@) == Some(key@) && key@.len() == 33,
        r is None ==> secp_public_key(secret@) is None,
{
    let secret = SecretKey::from_slice(secret).ok()?;
    Some(PublicKey::from_secret_key(SECP256K1, &secret).serialize().to_vec())
}

/// Calls `secp256k1::SecretKey::add_tweak` on the keys that
/// `secp256k1::SecretKey::from_slice` reads from `key` and `tweak`.
///
/// Trusted: the result is the named one; a sum has 32 bytes and is itself a
/// secret key, since `add_tweak` fails where it would be none.
#[verifier::external_body]
pub(crate) fn add_secret_keys(key: &[u8], tweak: &[u8]) -> (r: Option<Vec<u8>>)
    ensures
        r matches Some(sum) ==> secret_key_sum(key@, tweak@) == Some(sum@) && sum@.len() == 32
            && secp_public_key(sum@) is Some,
        r is None ==> secret_key_sum(key@, tweak@) is None,
{
    let key = SecretKey::from_slice(key).ok()?;
    let tweak = Scalar::from(SecretKey::from_slice(tweak).ok()?);
    Some(key.add_tweak(&tweak).ok()?.secret_bytes().to_vec())
}

/// Calls `secp256k1::Secp256k1::sign_ecdsa`, which signs with the nonce of
/// RFC 6979, and `serialize_der` on the signature.
///
/// Trusted: the result is the named one. There is a signature exactly where
/// `secret` is a secret key and `digest` has 32 bytes, and `verify_ecdsa`
/// accepts it for the public key of `secret`, as the documentation of
/// `verify_ecdsa` shows. Its DER form starts with the tag 0x30 and has at most
/// 72 bytes.
#[verifier::external_body]
pub(crate) fn ecdsa_sign(secret: &[u8], digest: &[u8]) -> (r: Option<Vec<u8>>)
    ensures
        r matches Some(signature) ==> ecdsa_signature(secret@, digest@) == Some(signature@),
        r is None ==> ecdsa_signature(secret@, digest@) is None,
        r is Some <==> (secp_public_key(secret@) is Some && digest@.len() == 32),
        r matches Some(signature) ==> ecdsa_accepts(
            secp_public_key(secret@).unwrap(),
            digest@,
            signature@,
        ),
        r matches Some(signature) ==> 0 < signature@.len() <= 72 && signature@[0] == 0x30,
{
    let secret = SecretKey::from_slice(secret).ok()?;
    let message = Message::from_slice(digest).ok()?;
    Some(SECP256K1.sign_ecdsa(&message, &secret).serialize_der().to_vec())
}

/// Calls `secp256k1::Secp256k1::verify_ecdsa` on what
/// `secp256k1::PublicKey::from_slice`, `Message::from_slice` and
/// `ecdsa::Signature::from_der` read from the three arguments.
///
/// Trusted: the result is the named one.
#[verifier::external_body]
pub(crate) fn ecdsa_verify(public_key: &[u8], digest: &[u8], signature: &[u8]) -> (r: bool)
    ensures
        r == ecdsa_accepts(public_key@, digest@, signature@),
{
    let parsed = (
        PublicKey::from_slice(public_key),
        Message::from_slice(digest),
        ecdsa::Signature::from_der(signature),
    );
    match parsed {
        (Ok(key), Ok(message), Ok(signature)) => {
            SECP256K1.verify_ecdsa(&message, &signature, &key).is_ok()
        },
        _ => false,
    }
}

/// Calls `bitcoin::base58::encode_check`.
///
/// Trusted: the result is the named one.
#[verifier::external_body]
pub(crate) fn base58check_encode(data: &[u8]) -> (r: String)
    ensures
        r@ == base58check(data@),
{
    bitcoin::base58::encode_check(data)
}

/// Calls `ring::rand::SystemRandom::fill` on a fresh buffer of `len` bytes.
///
/// Trusted: the buffer that comes back has `len` bytes. Nothing is claimed of
/// what they are.
#[verifier::external_body]
pub(crate) fn random_bytes(len: usize) -> (r: Option<Vec<u8>>)
    ensures
        r matches Some(bytes) ==> bytes@.len() == len,
{
    let mut bytes = vec![0u8; len];
    match ring::rand::SystemRandom::new().fill(&mut bytes) {
        Ok(()) => Some(bytes),
        Err(_) => None,
    }
}

/// Calls `ring::pbkdf2::derive` with `PBKDF2_HMAC_SHA256` on a fresh buffer of
/// `len` bytes.
///
/// ring panics where more output is asked than PBKDF2 allows, which the bound
/// on `len` keeps far below, and where the salt or the secret is too long for
/// SHA-256 to take: more than 2^61 bytes, which no machine holds.
/// Trusted: the result is the named one and has `len` bytes.
#[verifier::external_body]
pub(crate) fn pbkdf2_derive(iterations: u32, salt: &[u8], secret: &[u8], len: usize) -> (r: Vec<
    u8,
>)
    requires
        iterations > 0,
        len <= 1024,
    ensures
        r@ == pbkdf2_hmac_sha256(iterations, salt@, secret@, len as nat),
        r@.len() == len,
{
    let mut key = vec![0u8; len];
    let rounds = NonZeroU32::new(iterations).unwrap();
    pbkdf2::derive(pbkdf2::PBKDF2_HMAC_SHA256, rounds, salt, secret, &mut key);
    key
}

/// Calls `ring::aead::LessSafeKey::seal_in_place_append_tag` with `AES_256_GCM`
/// on a copy of `plaintext`.
///
/// Trusted: the result is the named one. ring seals exactly where the key has
/// 32 bytes, the nonce 12, and the plaintext fits the block counter: at most
/// 2^36 - 32 bytes. What it makes is the ciphertext, as long as the plaintext,
/// and the tag of 16 bytes; `open_in_place` under the same key, nonce and
/// associated data gives the plaintext back.
#[verifier::external_body]
pub(crate) fn aes_gcm_seal(key: &[u8], nonce: &[u8], aad: &[u8], plaintext: &[u8]) -> (r: Option<
    Vec<u8>,
>)
    ensures
        r matches Some(sealed) ==> aes_gcm_sealed(key@, nonce@, aad@, plaintext@) == Some(sealed@),
        r is None ==> aes_gcm_sealed(key@, nonce@, aad@, plaintext@) is None,
        r is Some <==> (key@.len() == 32 && nonce@.len() == 12 && plaintext@.len()
            <= 0xF_FFFF_FFE0),
        r matches Some(sealed) ==> sealed@.len() == plaintext@.len() + 16 && aes_gcm_opened(
            key@,
            nonce@,
            aad@,
            sealed@,
        ) == Some(plaintext@),
{
    let key = aead::LessSafeKey::new(aead::UnboundKey::new(&aead::AES_256_GCM, key).ok()?);
    let nonce = aead::Nonce::try_assume_unique_for_key(nonce).ok()?;
    let mut buffer = plaintext.to_vec();
    key.seal_in_place_append_tag(nonce, aead::Aad::from(aad), &mut buffer).ok()?;
    Some(buffer)
}

/// Calls `ring::aead::LessSafeKey::open_in_place` with `AES_256_GCM` on a copy
/// of `sealed`.
///
/// Trusted: the result is the named one. ring opens only what sealing makes:
/// it computes the tag over the ciphertext and the associated data as sealing
/// does, compares it with the 16 bytes at the end, and decrypts with the key
/// stream that sealing encrypts with. So where there is a plaintext, it is 16
/// bytes shorter than `sealed`, and sealing it under the same key, nonce and
/// associated data gives `sealed`.
#[verifier::external_body]
pub(crate) fn aes_gcm_open(key: &[u8], nonce: &[u8], aad: &[u8], sealed: &[u8]) -> (r: Option<
    Vec<u8>,
>)
    ensures
        r matches Some(plaintext) ==> aes_gcm_opened(key@, nonce@, aad@, sealed@) == Some(
            plaintext@,
        ) && sealed@.len() == plaintext@.len() + 16 && aes_gcm_sealed(
            key@,
            nonce@,
            aad@,
            plaintext@,
        ) == Some(sealed@),
        r is None ==> aes_gcm_opened(key@, nonce@, aad@, sealed@) is None,
{
    let key = aead::LessSafeKey::new(aead::UnboundKey::new(&aead::AES_256_GCM, key).ok()?);
    let nonce = aead::Nonce::try_assume_unique_for_key(nonce).ok()?;
    let mut buffer = sealed.to_vec();
    let plaintext = key.open_in_place(nonce, aead::Aad::from(aad), &mut buffer).ok()?;
    Some(plaintext.to_vec())
}

/// Calls `String::from_utf8`.
///
/// Trusted, as the documentation of `std` has it: there is a string exactly
/// where the bytes are valid UTF-8, and its bytes are the ones given.
#[verifier::external_body]
pub(crate) fn string_from_utf8(bytes: Vec<u8>) -> (r: Option<String>)
    ensures
        r is Some <==> valid_utf8(bytes@),
        r matches Some(text) ==> encode_utf8(text@) == bytes@,
{
    String::from_utf8(bytes).ok()
}

} // verus!
