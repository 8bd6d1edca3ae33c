//! Signatures over messages, made with a private key and verified with the
//! public key that belongs to it.
//!
//! A message is never signed as it comes: it is first hashed twice with
//! SHA-256, and the signature is made over that digest.

use crate::error::KeyError;
use crate::hex::{decode, encode, hex_bytes, hex_text, is_hex_text};
use crate::primitives::{
    compute_public_key, compute_sha256d, ecdsa_accepts, ecdsa_sign, ecdsa_signature,
    ecdsa_verify, secp_public_key, sha256d,
};
use vstd::prelude::*;

verus! {

/// Whether `signature`, in DER bytes, is a signature over the digest of
/// `message` that verifies for `public_key`.
pub open spec fn verifies(public_key: Seq<u8>, message: Seq<u8>, signature: Seq<u8>) -> bool {
    ecdsa_accepts(public_key, sha256d(message), signature)
}

/// Whether `private_key` is a valid private key: 32 bytes that stand for a
/// number from one up to, but not including, the order of the curve.
pub open spec fn is_private_key(private_key: Seq<u8>) -> bool {
    secp_public_key(private_key) is Some
}

/// The DER bytes of the signature that `private_key` makes over the digest of
/// `message`; `None` where the bytes are no valid private key.
pub open spec fn signature_spec(private_key: Seq<u8>, message: Seq<u8>) -> Option<Seq<u8>> {
    if is_private_key(private_key) {
        ecdsa_signature(private_key, sha256d(message))
    } else {
        None
    }
}

/// A signature: the pair of numbers `r` and `s`, held in DER bytes.
#[derive(Debug)]
pub struct Signature {
    der: Vec<u8>,
}

impl View for Signature {
    type V = Seq<u8>;

    closed spec fn view(&self) -> Seq<u8> {
        self.der@
    }
}

impl Signature {
    /// Takes DER bytes for a signature. Whether they are one shows when it is
    /// verified.
    pub fn from_der(der: Vec<u8>) -> (signature: Signature)
        ensures
            signature@ == der@,
    {
        Signature { der }
    }

    /// Reads a signature from the hexadecimal text of its DER bytes.
    ///
    /// Gives `None` exactly where the text is not hexadecimal.
    pub fn from_hex(text: &str) -> (r: Option<Signature>)
        ensures
            match r {
                Some(signature) => is_hex_text(text@) && signature@ == hex_bytes(text@),
                None => !is_hex_text(text@),
            },
    {
        match decode(text) {
            Some(der) => Some(Signature { der }),
            None => None,
        }
    }

    /// The DER bytes.
    pub fn as_der(&self) -> (der: &[u8])
        ensures
            der@ == self@,
    {
        self.der.as_slice()
    }

    /// The DER bytes as lower-case hexadecimal text.
    pub fn to_hex(&self) -> (text: String)
        ensures
            text@ == hex_text(self@),
    {
        encode(self.der.as_slice())
    }
}

/// The digest that is signed for `message`: SHA-256 of SHA-256 of it.
pub fn message_digest(message: &[u8]) -> (digest: Vec<u8>)
    ensures
        digest@ == sha256d(message@),
        digest@.len() == 32,
{
    compute_sha256d(message)
}

/// The compressed public key that belongs to `private_key`.
///
/// Fails with [`KeyError::SigningError`] exactly where the bytes are no valid
/// private key.
pub fn public_key_of(private_key: &[u8]) -> (r: Result<Vec<u8>, KeyError>)
    ensures
        r is Ok <==> is_private_key(private_key@),
        match r {
            Ok(public_key) => secp_public_key(private_key@) == Some(public_key@),
            Err(e) => e == KeyError::SigningError && secp_public_key(private_key@) is None,
        },
{
    match compute_public_key(private_key) {
        Some(public_key) => Ok(public_key),
        None => Err(KeyError::SigningError),
    }
}

/// Whether `signature` is a signature over `message` that verifies for
/// `public_key`.
pub fn verify(public_key: &[u8], message: &[u8], signature: &Signature) -> (accepted: bool)
    ensures
        accepted == verifies(public_key@, message@, signature@),
{
    let digest = message_digest(message);
    ecdsa_verify(public_key, digest.as_slice(), signature.as_der())
}

/// Signs `message` with `private_key`.
///
/// The signature is made over the digest of the message, with the nonce of
/// RFC 6979, so the same key and message give the same signature, and it
/// verifies for the public key of `private_key`. Its DER form starts with
/// 0x30 and has at most 72 bytes. Signing succeeds exactly where the bytes are
/// a valid private key, whatever the message; any other bytes give
/// [`KeyError::SigningError`].
pub fn sign(private_key: &[u8], message: &[u8]) -> (r: Result<Signature, KeyError>)
    ensures
        r is Ok <==> is_private_key(private_key@),
        match r {
            Ok(signature) => signature_spec(private_key@, message@) == Some(signature@)
                && verifies(secp_public_key(private_key@).unwrap(), message@, signature@) && 0
                < signature@.len() <= 72 && signature@[0] == 0x30,
            Err(e) => e == KeyError::SigningError && signature_spec(private_key@, message@)
                is None,
        },
{
    let digest = message_digest(message);
    match ecdsa_sign(private_key, digest.as_slice()) {
        Some(der) => Ok(Signature { der }),
        None => Err(KeyError::SigningError),
    }
}

} // verus!
