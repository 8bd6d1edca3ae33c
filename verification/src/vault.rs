//! The seed vault: a recovery phrase sealed under a password.
//!
//! A sealed blob is laid out as
//!
//! ```text
//! version (1 byte) | salt (16 bytes) | nonce (12 bytes) | ciphertext and tag
//! ```
//!
//! The key is stretched from the password and the salt with PBKDF2-HMAC-SHA256
//! in [`PBKDF2_ITERATIONS`] rounds. The phrase is encrypted with AES-256-GCM
//! under that key and the nonce; the first three fields are authenticated with
//! it. The key itself is never part of the blob.

use crate::error::KeyError;
use crate::extended_key::append;
use crate::primitives::{
    aes_gcm_open, aes_gcm_opened, aes_gcm_seal, aes_gcm_sealed, pbkdf2_derive,
    pbkdf2_hmac_sha256, random_bytes, string_from_utf8,
};
use vstd::prelude::*;
use vstd::slice::slice_subrange;
use vstd::utf8::{decode_utf8, encode_utf8, encode_utf8_decode_utf8, encode_utf8_valid_utf8, valid_utf8};

verus! {

/// The version tag that blobs of this layout start with.
pub const VERSION: u8 = 1;

/// The number of rounds of PBKDF2.
pub const PBKDF2_ITERATIONS: u32 = 100_000;

/// The number of bytes of the salt.
pub const SALT_LEN: usize = 16;

/// The number of bytes of the nonce.
pub const NONCE_LEN: usize = 12;

/// The number of bytes of the key.
pub const KEY_LEN: usize = 32;

/// The number of bytes before the ciphertext: version, salt and nonce.
pub const HEADER_LEN: usize = 29;

/// The number of bytes of the tag that ends a blob.
pub const TAG_LEN: usize = 16;

/// The greatest number of bytes of a plaintext that the cipher takes under one
/// nonce: 2^36 - 32.
pub const MAX_PLAINTEXT_LEN: u64 = 0xF_FFFF_FFE0;

/// The key that a password and a salt are stretched into.
pub open spec fn vault_key(password: Seq<u8>, salt: Seq<u8>) -> Seq<u8> {
    pbkdf2_hmac_sha256(PBKDF2_ITERATIONS, salt, password, KEY_LEN as nat)
}

/// The first three fields of a blob.
pub open spec fn header(salt: Seq<u8>, nonce: Seq<u8>) -> Seq<u8> {
    seq![VERSION] + salt + nonce
}

/// The salt that a blob holds.
pub open spec fn salt_of(blob: Seq<u8>) -> Seq<u8> {
    blob.subrange(1, 1 + SALT_LEN)
}

/// The nonce that a blob holds.
pub open spec fn nonce_of(blob: Seq<u8>) -> Seq<u8> {
    blob.subrange(1 + SALT_LEN, HEADER_LEN as int)
}

/// Whether salt and nonce have the lengths of the layout.
pub open spec fn draw_ok(salt: Seq<u8>, nonce: Seq<u8>) -> bool {
    salt.len() == SALT_LEN && nonce.len() == NONCE_LEN
}

/// Whether a plaintext is short enough for the cipher to take it.
pub open spec fn plaintext_ok(plaintext: Seq<u8>) -> bool {
    plaintext.len() <= MAX_PLAINTEXT_LEN
}

/// The blob that seals `plaintext` under `password` with the given salt and
/// nonce; `None` where a length is wrong or the cipher refuses.
pub open spec fn sealed_spec(
    plaintext: Seq<u8>,
    password: Seq<u8>,
    salt: Seq<u8>,
    nonce: Seq<u8>,
) -> Option<Seq<u8>> {
    if !draw_ok(salt, nonce) || !plaintext_ok(plaintext) {
        None
    } else {
        let head = header(salt, nonce);
        match aes_gcm_sealed(vault_key(password, salt), nonce, head, plaintext) {
            Some(body) => Some(head + body),
            None => None,
        }
    }
}

/// Whether a blob is long enough to hold a header and no longer than sealing
/// can make one.
pub open spec fn blob_len_ok(blob: Seq<u8>) -> bool {
    HEADER_LEN <= blob.len() <= HEADER_LEN + MAX_PLAINTEXT_LEN + TAG_LEN
}

/// The plaintext that `blob` opens to under `password`; `None` where the blob
/// is too short or too long, has another version, or does not authenticate
/// under the key of this password.
pub open spec fn opened_spec(blob: Seq<u8>, password: Seq<u8>) -> Option<Seq<u8>> {
    if !blob_len_ok(blob) || blob[0] != VERSION {
        None
    } else {
        aes_gcm_opened(
            vault_key(password, salt_of(blob)),
            nonce_of(blob),
            blob.subrange(0, HEADER_LEN as int),
            blob.subrange(HEADER_LEN as int, blob.len() as int),
        )
    }
}

/// The phrase that `blob` opens to under `password`; `None` where it does not
/// open, or opens to bytes that are no text.
pub open spec fn unsealed_text(blob: Seq<u8>, password: Seq<char>) -> Option<Seq<char>> {
    match opened_spec(blob, encode_utf8(password)) {
        Some(bytes) => if valid_utf8(bytes) {
            Some(decode_utf8(bytes))
        } else {
            None
        },
        None => None,
    }
}

/// A blob is read back as it was written: its salt, its nonce and its header
/// are the ones it was made with.
pub proof fn lemma_layout(salt: Seq<u8>, nonce: Seq<u8>, body: Seq<u8>)
    requires
        salt.len() == SALT_LEN,
        nonce.len() == NONCE_LEN,
    ensures
        ({
            let blob = header(salt, nonce) + body;
            &&& blob.len() == HEADER_LEN + body.len()
            &&& blob[0] == VERSION
            &&& salt_of(blob) == salt
            &&& nonce_of(blob) == nonce
            &&& blob.subrange(0, HEADER_LEN as int) == header(salt, nonce)
            &&& blob.subrange(HEADER_LEN as int, blob.len() as int) == body
        }),
{
    let blob = header(salt, nonce) + body;
    assert(salt_of(blob) =~= salt);
    assert(nonce_of(blob) =~= nonce);
    assert(blob.subrange(0, HEADER_LEN as int) =~= header(salt, nonce));
    assert(blob.subrange(HEADER_LEN as int, blob.len() as int) =~= body);
}

/// A blob opens under a password to whatever its ciphertext opens to under the
/// key of that password and the blob's own salt: what `body` opens to is what
/// the whole blob opens to.
pub proof fn lemma_blob_opens_as_body(
    password: Seq<u8>,
    salt: Seq<u8>,
    nonce: Seq<u8>,
    body: Seq<u8>,
)
    requires
        draw_ok(salt, nonce),
        body.len() <= MAX_PLAINTEXT_LEN + TAG_LEN,
    ensures
        opened_spec(header(salt, nonce) + body, password) == aes_gcm_opened(
            vault_key(password, salt),
            nonce,
            header(salt, nonce),
            body,
        ),
{
    lemma_layout(salt, nonce, body);
}

/// Bytes that are the text of a phrase are read back as that phrase.
pub proof fn lemma_text_read_back(blob: Seq<u8>, phrase: Seq<char>, password: Seq<char>)
    requires
        opened_spec(blob, encode_utf8(password)) == Some(encode_utf8(phrase)),
    ensures
        unsealed_text(blob, password) == Some(phrase),
{
    encode_utf8_valid_utf8(phrase);
    encode_utf8_decode_utf8(phrase);
}

/// A blob with another version tag than [`VERSION`], or with less than a
/// header, opens under no password.
pub proof fn lemma_foreign_blob_rejected(blob: Seq<u8>, password: Seq<u8>)
    requires
        blob.len() < HEADER_LEN || blob[0] != VERSION,
    ensures
        opened_spec(blob, password) is None,
{
}

/// Seals `plaintext` under `password` with a salt and a nonce that the caller
/// has drawn.
///
/// Sealing succeeds exactly where the salt has [`SALT_LEN`] and the nonce
/// [`NONCE_LEN`] bytes, and the plaintext is no longer than the cipher takes
/// under one nonce, [`MAX_PLAINTEXT_LEN`]. The blob is then the one of
/// [`sealed_spec`]: header, ciphertext and tag, 45 bytes longer than the
/// plaintext, and it opens under the same password to the plaintext. The one
/// failure is [`KeyError::EntropyError`]: what was drawn cannot seal this
/// plaintext.
pub fn seal_with(plaintext: &[u8], password: &[u8], salt: &[u8], nonce: &[u8]) -> (r: Result<
    Vec<u8>,
    KeyError,
>)
    ensures
        r is Ok <==> draw_ok(salt@, nonce@) && plaintext_ok(plaintext@),
        match r {
            Ok(blob) => sealed_spec(plaintext@, password@, salt@, nonce@) == Some(blob@)
                && opened_spec(blob@, password@) == Some(plaintext@) && blob@.len()
                == HEADER_LEN + plaintext@.len() + TAG_LEN,
            Err(e) => sealed_spec(plaintext@, password@, salt@, nonce@) is None && e
                == KeyError::EntropyError,
        },
{
    if salt.len() != SALT_LEN || nonce.len() != NONCE_LEN {
        return Err(KeyError::EntropyError);
    }
    let key = pbkdf2_derive(PBKDF2_ITERATIONS, salt, password, KEY_LEN);
    let mut blob: Vec<u8> = Vec::new();
    blob.push(VERSION);
    append(&mut blob, salt);
    append(&mut blob, nonce);
    assert(blob@ =~= header(salt@, nonce@));
    let body = match aes_gcm_seal(key.as_slice(), nonce, blob.as_slice(), plaintext) {
        Some(body) => body,
        None => {
            return Err(KeyError::EntropyError);
        },
    };
    append(&mut blob, body.as_slice());
    proof {
        lemma_blob_opens_as_body(password@, salt@, nonce@, body@);
    }
    Ok(blob)
}

/// Opens a sealed blob under `password`.
///
/// Fails with [`KeyError::AuthenticationFailed`], and with nothing else,
/// exactly where [`opened_spec`] has no plaintext: whether the password is
/// wrong or the blob is damaged cannot be told from the failure. A plaintext
/// comes back only for a blob that sealing makes: the blob is the one that
/// [`sealed_spec`] gives for that plaintext, this password, and the salt and
/// nonce that the blob holds.
pub fn open(blob: &[u8], password: &[u8]) -> (r: Result<Vec<u8>, KeyError>)
    ensures
        match r {
            Ok(plaintext) => opened_spec(blob@, password@) == Some(plaintext@) && sealed_spec(
                plaintext@,
                password@,
                salt_of(blob@),
                nonce_of(blob@),
            ) == Some(blob@),
            Err(e) => e == KeyError::AuthenticationFailed && opened_spec(blob@, password@)
                is None,
        },
{
    if blob.len() < HEADER_LEN || blob[0] != VERSION {
        return Err(KeyError::AuthenticationFailed);
    }
    let body_len = blob.len() - HEADER_LEN;
    if body_len > TAG_LEN && (body_len - TAG_LEN) as u64 > MAX_PLAINTEXT_LEN {
        return Err(KeyError::AuthenticationFailed);
    }
    let salt = slice_subrange(blob, 1, 1 + SALT_LEN);
    let nonce = slice_subrange(blob, 1 + SALT_LEN, HEADER_LEN);
    let head = slice_subrange(blob, 0, HEADER_LEN);
    let body = slice_subrange(blob, HEADER_LEN, blob.len());
    let key = pbkdf2_derive(PBKDF2_ITERATIONS, salt, password, KEY_LEN);
    match aes_gcm_open(key.as_slice(), nonce, head, body) {
        Some(plaintext) => {
            assert(head@ =~= header(salt@, nonce@));
            assert(blob@ =~= head@ + body@);
            Ok(plaintext)
        },
        None => Err(KeyError::AuthenticationFailed),
    }
}

/// Seals a recovery phrase under a password, with a fresh random salt and
/// nonce.
///
/// Every blob that comes back unseals under the same password to the phrase
/// that went in, is 45 bytes longer than the phrase, and is the blob that
/// [`sealed_spec`] gives for the salt and the nonce it holds. The one failure
/// is [`KeyError::EntropyError`]. It comes where the random source fails, and
/// for a phrase longer than [`MAX_PLAINTEXT_LEN`], which no nonce can seal;
/// whatever the password.
pub fn seal(phrase: &str, password: &str) -> (r: Result<Vec<u8>, KeyError>)
    ensures
        match r {
            Ok(blob) => unsealed_text(blob@, password@) == Some(phrase@) && blob@.len()
                == HEADER_LEN + encode_utf8(phrase@).len() + TAG_LEN && sealed_spec(
                encode_utf8(phrase@),
                encode_utf8(password@),
                salt_of(blob@),
                nonce_of(blob@),
            ) == Some(blob@),
            Err(e) => e == KeyError::EntropyError,
        },
        !plaintext_ok(encode_utf8(phrase@)) ==> r is Err,
{
    let salt = match random_bytes(SALT_LEN) {
        Some(salt) => salt,
        None => {
            return Err(KeyError::EntropyError);
        },
    };
    let nonce = match random_bytes(NONCE_LEN) {
        Some(nonce) => nonce,
        None => {
            return Err(KeyError::EntropyError);
        },
    };
    match seal_with(phrase.as_bytes(), password.as_bytes(), salt.as_slice(), nonce.as_slice()) {
        Ok(blob) => {
            proof {
                let body = aes_gcm_sealed(
                    vault_key(encode_utf8(password@), salt@),
                    nonce@,
                    header(salt@, nonce@),
                    encode_utf8(phrase@),
                ).unwrap();
                lemma_layout(salt@, nonce@, body);
                lemma_text_read_back(blob@, phrase@, password@);
            }
            Ok(blob)
        },
        Err(e) => Err(e),
    }
}

/// Unseals a recovery phrase.
///
/// Fails with [`KeyError::AuthenticationFailed`], and with nothing else,
/// exactly where [`unsealed_text`] has no phrase. A phrase comes back only for
/// a blob that sealing makes of this phrase under this password.
pub fn unseal(blob: &[u8], password: &str) -> (r: Result<String, KeyError>)
    ensures
        match r {
            Ok(phrase) => unsealed_text(blob@, password@) == Some(phrase@) && sealed_spec(
                encode_utf8(phrase@),
                encode_utf8(password@),
                salt_of(blob@),
                nonce_of(blob@),
            ) == Some(blob@),
            Err(e) => e == KeyError::AuthenticationFailed && unsealed_text(blob@, password@)
                is None,
        },
{
    let plaintext = match open(blob, password.as_bytes()) {
        Ok(plaintext) => plaintext,
        Err(e) => {
            return Err(e);
        },
    };
    match string_from_utf8(plaintext) {
        Some(phrase) => {
            proof {
                encode_utf8_decode_utf8(phrase@);
            }
            Ok(phrase)
        },
        None => Err(KeyError::AuthenticationFailed),
    }
}

} // verus!
