use ring::aead::{Aad, LessSafeKey, Nonce, UnboundKey, AES_256_GCM};
use ring::pbkdf2::PBKDF2_HMAC_SHA256;
use std::num::NonZeroU32;
use wallet_keys::vault::{
    open, seal, seal_with, unseal, HEADER_LEN, KEY_LEN, MAX_PLAINTEXT_LEN, NONCE_LEN,
    PBKDF2_ITERATIONS, SALT_LEN, TAG_LEN, VERSION,
};
use wallet_keys::KeyError;

const PHRASE: &str =
    "abandon abandon abandon abandon abandon abandon abandon abandon abandon abandon abandon about";

const SALT: [u8; 16] = [1, 2, 3, 4, 5, 6, 7, 8, 9, 10, 11, 12, 13, 14, 15, 16];
const NONCE: [u8; 12] = [21, 22, 23, 24, 25, 26, 27, 28, 29, 30, 31, 32];

#[test]
fn the_layout_has_the_documented_sizes() {
    assert_eq!(VERSION, 1);
    assert_eq!(SALT_LEN, 16);
    assert_eq!(NONCE_LEN, 12);
    assert_eq!(KEY_LEN, 32);
    assert_eq!(HEADER_LEN, 1 + SALT_LEN + NONCE_LEN);
    assert_eq!(TAG_LEN, 16);
    assert_eq!(MAX_PLAINTEXT_LEN, ((1u64 << 32) - 2) * 16);
    assert!(PBKDF2_ITERATIONS >= 100_000);
}

#[test]
fn seal_then_unseal_gives_the_phrase() {
    let blob = seal(PHRASE, "correct horse").unwrap();
    assert_eq!(unseal(&blob, "correct horse").unwrap(), PHRASE);
}

#[test]
fn seal_then_unseal_of_other_texts() {
    let blob = seal("", "").unwrap();
    assert_eq!(unseal(&blob, "").unwrap(), "");
    let blob = seal("gr\u{fc}\u{df}e \u{4e16}\u{754c}", "p\u{e4}ss\u{1f511}").unwrap();
    assert_eq!(unseal(&blob, "p\u{e4}ss\u{1f511}").unwrap(), "gr\u{fc}\u{df}e \u{4e16}\u{754c}");
}

#[test]
fn sealed_blob_starts_with_version_salt_and_nonce() {
    let blob = seal_with(PHRASE.as_bytes(), b"pw", &SALT, &NONCE).unwrap();
    assert_eq!(blob[0], VERSION);
    assert_eq!(&blob[1..17], &SALT);
    assert_eq!(&blob[17..29], &NONCE);
    assert_eq!(blob.len(), HEADER_LEN + PHRASE.len() + 16);
}

#[test]
fn sealed_blob_does_not_hold_the_phrase_or_the_key() {
    let blob = seal_with(PHRASE.as_bytes(), b"pw", &SALT, &NONCE).unwrap();
    assert!(!blob.windows(7).any(|window| window == b"abandon"));
    let mut key = [0u8; 32];
    ring::pbkdf2::derive(PBKDF2_HMAC_SHA256, NonZeroU32::new(PBKDF2_ITERATIONS).unwrap(), &SALT, b"pw", &mut key);
    assert!(!blob.windows(32).any(|window| window == key));
}

#[test]
fn seal_with_agrees_with_the_cipher_crate() {
    let blob = seal_with(PHRASE.as_bytes(), b"pw", &SALT, &NONCE).unwrap();

    let mut key = [0u8; 32];
    ring::pbkdf2::derive(PBKDF2_HMAC_SHA256, NonZeroU32::new(100_000).unwrap(), &SALT, b"pw", &mut key);
    let key = LessSafeKey::new(UnboundKey::new(&AES_256_GCM, &key).unwrap());
    let mut expected = vec![1u8];
    expected.extend_from_slice(&SALT);
    expected.extend_from_slice(&NONCE);
    let mut body = PHRASE.as_bytes().to_vec();
    key.seal_in_place_append_tag(
        Nonce::assume_unique_for_key(NONCE),
        Aad::from(expected.clone()),
        &mut body,
    )
    .unwrap();
    expected.extend_from_slice(&body);
    assert_eq!(blob, expected);
}

#[test]
fn seal_with_is_the_same_for_the_same_salt_and_nonce() {
    let first = seal_with(b"secret", b"pw", &SALT, &NONCE).unwrap();
    let second = seal_with(b"secret", b"pw", &SALT, &NONCE).unwrap();
    assert_eq!(first, second);
    assert_eq!(open(&first, b"pw").unwrap(), b"secret".to_vec());
}

#[test]
fn seal_with_refuses_a_salt_or_nonce_of_wrong_length() {
    assert_eq!(seal_with(b"secret", b"pw", &SALT[..15], &NONCE).err(), Some(KeyError::EntropyError));
    assert_eq!(seal_with(b"secret", b"pw", &SALT, &NONCE[..11]).err(), Some(KeyError::EntropyError));
    assert_eq!(seal_with(b"secret", b"pw", &[], &[]).err(), Some(KeyError::EntropyError));
    assert_eq!(seal_with(b"secret", b"pw", &[0u8; 17], &NONCE).err(), Some(KeyError::EntropyError));
}

#[test]
fn seal_draws_a_new_salt_and_nonce_each_time() {
    let first = seal(PHRASE, "pw").unwrap();
    let second = seal(PHRASE, "pw").unwrap();
    assert_ne!(first[1..29], second[1..29]);
    assert_ne!(first, second);
}

#[test]
fn unseal_with_another_password_fails() {
    let blob = seal(PHRASE, "correct horse").unwrap();
    assert_eq!(unseal(&blob, "correct horsf").err(), Some(KeyError::AuthenticationFailed));
    assert_eq!(unseal(&blob, "").err(), Some(KeyError::AuthenticationFailed));
    assert_eq!(unseal(&blob, "Correct horse").err(), Some(KeyError::AuthenticationFailed));
}

#[test]
fn unseal_of_a_damaged_blob_fails() {
    let blob = seal_with(PHRASE.as_bytes(), b"pw", &SALT, &NONCE).unwrap();
    let places = [0, 1, 16, 17, 28, 29, 60, blob.len() - 17, blob.len() - 16, blob.len() - 1];
    for place in places {
        let mut damaged = blob.clone();
        damaged[place] ^= 0x01;
        assert_eq!(unseal(&damaged, "pw").err(), Some(KeyError::AuthenticationFailed));
    }
}

#[test]
fn unseal_of_a_blob_with_a_flipped_version_fails_for_every_bit() {
    let blob = seal_with(PHRASE.as_bytes(), b"pw", &SALT, &NONCE).unwrap();
    for bit in 0..8 {
        let mut damaged = blob.clone();
        damaged[0] ^= 1 << bit;
        assert_eq!(unseal(&damaged, "pw").err(), Some(KeyError::AuthenticationFailed));
    }
}

#[test]
fn unseal_of_a_short_or_cut_blob_fails() {
    let blob = seal_with(PHRASE.as_bytes(), b"pw", &SALT, &NONCE).unwrap();
    assert_eq!(unseal(&[], "pw").err(), Some(KeyError::AuthenticationFailed));
    assert_eq!(unseal(&[1], "pw").err(), Some(KeyError::AuthenticationFailed));
    assert_eq!(unseal(&blob[..28], "pw").err(), Some(KeyError::AuthenticationFailed));
    assert_eq!(unseal(&blob[..29], "pw").err(), Some(KeyError::AuthenticationFailed));
    assert_eq!(unseal(&blob[..blob.len() - 1], "pw").err(), Some(KeyError::AuthenticationFailed));
    let mut longer = blob.clone();
    longer.push(0);
    assert_eq!(unseal(&longer, "pw").err(), Some(KeyError::AuthenticationFailed));
}

#[test]
fn unseal_of_the_old_unprotected_form_fails() {
    let mut old = PHRASE.as_bytes().to_vec();
    old.extend_from_slice(&NONCE);
    assert_eq!(unseal(&old, "pw").err(), Some(KeyError::AuthenticationFailed));
}

#[test]
fn unseal_of_bytes_that_are_no_text_fails() {
    let blob = seal_with(&[0xff, 0xfe, 0x80], b"pw", &SALT, &NONCE).unwrap();
    assert_eq!(open(&blob, b"pw").unwrap(), vec![0xff, 0xfe, 0x80]);
    assert_eq!(unseal(&blob, "pw").err(), Some(KeyError::AuthenticationFailed));
}

#[test]
fn open_gives_the_bytes_that_were_sealed() {
    let blob = seal_with(&[0, 1, 2, 3], &[9, 9], &SALT, &NONCE).unwrap();
    assert_eq!(open(&blob, &[9, 9]).unwrap(), vec![0, 1, 2, 3]);
    assert_eq!(open(&blob, &[9]).err(), Some(KeyError::AuthenticationFailed));
}

#[test]
fn sealed_blob_is_forty_five_bytes_longer_than_the_plaintext() {
    for len in [0usize, 1, 15, 16, 17, 100, 1000] {
        let plaintext = vec![0xabu8; len];
        let blob = seal_with(&plaintext, b"pw", &SALT, &NONCE).unwrap();
        assert_eq!(blob.len(), HEADER_LEN + len + TAG_LEN);
        assert_eq!(open(&blob, b"pw").unwrap(), plaintext);
    }
    let blob = seal(PHRASE, "pw").unwrap();
    assert_eq!(blob.len(), PHRASE.len() + 45);
    let blob = seal("gr\u{fc}n", "").unwrap();
    assert_eq!(blob.len(), 5 + 45);
}

#[test]
fn sealing_takes_a_long_password() {
    let password = vec![0x70u8; 3_000_000];
    let blob = seal_with(b"secret", &password, &SALT, &NONCE).unwrap();
    assert_eq!(open(&blob, &password).unwrap(), b"secret".to_vec());
    assert_eq!(open(&blob, &password[1..]).err(), Some(KeyError::AuthenticationFailed));
}

#[test]
fn sealing_succeeds_for_any_password_and_phrase() {
    let long = "x".repeat(5000);
    for (phrase, password) in [("", ""), ("a", ""), ("", "b"), (long.as_str(), long.as_str())] {
        let blob = seal(phrase, password).unwrap();
        assert_eq!(unseal(&blob, password).unwrap(), phrase);
    }
}
