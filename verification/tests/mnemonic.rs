use wallet_keys::hex::encode;
use wallet_keys::mnemonic::ENTROPY_LEN;
use wallet_keys::{KeyError, RecoveryPhrase};

const PHRASE: &str =
    "abandon abandon abandon abandon abandon abandon abandon abandon abandon abandon abandon about";

#[test]
fn validate_accepts_a_standard_phrase() {
    let phrase = RecoveryPhrase::validate(PHRASE).unwrap();
    assert_eq!(phrase.as_str(), PHRASE);
}

#[test]
fn validate_accepts_longer_phrases() {
    let eighteen = "abandon abandon abandon abandon abandon abandon abandon abandon abandon abandon abandon abandon abandon abandon abandon abandon abandon agent";
    let twenty_four = "abandon abandon abandon abandon abandon abandon abandon abandon abandon abandon abandon abandon abandon abandon abandon abandon abandon abandon abandon abandon abandon abandon abandon art";
    assert_eq!(RecoveryPhrase::validate(eighteen).unwrap().as_str(), eighteen);
    assert_eq!(RecoveryPhrase::validate(twenty_four).unwrap().as_str(), twenty_four);
}

#[test]
fn validate_normalizes_white_space() {
    let text = "  abandon abandon\tabandon abandon   abandon abandon abandon abandon abandon abandon abandon about\n";
    let phrase = RecoveryPhrase::validate(text).unwrap();
    assert_eq!(phrase.as_str(), PHRASE);
    assert_eq!(phrase.into_string(), PHRASE);
}

#[test]
fn validate_refuses_a_wrong_word_count() {
    assert_eq!(RecoveryPhrase::validate("").err(), Some(KeyError::InvalidPhrase));
    assert_eq!(RecoveryPhrase::validate("abandon").err(), Some(KeyError::InvalidPhrase));
    let eleven = "abandon abandon abandon abandon abandon abandon abandon abandon abandon abandon about";
    assert_eq!(RecoveryPhrase::validate(eleven).err(), Some(KeyError::InvalidPhrase));
    let thirteen = "abandon abandon abandon abandon abandon abandon abandon abandon abandon abandon abandon abandon about";
    assert_eq!(RecoveryPhrase::validate(thirteen).err(), Some(KeyError::InvalidPhrase));
}

#[test]
fn validate_refuses_an_unknown_word() {
    let text = "abandon abandon abandon abandon abandon abandon abandon abandon abandon abandon abandon abouts";
    assert_eq!(RecoveryPhrase::validate(text).err(), Some(KeyError::InvalidPhrase));
    let joined = "abandonabandon abandon abandon abandon abandon abandon abandon abandon abandon abandon about";
    assert_eq!(RecoveryPhrase::validate(joined).err(), Some(KeyError::InvalidPhrase));
}

#[test]
fn validate_folds_the_case() {
    let upper = "ABANDON abandon abandon abandon abandon abandon abandon abandon abandon abandon abandon about";
    assert_eq!(RecoveryPhrase::validate(upper).unwrap().as_str(), PHRASE);
    let mixed = "  ABANDON abandon abandon abandon abandon abandon abandon abandon abandon abandon abandon About ";
    assert_eq!(RecoveryPhrase::validate(mixed).unwrap().as_str(), PHRASE);
    let all = PHRASE.to_uppercase();
    assert_eq!(RecoveryPhrase::validate(&all).unwrap().as_str(), PHRASE);
    let bad = "ABANDON ABANDON ABANDON ABANDON ABANDON ABANDON ABANDON ABANDON ABANDON ABANDON ABANDON ABANDON";
    assert_eq!(RecoveryPhrase::validate(bad).err(), Some(KeyError::InvalidPhrase));
}

#[test]
fn validate_accepts_every_word_count_of_the_standard() {
    for bytes in [16usize, 20, 24, 28, 32] {
        let phrase = RecoveryPhrase::from_entropy(&vec![0x5au8; bytes]).unwrap();
        assert_eq!(phrase.as_str().split(' ').count(), bytes * 3 / 4);
        let again = RecoveryPhrase::validate(phrase.as_str()).unwrap();
        assert_eq!(again.as_str(), phrase.as_str());
    }
}

#[test]
fn validate_refuses_a_bad_checksum() {
    let text = "abandon abandon abandon abandon abandon abandon abandon abandon abandon abandon abandon abandon";
    assert_eq!(RecoveryPhrase::validate(text).err(), Some(KeyError::InvalidPhrase));
}

#[test]
fn generate_gives_twelve_valid_words() {
    for _ in 0..8 {
        let phrase = RecoveryPhrase::generate().unwrap();
        assert_eq!(phrase.as_str().split(' ').count(), 12);
        let again = RecoveryPhrase::validate(phrase.as_str()).unwrap();
        assert_eq!(again.as_str(), phrase.as_str());
    }
}

#[test]
fn generate_gives_a_new_phrase_each_time() {
    let first = RecoveryPhrase::generate().unwrap();
    let second = RecoveryPhrase::generate().unwrap();
    assert_ne!(first.as_str(), second.as_str());
}

#[test]
fn from_entropy_gives_the_standard_phrases() {
    assert_eq!(RecoveryPhrase::from_entropy(&[0u8; 16]).unwrap().as_str(), PHRASE);
    assert_eq!(
        RecoveryPhrase::from_entropy(&[0x7fu8; 16]).unwrap().as_str(),
        "legal winner thank year wave sausage worth useful legal winner thank yellow"
    );
    assert_eq!(
        RecoveryPhrase::from_entropy(&[0x80u8; 16]).unwrap().as_str(),
        "letter advice cage absurd amount doctor acoustic avoid letter advice cage above"
    );
    assert_eq!(
        RecoveryPhrase::from_entropy(&[0xffu8; 16]).unwrap().as_str(),
        "zoo zoo zoo zoo zoo zoo zoo zoo zoo zoo zoo wrong"
    );
}

#[test]
fn from_entropy_of_sixteen_bytes_has_twelve_words() {
    assert_eq!(ENTROPY_LEN, 16);
    for seed in 0..32u8 {
        let entropy: Vec<u8> = (0..16u8).map(|i| i.wrapping_mul(seed).wrapping_add(seed)).collect();
        let phrase = RecoveryPhrase::from_entropy(&entropy).unwrap();
        assert_eq!(phrase.as_str().split(' ').count(), 12);
        assert_eq!(phrase.as_str(), phrase.as_str().to_lowercase());
    }
}

#[test]
fn from_entropy_succeeds_for_every_length_of_the_standard() {
    for len in 0..40usize {
        let made = RecoveryPhrase::from_entropy(&vec![0xc3u8; len]);
        assert_eq!(made.is_ok(), len % 4 == 0 && 16 <= len && len <= 32);
    }
}

#[test]
fn from_entropy_refuses_a_wrong_length() {
    assert_eq!(RecoveryPhrase::from_entropy(&[]).err(), Some(KeyError::EntropyError));
    assert_eq!(RecoveryPhrase::from_entropy(&[1u8; 15]).err(), Some(KeyError::EntropyError));
    assert_eq!(RecoveryPhrase::from_entropy(&[1u8; 17]).err(), Some(KeyError::EntropyError));
    assert_eq!(RecoveryPhrase::from_entropy(&[1u8; 12]).err(), Some(KeyError::EntropyError));
    assert_eq!(RecoveryPhrase::from_entropy(&[1u8; 36]).err(), Some(KeyError::EntropyError));
}

#[test]
fn to_seed_with_an_empty_passphrase() {
    let phrase = RecoveryPhrase::validate(PHRASE).unwrap();
    let seed = phrase.to_seed("");
    assert_eq!(seed.len(), 64);
    assert_eq!(
        encode(&seed),
        "5eb00bbddcf069084889a8ab9155568165f5c453ccb85e70811aaed6f6da5fc19a5ac40b389cd370d086206dec8aa6c43daea6690f20ad3d8d48b2d2ce9e38e4"
    );
}

#[test]
fn to_seed_with_a_passphrase() {
    let phrase = RecoveryPhrase::validate(PHRASE).unwrap();
    assert_eq!(
        encode(&phrase.to_seed("TREZOR")),
        "c55257c360c07c72029aebc1b53c05ed0362ada38ead3e3e9efa3708e53495531f09a6987599d18264c1e1c92f2cf141630c7a3c4ab7c81b2f001698e7463b04"
    );
}

#[test]
fn to_seed_is_the_same_every_time() {
    let phrase = RecoveryPhrase::validate(PHRASE).unwrap();
    assert_eq!(phrase.to_seed("one"), phrase.to_seed("one"));
    assert_ne!(phrase.to_seed("one"), phrase.to_seed("two"));
    let other = RecoveryPhrase::validate(&format!("  {}  ", PHRASE)).unwrap();
    assert_eq!(other.to_seed("one"), phrase.to_seed("one"));
}
