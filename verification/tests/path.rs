use wallet_keys::path::{numbers_from, HARDENED_BIT};
use wallet_keys::{DerivationPath, KeyError};

#[test]
fn master_path_is_empty() {
    let path = DerivationPath::master();
    assert_eq!(path.len(), 0);
}

#[test]
fn parse_of_m_is_the_master_path() {
    let path = DerivationPath::parse("m").unwrap();
    assert_eq!(path.len(), 0);
}

#[test]
fn parse_reads_hardened_and_normal_children() {
    let path = DerivationPath::parse("m/0'/0/0").unwrap();
    assert_eq!(path.len(), 3);
    assert_eq!(path.number(0), 0x8000_0000);
    assert_eq!(path.number(1), 0);
    assert_eq!(path.number(2), 0);
    assert!(path.is_hardened(0));
    assert!(!path.is_hardened(1));
    assert_eq!(path.index(0), 0);
}

#[test]
fn parse_reads_both_hardened_markers() {
    let path = DerivationPath::parse("m/44'/60h/2147483647'/7").unwrap();
    assert_eq!(path.len(), 4);
    assert_eq!(path.number(0), 0x8000_0000 + 44);
    assert_eq!(path.number(1), 0x8000_0000 + 60);
    assert_eq!(path.number(2), 0xFFFF_FFFF);
    assert_eq!(path.number(3), 7);
    assert_eq!(path.index(0), 44);
    assert_eq!(path.index(2), 0x7FFF_FFFF);
    assert_eq!(path.index(3), 7);
    assert!(path.is_hardened(2));
    assert!(!path.is_hardened(3));
}

#[test]
fn parse_refuses_a_component_that_is_no_number() {
    assert_eq!(DerivationPath::parse("m/abc").unwrap_err(), KeyError::InvalidPath);
    assert_eq!(DerivationPath::parse("m/0'/x/0").unwrap_err(), KeyError::InvalidPath);
    assert_eq!(DerivationPath::parse("m/1.5").unwrap_err(), KeyError::InvalidPath);
    assert_eq!(DerivationPath::parse("m/-1").unwrap_err(), KeyError::InvalidPath);
}

#[test]
fn parse_refuses_malformed_text() {
    assert_eq!(DerivationPath::parse("").unwrap_err(), KeyError::InvalidPath);
    assert_eq!(DerivationPath::parse("0/1").unwrap_err(), KeyError::InvalidPath);
    assert_eq!(DerivationPath::parse("m/").unwrap_err(), KeyError::InvalidPath);
    assert_eq!(DerivationPath::parse("m//0").unwrap_err(), KeyError::InvalidPath);
    assert_eq!(DerivationPath::parse("n/0").unwrap_err(), KeyError::InvalidPath);
    assert_eq!(DerivationPath::parse("m/0''").unwrap_err(), KeyError::InvalidPath);
}

#[test]
fn parse_refuses_an_index_that_does_not_fit() {
    assert_eq!(DerivationPath::parse("m/2147483648").unwrap_err(), KeyError::InvalidPath);
    assert_eq!(DerivationPath::parse("m/2147483648'").unwrap_err(), KeyError::InvalidPath);
    assert_eq!(DerivationPath::parse("m/4294967296").unwrap_err(), KeyError::InvalidPath);
}

#[test]
fn numbers_from_sets_the_hardened_bit() {
    let components = vec![(0u32, true), (1u32, false), (0x7FFF_FFFFu32, true)];
    assert_eq!(numbers_from(&components), Some(vec![HARDENED_BIT, 1, 0xFFFF_FFFF]));
    assert_eq!(numbers_from(&Vec::new()), Some(Vec::new()));
}

#[test]
fn numbers_from_refuses_an_index_with_the_hardened_bit() {
    assert_eq!(numbers_from(&vec![(3u32, false), (0x8000_0000u32, false)]), None);
    assert_eq!(numbers_from(&vec![(0xFFFF_FFFFu32, true)]), None);
}

#[test]
fn parse_reads_numbers_as_the_standard_library_does() {
    let path = DerivationPath::parse("m/+1/007/0000000000000000000012'/+0h/2147483647").unwrap();
    assert_eq!(path.len(), 5);
    assert_eq!(path.number(0), 1);
    assert_eq!(path.number(1), 7);
    assert_eq!(path.number(2), 0x8000_0000 + 12);
    assert_eq!(path.number(3), 0x8000_0000);
    assert_eq!(path.number(4), 0x7FFF_FFFF);
}

#[test]
fn parse_refuses_what_is_no_component() {
    let texts = [
        "m/+", "m/+'", "m/'", "m/h", "m/++1", "m/1+", "m/-0", "m/1h'", "m/1'h", "m/1''", "m/h1",
        "m/ 1", "m/1 ", "m/1_0", "m/0x10", "m/1e3", "m/\u{661}", "m/\u{ff11}", "m/1\u{2019}",
        "m/1H", "M/1", "m /1", " m/1", "m\n", "/m", "m/1/", "m//", "/", "mm", "m'", "mh",
        "m/4294967295", "m/4294967296", "m/99999999999999999999", "m/2147483648h",
    ];
    for text in texts {
        assert_eq!(DerivationPath::parse(text).err(), Some(KeyError::InvalidPath), "{:?}", text);
    }
}

#[test]
fn parse_splits_at_every_slash() {
    assert_eq!(DerivationPath::parse("m").unwrap().len(), 0);
    assert_eq!(DerivationPath::parse("m/0").unwrap().len(), 1);
    assert_eq!(DerivationPath::parse("m/0/1h/2'/3").unwrap().len(), 4);
    let mut text = String::from("m");
    for level in 0..300u32 {
        text.push_str(&format!("/{}", level));
    }
    let path = DerivationPath::parse(&text).unwrap();
    assert_eq!(path.len(), 300);
    assert_eq!(path.number(299), 299);
}
