use helium_ledger_report::identity::{AccountIdentity, IdentityError};

const ADDR_A: &str = "13WRNw4fmssJBvMqMnREwe1eCvUVXfnWXSXGcWXyVvAnQUF3D9R";
const ADDR_B: &str = "14YeKFGXE23yAdACj6hu5NWEcYzzKxptYbm5jHgzw9A1P1UQfMv";

#[test]
fn parse_valid_address_keeps_display() {
    let id = AccountIdentity::parse(ADDR_A).unwrap();
    assert_eq!(id.to_display(), ADDR_A);
    // version byte, key type byte and a 32-byte key
    assert_eq!(id.as_bytes().len(), 34);
    assert_eq!(id.as_bytes()[0], 0);
}

#[test]
fn parse_display_parse_round_trip() {
    let first = AccountIdentity::parse(ADDR_B).unwrap();
    let second = AccountIdentity::parse(&first.to_display()).unwrap();
    assert_eq!(first.as_bytes(), second.as_bytes());
    assert_eq!(first.to_display(), second.to_display());
}

#[test]
fn parse_rejects_malformed_strings() {
    assert_eq!(AccountIdentity::parse("not-an-address").unwrap_err(), IdentityError::InvalidIdentity);
    assert_eq!(AccountIdentity::parse("").unwrap_err(), IdentityError::InvalidIdentity);
    // last character changed: the checksum no longer matches
    let mut bad = ADDR_A.to_string();
    bad.pop();
    bad.push('S');
    assert_eq!(AccountIdentity::parse(&bad).unwrap_err(), IdentityError::InvalidIdentity);
}

#[test]
fn from_bytes_encodes_and_parses_back() {
    let id = AccountIdentity::from_bytes(vec![0, 1, 2, 3]);
    let shown = id.to_display();
    assert_ne!(shown.as_bytes(), &[0u8, 1, 2, 3][..]);
    assert!(shown.starts_with('1'));
    let back = AccountIdentity::parse(&shown).unwrap();
    assert_eq!(back.as_bytes(), &[0u8, 1, 2, 3][..]);
}

#[test]
fn matches_compares_binary_form() {
    let a = AccountIdentity::parse(ADDR_A).unwrap();
    let b = AccountIdentity::parse(ADDR_B).unwrap();
    assert!(a.matches(a.as_bytes()));
    assert!(!a.matches(b.as_bytes()));
    assert!(a.same_account(&a.duplicate()));
    assert!(!a.same_account(&b));
}
