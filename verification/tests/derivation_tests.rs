use anchor_lang::prelude::Pubkey;
use custody_bridge::controller::instructions::initialize::initialize;
use custody_bridge::derivation::{derive_identity, derive_record_address};
use custody_bridge::digest::digests_equal;
use custody_bridge::identity::Identity;

fn id(n: u8) -> Identity {
    Identity::new_from_array([n; 32])
}

#[test]
fn derived_identity_is_the_program_address() {
    let (identity, bump) = derive_identity(&id(102), "factory").unwrap();
    let (key, expected_bump) =
        Pubkey::find_program_address(&[b"factory"], &Pubkey::new_from_array([102; 32]));
    assert_eq!(identity.bytes, key.to_bytes());
    assert_eq!(bump, expected_bump);
    assert_ne!(identity, id(102));
}

#[test]
fn derivation_is_reproducible_and_tells_labels_and_owners_apart() {
    let a = derive_identity(&id(102), "factory").unwrap();
    let b = derive_identity(&id(102), "factory").unwrap();
    assert_eq!(a, b);
    assert_ne!(a.0, derive_identity(&id(102), "controller").unwrap().0);
    assert_ne!(a.0, derive_identity(&id(103), "factory").unwrap().0);
}

#[test]
fn record_address_uses_label_and_key() {
    let (address, bump) = derive_record_address(&id(100), "merchant_info", &[5u8; 32]).unwrap();
    let (key, expected_bump) = Pubkey::find_program_address(
        &[b"merchant_info", &[5u8; 32]],
        &Pubkey::new_from_array([100; 32]),
    );
    assert_eq!(address.bytes, key.to_bytes());
    assert_eq!(bump, expected_bump);
}

#[test]
fn record_address_refuses_a_key_that_is_too_long() {
    assert_eq!(derive_record_address(&id(100), "merchant_info", &[5u8; 33]), None);
}

#[test]
fn capability_holds_what_was_derived() {
    let capability = initialize(id(101), id(1), id(50)).unwrap().0.authority;
    let (identity, bump) = derive_identity(&id(101), "controller").unwrap();
    assert_eq!(capability.deriver(), id(101));
    assert_eq!(capability.identity(), identity);
    assert_eq!(capability.bump(), bump);
    assert!(capability.is_derived_from(&id(101), "controller"));
    assert!(!capability.is_derived_from(&id(103), "controller"));
    assert!(!capability.is_derived_from(&id(101), "factory"));
}

#[test]
fn identities_compare_by_their_bytes() {
    let mut bytes = [9u8; 32];
    assert!(id(9).same(&Identity::new_from_array(bytes)));
    bytes[17] = 8;
    assert!(!id(9).same(&Identity::new_from_array(bytes)));
}

#[test]
fn digests_compare_by_their_bytes() {
    let a = [3u8; 32];
    let mut b = [3u8; 32];
    assert!(digests_equal(&a, &b));
    b[31] = 4;
    assert!(!digests_equal(&a, &b));
}
