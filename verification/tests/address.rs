use anchor_lang::solana_program::pubkey::Pubkey;
use custom_token::address::find_mint_address;
use custom_token::address::mint_seed_bytes;
use custom_token::address::mint_signer_seeds;
use custom_token::address::signing_address;
use custom_token::address::signing_proof_matches;
use custom_token::address::Address;
use custom_token::address::AddressError;
use custom_token::address::ADDRESS_BYTES;
use custom_token::address::MAX_SEEDS;
use custom_token::address::MAX_SEED_LEN;
use std::str::FromStr;

fn program() -> Address {
    let key = Pubkey::from_str("9EQj1fWttG6tLmGnyZShJFWpBGmQd1FHFTzjTYHYsGSK").unwrap();
    Address::new(key.to_bytes())
}

fn other_program() -> Address {
    Address::new([7u8; 32])
}

#[test]
fn limits_are_those_of_the_ledger() {
    assert_eq!(ADDRESS_BYTES, 32);
    assert_eq!(MAX_SEED_LEN, 32);
    assert_eq!(MAX_SEEDS, 16);
}

#[test]
fn mint_seed_is_the_word_mint() {
    assert_eq!(mint_seed_bytes(), b"mint".to_vec());
    assert_eq!(mint_seed_bytes(), vec![109u8, 105, 110, 116]);
}

#[test]
fn signer_seeds_are_seed_then_bump() {
    assert_eq!(mint_signer_seeds(254), vec![b"mint".to_vec(), vec![254u8]]);
    assert_eq!(mint_signer_seeds(0), vec![b"mint".to_vec(), vec![0u8]]);
}

#[test]
fn address_new_keeps_bytes() {
    let mut bytes = [0u8; 32];
    bytes[0] = 1;
    bytes[31] = 255;
    let address = Address::new(bytes);
    assert_eq!(address.bytes, bytes);
}

#[test]
fn same_compares_all_bytes() {
    let mut bytes = [3u8; 32];
    let first = Address::new(bytes);
    assert!(first.same(&Address::new(bytes)));
    bytes[31] = 4;
    assert!(!first.same(&Address::new(bytes)));
    bytes[31] = 3;
    bytes[0] = 4;
    assert!(!first.same(&Address::new(bytes)));
}

#[test]
fn derivation_is_repeatable() {
    let first = find_mint_address(&program());
    let second = find_mint_address(&program());
    assert!(first.is_some());
    assert_eq!(first, second);
}

#[test]
fn derivation_agrees_with_the_ledger() {
    let key = Pubkey::from_str("9EQj1fWttG6tLmGnyZShJFWpBGmQd1FHFTzjTYHYsGSK").unwrap();
    let (expected, expected_bump) = Pubkey::find_program_address(&[b"mint"], &key);
    let (address, bump) = find_mint_address(&program()).unwrap();
    assert_eq!(address.bytes, expected.to_bytes());
    assert_eq!(bump, expected_bump);
    assert_ne!(address, program());
}

#[test]
fn derivation_depends_on_the_program() {
    let (first, _) = find_mint_address(&program()).unwrap();
    let (second, _) = find_mint_address(&other_program()).unwrap();
    assert_ne!(first, second);
}

#[test]
fn derived_address_is_off_the_curve() {
    let (address, _) = find_mint_address(&program()).unwrap();
    assert!(!Pubkey::new_from_array(address.bytes).is_on_curve());
}

#[test]
fn canonical_bump_signs_for_the_mint() {
    for program in [program(), other_program(), Address::new([0u8; 32])] {
        let (address, bump) = find_mint_address(&program).unwrap();
        assert!(bump >= 1);
        assert_eq!(signing_address(&program, bump), Ok(address));
        assert!(signing_proof_matches(&program, bump, &address));
    }
}

#[test]
fn higher_bumps_fail_on_the_curve() {
    for seed in 0u8..40 {
        let program = Address::new([seed; 32]);
        let (_, bump) = find_mint_address(&program).unwrap();
        let mut higher = 255u8;
        while higher > bump {
            assert_eq!(signing_address(&program, higher), Err(AddressError::InvalidSeeds));
            assert!(!signing_proof_matches(&program, higher, &program));
            higher -= 1;
        }
    }
}

#[test]
fn signing_address_agrees_with_the_ledger() {
    let key = Pubkey::new_from_array([9u8; 32]);
    let program = Address::new([9u8; 32]);
    for bump in 0u8..=255 {
        let expected = Pubkey::create_program_address(&[b"mint", &[bump]], &key);
        match signing_address(&program, bump) {
            Ok(address) => assert_eq!(address.bytes, expected.unwrap().to_bytes()),
            Err(error) => {
                assert_eq!(error, AddressError::InvalidSeeds);
                assert!(expected.is_err());
            }
        }
    }
}

#[test]
fn proof_for_another_address_does_not_match() {
    let (address, bump) = find_mint_address(&program()).unwrap();
    assert!(!signing_proof_matches(&program(), bump, &program()));
    assert!(!signing_proof_matches(&other_program(), bump, &address));
}
