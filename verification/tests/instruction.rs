use custom_token::address::Address;
use custom_token::instruction::init_token;
use custom_token::instruction::Context;
use custom_token::instruction::CreateMetadataAccounts;
use custom_token::instruction::InitToken;
use custom_token::instruction::InitTokenBumps;
use custom_token::instruction::InitTokenParams;
use custom_token::metadata::TokenData;

fn accounts() -> InitToken {
    InitToken {
        metadata: Address::new([1u8; 32]),
        mint: Address::new([2u8; 32]),
        payer: Address::new([3u8; 32]),
        rent: Address::new([4u8; 32]),
        system_program: Address::new([5u8; 32]),
        token_program: Address::new([6u8; 32]),
        token_metadata_program: Address::new([7u8; 32]),
    }
}

fn context(bump: u8) -> Context {
    Context {
        program_id: Address::new([8u8; 32]),
        accounts: accounts(),
        bumps: InitTokenBumps { mint: bump },
    }
}

fn example() -> InitTokenParams {
    InitTokenParams {
        name: "Example".to_string(),
        symbol: "EX".to_string(),
        uri: "https://x/meta.json".to_string(),
        decimals: 6,
    }
}

#[test]
fn request_carries_the_texts() {
    let request = init_token(&context(254), example());
    assert_eq!(request.data.name, "Example");
    assert_eq!(request.data.symbol, "EX");
    assert_eq!(request.data.uri, "https://x/meta.json");
    assert_eq!(request.data.seller_fee_basis_points, 0);
    assert_eq!(request.data.creators, None);
    assert_eq!(request.data.collection, None);
    assert_eq!(request.data.uses, None);
}

#[test]
fn request_is_immutable_and_signed_by_its_authority() {
    let request = init_token(&context(254), example());
    assert!(!request.is_mutable);
    assert!(request.update_authority_is_signer);
    assert_eq!(request.collection_details, None);
}

#[test]
fn request_goes_to_the_registry_with_the_mint_as_authority() {
    let request = init_token(&context(254), example());
    assert_eq!(request.program, Address::new([7u8; 32]));
    assert_eq!(
        request.accounts,
        CreateMetadataAccounts {
            metadata: Address::new([1u8; 32]),
            mint: Address::new([2u8; 32]),
            mint_authority: Address::new([2u8; 32]),
            payer: Address::new([3u8; 32]),
            update_authority: Address::new([2u8; 32]),
            system_program: Address::new([5u8; 32]),
            rent: Address::new([4u8; 32]),
        }
    );
}

#[test]
fn request_is_signed_with_seed_and_bump() {
    let request = init_token(&context(254), example());
    assert_eq!(request.signer_seeds, vec![b"mint".to_vec(), vec![254u8]]);
    let request = init_token(&context(1), example());
    assert_eq!(request.signer_seeds, vec![b"mint".to_vec(), vec![1u8]]);
}

#[test]
fn request_takes_empty_and_long_texts_as_they_are() {
    let long = "u".repeat(500);
    let params = InitTokenParams {
        name: String::new(),
        symbol: String::new(),
        uri: long.clone(),
        decimals: 255,
    };
    let request = init_token(&context(9), params);
    assert_eq!(request.data.name, "");
    assert_eq!(request.data.symbol, "");
    assert_eq!(request.data.uri, long);
}

#[test]
fn plain_data_has_no_fee_and_no_links() {
    let data = TokenData::plain("N".to_string(), "S".to_string(), "U".to_string());
    assert_eq!(
        data,
        TokenData {
            name: "N".to_string(),
            symbol: "S".to_string(),
            uri: "U".to_string(),
            seller_fee_basis_points: 0,
            creators: None,
            collection: None,
            uses: None,
        }
    );
}
