use anchor_lang::prelude::Pubkey as SolanaPubkey;
use nft_gallery::errors::NFTError;
use nft_gallery::nft_gallery::{category, close, favorite, initialize, initialize_at};
use nft_gallery::states::NFT;
use nft_gallery::store::Gallery;

const PROGRAM_ID: [u8; 32] = [
    240, 73, 66, 171, 114, 26, 184, 233, 11, 107, 121, 123, 144, 10, 33, 238, 91, 13, 239, 141, 16,
    134, 68, 127, 68, 253, 216, 133, 155, 124, 73, 75,
];

const ALICE: [u8; 32] = [1u8; 32];
const BOB: [u8; 32] = [2u8; 32];
const TOKEN: [u8; 32] = [7u8; 32];

fn expected_address(user: [u8; 32], token: [u8; 32]) -> ([u8; 32], u8) {
    let program = SolanaPubkey::new_from_array(PROGRAM_ID);
    let (a, bump) = SolanaPubkey::find_program_address(&[b"nft", &user, &token], &program);
    (a.to_bytes(), bump)
}

fn gallery_with_alice_record() -> (Gallery, [u8; 32]) {
    let mut g = Gallery::new(PROGRAM_ID);
    let address = initialize(&mut g, ALICE, TOKEN).unwrap();
    (g, address)
}

#[test]
fn create_then_read_gives_fresh_record() {
    let (g, address) = gallery_with_alice_record();
    let (expected, bump) = expected_address(ALICE, TOKEN);
    assert_eq!(address, expected);
    let nft = g.get(&address).unwrap();
    assert_eq!(nft.owner, ALICE);
    assert_eq!(nft.token_id, TOKEN);
    assert!(!nft.favorite);
    assert_eq!(nft.category, "");
    assert_eq!(nft.bump, bump);
    assert_eq!(g.program_id(), PROGRAM_ID);
}

#[test]
fn addresses_differ_by_owner_and_token() {
    let mut g = Gallery::new(PROGRAM_ID);
    let a1 = initialize(&mut g, ALICE, TOKEN).unwrap();
    let a2 = initialize(&mut g, BOB, TOKEN).unwrap();
    let a3 = initialize(&mut g, ALICE, [9u8; 32]).unwrap();
    assert_ne!(a1, a2);
    assert_ne!(a1, a3);
    assert_ne!(a2, a3);
    assert_eq!(g.get(&a2).unwrap().owner, BOB);
}

#[test]
fn create_with_zero_token_fails_and_leaves_nothing() {
    let mut g = Gallery::new(PROGRAM_ID);
    let zero = [0u8; 32];
    assert_eq!(initialize(&mut g, ALICE, zero), Err(NFTError::InvalidTokenId));
    let (address, _) = expected_address(ALICE, zero);
    assert!(!g.contains(&address));
    assert_eq!(g.get(&address).err(), Some(NFTError::NotFound));
}

#[test]
fn create_with_zero_user_fails() {
    let mut g = Gallery::new(PROGRAM_ID);
    let zero = [0u8; 32];
    assert_eq!(initialize(&mut g, zero, TOKEN), Err(NFTError::InvalidUser));
    let (address, _) = expected_address(zero, TOKEN);
    assert!(!g.contains(&address));
}

#[test]
fn create_twice_fails_with_account_in_use() {
    let (mut g, address) = gallery_with_alice_record();
    favorite(&mut g, ALICE, address).unwrap();
    assert_eq!(initialize(&mut g, ALICE, TOKEN), Err(NFTError::AccountAlreadyInUse));
    assert!(g.get(&address).unwrap().favorite);
}

#[test]
fn create_without_derived_address_fails() {
    let mut g = Gallery::new(PROGRAM_ID);
    assert_eq!(initialize_at(&mut g, ALICE, TOKEN, None), Err(NFTError::InvalidAddressSeeds));
    let address = [5u8; 32];
    assert_eq!(initialize_at(&mut g, ALICE, TOKEN, Some((address, 254))), Ok(address));
    let nft = g.get(&address).unwrap();
    assert_eq!(nft.bump, 254);
    assert_eq!(nft.owner, ALICE);
}

#[test]
fn toggle_once_negates_and_twice_restores() {
    let (mut g, address) = gallery_with_alice_record();
    assert_eq!(favorite(&mut g, ALICE, address), Ok(()));
    assert!(g.get(&address).unwrap().favorite);
    assert_eq!(favorite(&mut g, ALICE, address), Ok(()));
    assert!(!g.get(&address).unwrap().favorite);
}

#[test]
fn category_of_eleven_bytes_is_rejected() {
    let (mut g, address) = gallery_with_alice_record();
    assert_eq!(
        category(&mut g, ALICE, address, "abcdefghijk".to_string()),
        Err(NFTError::UpdateCategoryInvalidLength)
    );
    assert_eq!(g.get(&address).unwrap().category, "");
}

#[test]
fn category_of_ten_bytes_round_trips() {
    let (mut g, address) = gallery_with_alice_record();
    assert_eq!(category(&mut g, ALICE, address, "abcdefghij".to_string()), Ok(()));
    assert_eq!(g.get(&address).unwrap().category.as_bytes(), b"abcdefghij");
    assert_eq!(category(&mut g, ALICE, address, "art".to_string()), Ok(()));
    assert_eq!(g.get(&address).unwrap().category, "art");
}

#[test]
fn category_length_counts_encoded_bytes() {
    let (mut g, address) = gallery_with_alice_record();
    assert_eq!(category(&mut g, ALICE, address, "ééééé".to_string()), Ok(()));
    assert_eq!(
        category(&mut g, ALICE, address, "éééééé".to_string()),
        Err(NFTError::UpdateCategoryInvalidLength)
    );
    assert_eq!(g.get(&address).unwrap().category, "ééééé");
}

#[test]
fn non_owner_is_refused_everywhere() {
    let (mut g, address) = gallery_with_alice_record();
    category(&mut g, ALICE, address, "games".to_string()).unwrap();
    assert_eq!(favorite(&mut g, BOB, address), Err(NFTError::UnauthorizedUser));
    assert_eq!(
        category(&mut g, BOB, address, "x".to_string()),
        Err(NFTError::UnauthorizedUser)
    );
    assert_eq!(
        category(&mut g, BOB, address, "far too long for it".to_string()),
        Err(NFTError::UnauthorizedUser)
    );
    assert_eq!(close(&mut g, BOB, address), Err(NFTError::UnauthorizedUser));
    let nft = g.get(&address).unwrap();
    assert_eq!(nft.owner, ALICE);
    assert!(!nft.favorite);
    assert_eq!(nft.category, "games");
}

#[test]
fn close_then_read_and_close_report_not_found() {
    let (mut g, address) = gallery_with_alice_record();
    assert_eq!(close(&mut g, ALICE, address), Ok(()));
    assert_eq!(g.get(&address).err(), Some(NFTError::NotFound));
    assert!(!g.contains(&address));
    assert_eq!(close(&mut g, ALICE, address), Err(NFTError::NotFound));
    assert_eq!(close(&mut g, BOB, address), Err(NFTError::NotFound));
    assert_eq!(favorite(&mut g, ALICE, address), Err(NFTError::NotFound));
    assert_eq!(
        category(&mut g, ALICE, address, "a".to_string()),
        Err(NFTError::NotFound)
    );
}

#[test]
fn close_frees_address_for_recreation() {
    let (mut g, address) = gallery_with_alice_record();
    favorite(&mut g, ALICE, address).unwrap();
    close(&mut g, ALICE, address).unwrap();
    assert_eq!(initialize(&mut g, ALICE, TOKEN), Ok(address));
    assert!(!g.get(&address).unwrap().favorite);
}

#[test]
fn close_leaves_other_records() {
    let mut g = Gallery::new(PROGRAM_ID);
    let a1 = initialize(&mut g, ALICE, TOKEN).unwrap();
    let a2 = initialize(&mut g, BOB, TOKEN).unwrap();
    close(&mut g, ALICE, a1).unwrap();
    assert_eq!(g.get(&a2).unwrap().owner, BOB);
}

#[test]
fn error_messages_are_not_empty() {
    assert_eq!(NFTError::UnauthorizedUser.message(), "Unauthorized User");
    assert_eq!(NFTError::InvalidTokenId.message(), "Cannot initialize, invalid Token ID");
    assert!(!NFTError::NotFound.message().is_empty());
}
