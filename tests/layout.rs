use nft_gallery::guard::{is_default_key, is_owner, keys_equal};
use nft_gallery::instructions::close_nft::{close_nft, CloseNFT};
use nft_gallery::instructions::initialize_nft::{initialize_nft, InitializeNFT};
use nft_gallery::instructions::toggle_favorite::{toggle_favorite, ToggleFavorite};
use nft_gallery::instructions::update_category::{update_category, UpdateCategory};
use nft_gallery::errors::NFTError;
use nft_gallery::states::{NFT, CATEGORY_LENGTH, NFT_LEN};

fn sample() -> NFT {
    let mut owner = [0u8; 32];
    let mut token = [0u8; 32];
    for i in 0..32 {
        owner[i] = i as u8;
        token[i] = 100 + i as u8;
    }
    NFT { owner, token_id: token, favorite: true, category: "pets".to_string(), bump: 253 }
}

#[test]
fn layout_has_fixed_size_and_field_order() {
    let n = sample();
    let b = n.serialize();
    assert_eq!(b.len(), 80);
    assert_eq!(NFT_LEN, 80);
    assert_eq!(CATEGORY_LENGTH, 10);
    assert_eq!(&b[0..32], &n.owner[..]);
    assert_eq!(&b[32..64], &n.token_id[..]);
    assert_eq!(b[64], 1);
    assert_eq!(&b[65..69], &[4, 0, 0, 0]);
    assert_eq!(&b[69..73], b"pets");
    assert_eq!(b[73], 253);
    assert!(b[74..].iter().all(|x| *x == 0));
}

#[test]
fn layout_round_trips() {
    let mut n = sample();
    for cat in ["", "a", "pets", "abcdefghij", "ééééé", "日本"] {
        for fav in [false, true] {
            n.category = cat.to_string();
            n.favorite = fav;
            let back = NFT::deserialize(&n.serialize()).unwrap();
            assert_eq!(back.owner, n.owner);
            assert_eq!(back.token_id, n.token_id);
            assert_eq!(back.favorite, fav);
            assert_eq!(back.category, cat);
            assert_eq!(back.bump, n.bump);
        }
    }
}

#[test]
fn unreadable_layouts_are_refused() {
    let good = sample().serialize();
    assert!(NFT::deserialize(&good[..79]).is_none());
    let mut b = good.clone();
    b[64] = 2;
    assert!(NFT::deserialize(&b).is_none());
    let mut b = good.clone();
    b[65] = 11;
    assert!(NFT::deserialize(&b).is_none());
    let mut b = good.clone();
    b[66] = 1;
    assert!(NFT::deserialize(&b).is_none());
    let mut b = good.clone();
    b[69] = 0xff;
    assert!(NFT::deserialize(&b).is_none());
}

#[test]
fn key_helpers() {
    assert!(is_default_key(&[0u8; 32]));
    let mut k = [0u8; 32];
    k[31] = 1;
    assert!(!is_default_key(&k));
    assert!(keys_equal(&k, &k));
    assert!(!keys_equal(&k, &[0u8; 32]));
    let n = sample();
    assert!(is_owner(&n, &n.owner));
    assert!(!is_owner(&n, &n.token_id));
}

#[test]
fn handlers_on_loaded_records() {
    let user = [3u8; 32];
    let mut init = InitializeNFT { user, nft: NFT::new([0u8; 32], [0u8; 32], 0), bump: 9 };
    assert_eq!(initialize_nft(&mut init, [0u8; 32]), Err(NFTError::InvalidTokenId));
    assert_eq!(initialize_nft(&mut init, [4u8; 32]), Ok(()));
    assert_eq!(init.nft.owner, user);
    assert_eq!(init.nft.token_id, [4u8; 32]);
    assert_eq!(init.nft.bump, 9);

    let mut t = ToggleFavorite { user, nft: init.nft.duplicate() };
    assert_eq!(toggle_favorite(&mut t), Ok(()));
    assert!(t.nft.favorite);
    let mut t2 = ToggleFavorite { user: [8u8; 32], nft: init.nft.duplicate() };
    assert_eq!(toggle_favorite(&mut t2), Err(NFTError::UnauthorizedUser));
    assert!(!t2.nft.favorite);

    let mut u = UpdateCategory { user, nft: init.nft.duplicate() };
    assert_eq!(update_category(&mut u, "music".to_string()), Ok(()));
    assert_eq!(u.nft.category, "music");

    assert_eq!(close_nft(&CloseNFT { user, nft: init.nft.duplicate() }), Ok(()));
    assert_eq!(
        close_nft(&CloseNFT { user: [8u8; 32], nft: init.nft }),
        Err(NFTError::UnauthorizedUser)
    );
}
