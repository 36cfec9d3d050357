//! The program's instructions over a whole store: each resolves the record's
//! address, loads the record, applies its instruction and persists the result,
//! all or nothing.

use vstd::prelude::*;

use crate::address::{address_view, derive_nft_address, nft_seeds, program_address};
use crate::errors::NFTError;
use crate::guard::is_zero_key;
use crate::instructions::close_nft::{close_nft, CloseNFT};
use crate::instructions::initialize_nft::{initialize_nft, initialize_outcome, InitializeNFT};
use crate::instructions::toggle_favorite::{toggle_favorite, toggled, ToggleFavorite};
use crate::instructions::update_category::{
    recategorized,
    update_category,
    update_category_outcome,
    UpdateCategory,
};
use crate::states::{fresh_record, NFTView, Pubkey, NFT};
use crate::store::Gallery;

verus! {

/// The byte values of a result that carries an address.
pub open spec fn result_view(r: Result<Pubkey, NFTError>) -> Result<Seq<u8>, NFTError> {
    match r {
        Ok(a) => Ok(a@),
        Err(e) => Err(e),
    }
}

/// Creation from the records `before`, given the derivation result, returns
/// `r` and leaves the records `after`: a failed derivation, an invalid token,
/// an invalid user and an occupied address each fail with their own error and
/// change nothing; otherwise a fresh record stands at the derived address.
pub open spec fn initialize_effect(
    before: Map<Seq<u8>, NFTView>,
    user: Seq<u8>,
    token_id: Seq<u8>,
    derived: Option<(Seq<u8>, u8)>,
    r: Result<Seq<u8>, NFTError>,
    after: Map<Seq<u8>, NFTView>,
) -> bool {
    match derived {
        None => r == Err::<Seq<u8>, NFTError>(NFTError::InvalidAddressSeeds) && after == before,
        Some((a, bump)) => match initialize_outcome(user, token_id) {
            Err(e) => r == Err::<Seq<u8>, NFTError>(e) && after == before,
            Ok(_) => if before.contains_key(a) {
                r == Err::<Seq<u8>, NFTError>(NFTError::AccountAlreadyInUse) && after == before
            } else {
                r == Ok::<Seq<u8>, NFTError>(a) && after == before.insert(
                    a,
                    fresh_record(user, token_id, bump),
                )
            },
        },
    }
}

/// Creation with a non-zero user and token at a free derived address
/// succeeds, and the record then stored at that address is fresh: owned by
/// the user, of the given token, not a favorite, with an empty category.
pub proof fn lemma_initialize_then_read(
    before: Map<Seq<u8>, NFTView>,
    user: Seq<u8>,
    token_id: Seq<u8>,
    derived: Option<(Seq<u8>, u8)>,
    r: Result<Seq<u8>, NFTError>,
    after: Map<Seq<u8>, NFTView>,
)
    requires
        initialize_effect(before, user, token_id, derived, r, after),
        !is_zero_key(user),
        !is_zero_key(token_id),
    ensures
        derived is Some && !before.contains_key(derived->Some_0.0) ==> r == Ok::<
            Seq<u8>,
            NFTError,
        >(derived->Some_0.0),
        r is Ok ==> {
            let a = r->Ok_0;
            &&& after.contains_key(a)
            &&& after[a].owner == user
            &&& after[a].token_id == token_id
            &&& !after[a].favorite
            &&& after[a].category == Seq::<char>::empty()
        },
{
}

/// Creation with the all-zero token fails, with `InvalidTokenId` wherever an
/// address was derived, and leaves the records as they were: no record
/// appears at the derived address.
pub proof fn lemma_initialize_zero_token(
    before: Map<Seq<u8>, NFTView>,
    user: Seq<u8>,
    token_id: Seq<u8>,
    derived: Option<(Seq<u8>, u8)>,
    r: Result<Seq<u8>, NFTError>,
    after: Map<Seq<u8>, NFTView>,
)
    requires
        initialize_effect(before, user, token_id, derived, r, after),
        is_zero_key(token_id),
    ensures
        r is Err,
        derived is Some ==> r == Err::<Seq<u8>, NFTError>(NFTError::InvalidTokenId),
        after == before,
{
}

/// Toggling the favorite flag of a record twice in a row leaves the records
/// as they were.
pub proof fn lemma_favorite_twice(before: Map<Seq<u8>, NFTView>, address: Seq<u8>)
    requires
        before.contains_key(address),
    ensures
        ({
            let once = before.insert(address, toggled(before[address]));
            once.insert(address, toggled(once[address])) == before
        }),
{
    let once = before.insert(address, toggled(before[address]));
    assert(once.insert(address, toggled(once[address])) =~= before);
}

/// After a record is closed its address holds no record, so a read, and a
/// second close, find nothing there.
pub proof fn lemma_closed_is_absent(before: Map<Seq<u8>, NFTView>, address: Seq<u8>)
    ensures
        !before.remove(address).contains_key(address),
{
}

/// Creates the record of `token_id` for `user`, given the result of deriving
/// its address; returns the address.
pub fn initialize_at(
    gallery: &mut Gallery,
    user: Pubkey,
    token_id: Pubkey,
    derived: Option<(Pubkey, u8)>,
) -> (r: Result<Pubkey, NFTError>)
    requires
        old(gallery).wf(),
    ensures
        final(gallery).wf(),
        final(gallery).program() == old(gallery).program(),
        initialize_effect(
            old(gallery)@,
            user@,
            token_id@,
            address_view(derived),
            result_view(r),
            final(gallery)@,
        ),
{
    let (address, bump) = match derived {
        None => return Err(NFTError::InvalidAddressSeeds),
        Some(found) => found,
    };
    let blank: Pubkey = [0u8; 32];
    let mut ctx = InitializeNFT { user, nft: NFT::new(blank, blank, 0), bump };
    match initialize_nft(&mut ctx, token_id) {
        Err(e) => return Err(e),
        Ok(()) => {},
    }
    if gallery.contains(&address) {
        return Err(NFTError::AccountAlreadyInUse);
    }
    assert(ctx.nft@.category =~= Seq::<char>::empty());
    gallery.insert_new(address, ctx.nft);
    Ok(address)
}

/// Creates the record of `token_id` for `user` at the address derived from
/// the two under the store's program; returns that address.
pub fn initialize(gallery: &mut Gallery, user: Pubkey, token_id: Pubkey) -> (r: Result<
    Pubkey,
    NFTError,
>)
    requires
        old(gallery).wf(),
    ensures
        final(gallery).wf(),
        final(gallery).program() == old(gallery).program(),
        initialize_effect(
            old(gallery)@,
            user@,
            token_id@,
            program_address(nft_seeds(user@, token_id@), old(gallery).program()),
            result_view(r),
            final(gallery)@,
        ),
{
    let program_id = gallery.program_id();
    let derived = derive_nft_address(&program_id, &user, &token_id);
    initialize_at(gallery, user, token_id, derived)
}

/// Closes the record at `address` on behalf of `user`, who must own it.
pub fn close(gallery: &mut Gallery, user: Pubkey, address: Pubkey) -> (r: Result<(), NFTError>)
    requires
        old(gallery).wf(),
    ensures
        final(gallery).wf(),
        final(gallery).program() == old(gallery).program(),
        !old(gallery)@.contains_key(address@) ==> r == Err::<(), NFTError>(NFTError::NotFound),
        old(gallery)@.contains_key(address@) && old(gallery)@[address@].owner != user@ ==> r
            == Err::<(), NFTError>(NFTError::UnauthorizedUser),
        old(gallery)@.contains_key(address@) && old(gallery)@[address@].owner == user@ ==> r
            == Ok::<(), NFTError>(()),
        r is Ok ==> final(gallery)@ == old(gallery)@.remove(address@),
        r is Err ==> final(gallery)@ == old(gallery)@,
{
    let nft = match gallery.get(&address) {
        Err(e) => return Err(e),
        Ok(nft) => nft,
    };
    let ctx = CloseNFT { user, nft };
    match close_nft(&ctx) {
        Err(e) => Err(e),
        Ok(()) => {
            gallery.remove(&address);
            Ok(())
        },
    }
}

/// Replaces the category of the record at `address` on behalf of `user`,
/// who must own it.
pub fn category(gallery: &mut Gallery, user: Pubkey, address: Pubkey, new_category: String) -> (r:
    Result<(), NFTError>)
    requires
        old(gallery).wf(),
    ensures
        final(gallery).wf(),
        final(gallery).program() == old(gallery).program(),
        !old(gallery)@.contains_key(address@) ==> r == Err::<(), NFTError>(NFTError::NotFound),
        old(gallery)@.contains_key(address@) ==> r == update_category_outcome(
            old(gallery)@[address@],
            user@,
            new_category@,
        ),
        r is Ok ==> final(gallery)@ == old(gallery)@.insert(
            address@,
            recategorized(old(gallery)@[address@], new_category@),
        ),
        r is Err ==> final(gallery)@ == old(gallery)@,
{
    let nft = match gallery.get(&address) {
        Err(e) => return Err(e),
        Ok(nft) => nft,
    };
    let mut ctx = UpdateCategory { user, nft };
    match update_category(&mut ctx, new_category) {
        Err(e) => Err(e),
        Ok(()) => {
            gallery.replace(&address, ctx.nft);
            Ok(())
        },
    }
}

/// Toggles the favorite flag of the record at `address` on behalf of
/// `user`, who must own it.
pub fn favorite(gallery: &mut Gallery, user: Pubkey, address: Pubkey) -> (r: Result<(), NFTError>)
    requires
        old(gallery).wf(),
    ensures
        final(gallery).wf(),
        final(gallery).program() == old(gallery).program(),
        !old(gallery)@.contains_key(address@) ==> r == Err::<(), NFTError>(NFTError::NotFound),
        old(gallery)@.contains_key(address@) && old(gallery)@[address@].owner != user@ ==> r
            == Err::<(), NFTError>(NFTError::UnauthorizedUser),
        old(gallery)@.contains_key(address@) && old(gallery)@[address@].owner == user@ ==> r
            == Ok::<(), NFTError>(()),
        r is Ok ==> final(gallery)@ == old(gallery)@.insert(
            address@,
            toggled(old(gallery)@[address@]),
        ),
        r is Err ==> final(gallery)@ == old(gallery)@,
{
    let nft = match gallery.get(&address) {
        Err(e) => return Err(e),
        Ok(nft) => nft,
    };
    let mut ctx = ToggleFavorite { user, nft };
    match toggle_favorite(&mut ctx) {
        Err(e) => Err(e),
        Ok(()) => {
            gallery.replace(&address, ctx.nft);
            Ok(())
        },
    }
}

} // verus!
