use vstd::prelude::*;

use crate::errors::NFTError;
use crate::guard::is_owner;
use crate::states::{NFT, NFTView, Pubkey};

verus! {

/// What toggling needs: the caller and the record to change.
pub struct ToggleFavorite {
    pub user: Pubkey,
    pub nft: NFT,
}

/// The record with its favorite flag negated.
pub open spec fn toggled(n: NFTView) -> NFTView {
    NFTView { favorite: !n.favorite, ..n }
}

/// Toggling once negates the favorite flag and changes nothing else;
/// toggling twice restores the record.
pub proof fn lemma_toggle_twice(n: NFTView)
    ensures
        toggled(n).favorite == !n.favorite,
        toggled(n) == (NFTView { favorite: toggled(n).favorite, ..n }),
        toggled(toggled(n)) == n,
{
}

/// Negates the favorite flag of a record that the caller owns.
pub fn toggle_favorite(ctx: &mut ToggleFavorite) -> (r: Result<(), NFTError>)
    ensures
        r is Ok <==> old(ctx).nft.owner@ == old(ctx).user@,
        r is Err ==> r == Err::<(), NFTError>(NFTError::UnauthorizedUser),
        final(ctx).user == old(ctx).user,
        r is Ok ==> final(ctx).nft@ == toggled(old(ctx).nft@),
        r is Err ==> final(ctx).nft@ == old(ctx).nft@,
{
    if !is_owner(&ctx.nft, &ctx.user) {
        return Err(NFTError::UnauthorizedUser);
    }
    ctx.nft.favorite = !ctx.nft.favorite;
    Ok(())
}

} // verus!
