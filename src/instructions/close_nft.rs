use vstd::prelude::*;

use crate::errors::NFTError;
use crate::guard::is_owner;
use crate::states::{NFT, Pubkey};

verus! {

/// What closing needs: the caller and the record to close.
pub struct CloseNFT {
    pub user: Pubkey,
    pub nft: NFT,
}

/// Allows the record to be closed only by its owner.
pub fn close_nft(ctx: &CloseNFT) -> (r: Result<(), NFTError>)
    ensures
        r is Ok <==> ctx.nft.owner@ == ctx.user@,
        r is Err ==> r == Err::<(), NFTError>(NFTError::UnauthorizedUser),
{
    if !is_owner(&ctx.nft, &ctx.user) {
        return Err(NFTError::UnauthorizedUser);
    }
    Ok(())
}

} // verus!
