use vstd::prelude::*;

use crate::errors::NFTError;
use crate::guard::{is_default_key, is_zero_key};
use crate::states::{fresh_record, NFT, Pubkey};

verus! {

/// What creation needs: the creating identity, the freshly allocated record
/// and the bump that address derivation gave.
pub struct InitializeNFT {
    pub user: Pubkey,
    pub nft: NFT,
    pub bump: u8,
}

/// The outcome of creating a record of this token for this user: the token
/// is checked first, then the user.
pub open spec fn initialize_outcome(user: Seq<u8>, token_id: Seq<u8>) -> Result<(), NFTError> {
    if is_zero_key(token_id) {
        Err(NFTError::InvalidTokenId)
    } else if is_zero_key(user) {
        Err(NFTError::InvalidUser)
    } else {
        Ok(())
    }
}

/// Fills the allocated record with the user as owner, the token, no
/// favorite, an empty category and the derived bump.
pub fn initialize_nft(ctx: &mut InitializeNFT, token_id: Pubkey) -> (r: Result<(), NFTError>)
    ensures
        r == initialize_outcome(old(ctx).user@, token_id@),
        final(ctx).user == old(ctx).user,
        final(ctx).bump == old(ctx).bump,
        r is Ok ==> final(ctx).nft@ == fresh_record(old(ctx).user@, token_id@, old(ctx).bump),
        r is Err ==> final(ctx).nft@ == old(ctx).nft@,
{
    if is_default_key(&token_id) {
        return Err(NFTError::InvalidTokenId);
    }
    if is_default_key(&ctx.user) {
        return Err(NFTError::InvalidUser);
    }
    ctx.nft = NFT::new(ctx.user, token_id, ctx.bump);
    Ok(())
}

} // verus!
