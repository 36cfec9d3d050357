use vstd::prelude::*;
use vstd::utf8::encode_utf8;

use crate::errors::NFTError;
use crate::guard::is_owner;
use crate::states::{NFT, NFTView, Pubkey, CATEGORY_LENGTH};

verus! {

/// What a category change needs: the caller and the record to change.
pub struct UpdateCategory {
    pub user: Pubkey,
    pub nft: NFT,
}

/// The outcome of setting a category: ownership is checked first, then the
/// encoded length against the capacity.
pub open spec fn update_category_outcome(n: NFTView, user: Seq<u8>, category: Seq<char>) -> Result<
    (),
    NFTError,
> {
    if n.owner != user {
        Err(NFTError::UnauthorizedUser)
    } else if encode_utf8(category).len() > CATEGORY_LENGTH {
        Err(NFTError::UpdateCategoryInvalidLength)
    } else {
        Ok(())
    }
}

/// The record with its category replaced wholesale.
pub open spec fn recategorized(n: NFTView, category: Seq<char>) -> NFTView {
    NFTView { category, ..n }
}

/// For the owner, a category that encodes to more bytes than the capacity
/// (eleven, say) is rejected with `UpdateCategoryInvalidLength`; one that
/// fits (ten bytes, say) is accepted and stored byte for byte.
pub proof fn lemma_category_capacity(n: NFTView, user: Seq<u8>, category: Seq<char>)
    requires
        n.owner == user,
    ensures
        encode_utf8(category).len() > CATEGORY_LENGTH ==> update_category_outcome(n, user, category)
            == Err::<(), NFTError>(NFTError::UpdateCategoryInvalidLength),
        encode_utf8(category).len() <= CATEGORY_LENGTH ==> update_category_outcome(n, user, category)
            == Ok::<(), NFTError>(()),
        recategorized(n, category).category == category,
        recategorized(n, category).category_bytes() == encode_utf8(category),
{
}

/// Whoever is not the owner is refused with `UnauthorizedUser`, whatever the
/// category.
pub proof fn lemma_category_owner_only(n: NFTView, user: Seq<u8>, category: Seq<char>)
    requires
        n.owner != user,
    ensures
        update_category_outcome(n, user, category) == Err::<(), NFTError>(NFTError::UnauthorizedUser),
{
}

/// Replaces the category of a record that the caller owns, where the new
/// one fits the capacity; longer ones are rejected, never truncated.
pub fn update_category(ctx: &mut UpdateCategory, new_category: String) -> (r: Result<
    (),
    NFTError,
>)
    ensures
        r == update_category_outcome(old(ctx).nft@, old(ctx).user@, new_category@),
        final(ctx).user == old(ctx).user,
        r is Ok ==> final(ctx).nft@ == recategorized(old(ctx).nft@, new_category@),
        r is Err ==> final(ctx).nft@ == old(ctx).nft@,
{
    if !is_owner(&ctx.nft, &ctx.user) {
        return Err(NFTError::UnauthorizedUser);
    }
    if new_category.as_str().as_bytes().len() > CATEGORY_LENGTH {
        return Err(NFTError::UpdateCategoryInvalidLength);
    }
    ctx.nft.category = new_category;
    Ok(())
}

} // verus!
