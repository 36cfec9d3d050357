use vstd::prelude::*;

use crate::states::{NFT, Pubkey};

verus! {

/// The all-zero key, which names no identity and no token.
pub open spec fn is_zero_key(k: Seq<u8>) -> bool {
    forall|i: int| 0 <= i < k.len() ==> k[i] == 0
}

/// Whether two keys hold the same bytes.
pub fn keys_equal(a: &Pubkey, b: &Pubkey) -> (r: bool)
    ensures
        r == (a@ == b@),
{
    let mut i: usize = 0;
    while i < 32
        invariant
            0 <= i <= 32,
            forall|j: int| 0 <= j < i ==> a@[j] == b@[j],
        decreases 32 - i,
    {
        if a[i] != b[i] {
            return false;
        }
        i = i + 1;
    }
    assert(a@ =~= b@);
    true
}

/// Whether a key is the all-zero sentinel.
pub fn is_default_key(k: &Pubkey) -> (r: bool)
    ensures
        r == is_zero_key(k@),
{
    let mut i: usize = 0;
    while i < 32
        invariant
            0 <= i <= 32,
            forall|j: int| 0 <= j < i ==> k@[j] == 0,
        decreases 32 - i,
    {
        if k[i] != 0 {
            return false;
        }
        i = i + 1;
    }
    true
}

/// The ownership guard applied before every mutation and every deletion:
/// the caller must be the record's stored owner.
pub fn is_owner(nft: &NFT, user: &Pubkey) -> (r: bool)
    ensures
        r == (nft.owner@ == user@),
{
    keys_equal(&nft.owner, user)
}

} // verus!
