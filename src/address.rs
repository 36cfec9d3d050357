use vstd::prelude::*;

use crate::states::Pubkey;

verus! {

/// The address and bump that program-address derivation gives for these
/// seeds under this program, or `None` where no bump yields an address.
pub uninterp spec fn program_address(seeds: Seq<Seq<u8>>, program_id: Seq<u8>) -> Option<(Seq<u8>, u8)>;

/// The byte values of a derivation result.
pub open spec fn address_view(r: Option<(Pubkey, u8)>) -> Option<(Seq<u8>, u8)> {
    match r {
        Some((a, bump)) => Some((a@, bump)),
        None => None,
    }
}

/// The byte values of a list of seeds.
pub open spec fn seed_views(seeds: Seq<Vec<u8>>) -> Seq<Seq<u8>> {
    seeds.map_values(|s: Vec<u8>| s@)
}

/// The ASCII bytes of "nft", the first seed of every record address.
pub open spec fn nft_prefix() -> Seq<u8> {
    seq![110u8, 102u8, 116u8]
}

/// The seeds of the record of this owner and token.
pub open spec fn nft_seeds(owner: Seq<u8>, token_id: Seq<u8>) -> Seq<Seq<u8>> {
    seq![nft_prefix(), owner, token_id]
}

/// Relies on Pubkey::try_find_program_address of the Solana program library:
/// the address and bump depend on the seeds and the program id alone.
#[verifier::external_body]
fn try_find_program_address(seeds: &Vec<Vec<u8>>, program_id: &Pubkey) -> (r: Option<(Pubkey, u8)>)
    ensures
        address_view(r) == program_address(seed_views(seeds@), program_id@),
{
    let slices: Vec<&[u8]> = seeds.iter().map(|s| s.as_slice()).collect();
    let program = anchor_lang::prelude::Pubkey::new_from_array(*program_id);
    anchor_lang::prelude::Pubkey::try_find_program_address(&slices, &program).map(
        |(a, bump)| (a.to_bytes(), bump),
    )
}

/// Copies a key into a fresh vector.
fn key_bytes(k: &Pubkey) -> (r: Vec<u8>)
    ensures
        r@ == k@,
{
    let mut out: Vec<u8> = Vec::new();
    let mut i: usize = 0;
    while i < 32
        invariant
            0 <= i <= 32,
            out@ == k@.subrange(0, i as int),
        decreases 32 - i,
    {
        out.push(k[i]);
        i = i + 1;
        assert(out@ =~= k@.subrange(0, i as int));
    }
    assert(k@.subrange(0, 32) =~= k@);
    out
}

/// The address and bump of the record of this owner and token under this
/// program: the same inputs always resolve to the same address.
pub fn derive_nft_address(program_id: &Pubkey, owner: &Pubkey, token_id: &Pubkey) -> (r: Option<
    (Pubkey, u8),
>)
    ensures
        address_view(r) == program_address(nft_seeds(owner@, token_id@), program_id@),
{
    let mut seeds: Vec<Vec<u8>> = Vec::new();
    seeds.push(vec![110u8, 102u8, 116u8]);
    seeds.push(key_bytes(owner));
    seeds.push(key_bytes(token_id));
    assert(seed_views(seeds@) =~= nft_seeds(owner@, token_id@));
    try_find_program_address(&seeds, program_id)
}

} // verus!
