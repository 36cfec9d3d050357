use vstd::prelude::*;
use vstd::utf8::{decode_utf8, encode_utf8, encode_utf8_decode_utf8, encode_utf8_valid_utf8, valid_utf8};

verus! {

/// A 32-byte identity or identifier.
pub type Pubkey = [u8; 32];

/// The fixed capacity of a record's category, in bytes.
pub const CATEGORY_LENGTH: usize = 10;

/// The size of a record's persisted layout, in bytes: owner (32), token
/// identifier (32), favorite (1), category length (4), category capacity (10)
/// and bump (1).
pub const NFT_LEN: usize = 80;

/// The metadata record of one collectible.
pub struct NFT {
    pub owner: Pubkey,
    pub token_id: Pubkey,
    pub favorite: bool,
    pub category: String,
    pub bump: u8,
}

/// The mathematical value of a record.
pub ghost struct NFTView {
    pub owner: Seq<u8>,
    pub token_id: Seq<u8>,
    pub favorite: bool,
    pub category: Seq<char>,
    pub bump: u8,
}

impl NFTView {
    /// The UTF-8 encoding of the category.
    pub open spec fn category_bytes(self) -> Seq<u8> {
        encode_utf8(self.category)
    }

    /// Keys of 32 bytes and a category within its capacity.
    pub open spec fn valid(self) -> bool {
        &&& self.owner.len() == 32
        &&& self.token_id.len() == 32
        &&& self.category_bytes().len() <= CATEGORY_LENGTH
    }
}

impl View for NFT {
    type V = NFTView;

    open spec fn view(&self) -> NFTView {
        NFTView {
            owner: self.owner@,
            token_id: self.token_id@,
            favorite: self.favorite,
            category: self.category@,
            bump: self.bump,
        }
    }
}

/// A record as created: owned by `owner`, not a favorite, with an empty
/// category.
pub open spec fn fresh_record(owner: Seq<u8>, token_id: Seq<u8>, bump: u8) -> NFTView {
    NFTView { owner, token_id, favorite: false, category: Seq::empty(), bump }
}

/// The four little-endian bytes of a length below 256.
pub open spec fn length_prefix(n: nat) -> Seq<u8> {
    seq![n as u8, 0u8, 0u8, 0u8]
}

/// The persisted layout of a record: owner, token identifier, favorite byte,
/// length-prefixed category, bump, then zeros up to the fixed size.
pub open spec fn layout(n: NFTView) -> Seq<u8> {
    let body = n.owner + n.token_id + seq![if n.favorite { 1u8 } else { 0u8 }]
        + length_prefix(n.category_bytes().len()) + n.category_bytes() + seq![n.bump];
    body + Seq::new((NFT_LEN - body.len()) as nat, |i: int| 0u8)
}

/// The category length that a persisted layout records.
pub open spec fn stored_category_len(b: Seq<u8>) -> int {
    b[65] as int
}

/// Whether bytes are the persisted layout of some valid record.
pub open spec fn layout_readable(b: Seq<u8>) -> bool {
    &&& b.len() == NFT_LEN
    &&& (b[64] == 0 || b[64] == 1)
    &&& b[65] <= CATEGORY_LENGTH
    &&& b[66] == 0 && b[67] == 0 && b[68] == 0
    &&& valid_utf8(b.subrange(69, 69 + stored_category_len(b)))
}

/// The record that a persisted layout holds, if it holds one.
pub open spec fn read_layout(b: Seq<u8>) -> Option<NFTView> {
    if layout_readable(b) {
        let len = stored_category_len(b);
        Some(
            NFTView {
                owner: b.subrange(0, 32),
                token_id: b.subrange(32, 64),
                favorite: b[64] == 1,
                category: decode_utf8(b.subrange(69, 69 + len)),
                bump: b[69 + len],
            },
        )
    }
    else {
        None
    }
}

/// Reading back the persisted layout of a valid record gives that record,
/// field for field.
pub proof fn lemma_layout_round_trip(n: NFTView)
    requires
        n.valid(),
    ensures
        read_layout(layout(n)) == Some(n),
{
    let cb = n.category_bytes();
    let len = cb.len() as int;
    let body = n.owner + n.token_id + seq![if n.favorite { 1u8 } else { 0u8 }]
        + length_prefix(cb.len()) + cb + seq![n.bump];
    let b = layout(n);
    assert(body.len() == 70 + len);
    assert(b.subrange(0, body.len() as int) =~= body);
    assert(b[64] == (if n.favorite { 1u8 } else { 0u8 }));
    assert(b[65] == len as u8);
    assert(b[66] == 0 && b[67] == 0 && b[68] == 0);
    assert(b.subrange(69, 69 + len) =~= cb);
    assert(b[69 + len] == n.bump);
    encode_utf8_valid_utf8(n.category);
    encode_utf8_decode_utf8(n.category);
    assert(b.subrange(0, 32) =~= n.owner);
    assert(b.subrange(32, 64) =~= n.token_id);
}

/// Relies on String::from_utf8: it succeeds exactly on valid UTF-8 and then
/// holds the characters that the bytes encode.
#[verifier::external_body]
fn string_from_utf8(bytes: Vec<u8>) -> (r: Option<String>)
    ensures
        r is Some <==> valid_utf8(bytes@),
        r is Some ==> r->Some_0@ == decode_utf8(bytes@),
{
    String::from_utf8(bytes).ok()
}

/// Appends the bytes of a key.
fn push_key(out: &mut Vec<u8>, k: &Pubkey)
    ensures
        final(out)@ == old(out)@ + k@,
{
    let mut i: usize = 0;
    while i < 32
        invariant
            0 <= i <= 32,
            out@ == old(out)@ + k@.subrange(0, i as int),
        decreases 32 - i,
    {
        out.push(k[i]);
        i = i + 1;
        assert(out@ =~= old(out)@ + k@.subrange(0, i as int));
    }
    assert(k@.subrange(0, 32) =~= k@);
}

/// Copies a 32-byte key out of bytes, starting at `start`.
fn read_key(b: &[u8], start: usize) -> (r: Pubkey)
    requires
        start + 32 <= b@.len(),
        start <= 48,
    ensures
        r@ == b@.subrange(start as int, start + 32),
{
    let mut k: Pubkey = [0u8; 32];
    let mut i: usize = 0;
    while i < 32
        invariant
            0 <= i <= 32,
            start + 32 <= b@.len(),
            start <= 48,
            k@.len() == 32,
            forall|j: int| 0 <= j < i ==> k@[j] == b@[start + j],
        decreases 32 - i,
    {
        k[i] = b[start + i];
        i = i + 1;
    }
    assert(k@ =~= b@.subrange(start as int, start + 32));
    k
}

impl NFT {
    /// A record of this owner and token with no favorite, an empty category
    /// and the given bump.
    pub fn new(owner: Pubkey, token_id: Pubkey, bump: u8) -> (r: NFT)
        ensures
            r@ == fresh_record(owner@, token_id@, bump),
    {
        NFT { owner, token_id, favorite: false, category: String::new(), bump }
    }

    /// A copy of this record.
    pub fn duplicate(&self) -> (r: NFT)
        ensures
            r@ == self@,
    {
        NFT {
            owner: self.owner,
            token_id: self.token_id,
            favorite: self.favorite,
            category: self.category.clone(),
            bump: self.bump,
        }
    }

    /// The persisted layout of this record.
    pub fn serialize(&self) -> (r: Vec<u8>)
        requires
            self@.valid(),
        ensures
            r@ == layout(self@),
    {
        let bytes = self.category.as_str().as_bytes();
        let len = bytes.len();
        let mut out: Vec<u8> = Vec::new();
        push_key(&mut out, &self.owner);
        push_key(&mut out, &self.token_id);
        out.push(if self.favorite { 1u8 } else { 0u8 });
        out.push(len as u8);
        out.push(0u8);
        out.push(0u8);
        out.push(0u8);
        let ghost head = out@;
        let mut i: usize = 0;
        while i < len
            invariant
                0 <= i <= len,
                len == bytes@.len(),
                len <= CATEGORY_LENGTH,
                out@ == head + bytes@.subrange(0, i as int),
            decreases len - i,
        {
            out.push(bytes[i]);
            i = i + 1;
            assert(out@ =~= head + bytes@.subrange(0, i as int));
        }
        out.push(self.bump);
        let ghost body = out@;
        while out.len() < NFT_LEN
            invariant
                body.len() <= out@.len() <= NFT_LEN,
                out@.subrange(0, body.len() as int) == body,
                forall|j: int| body.len() <= j < out@.len() ==> out@[j] == 0,
            decreases NFT_LEN - out@.len(),
        {
            out.push(0u8);
            assert(out@.subrange(0, body.len() as int) =~= body);
        }
        proof {
            let v = self@;
            assert(bytes@.subrange(0, len as int) =~= v.category_bytes());
            assert(body =~= v.owner + v.token_id + seq![if v.favorite { 1u8 } else { 0u8 }]
                + length_prefix(v.category_bytes().len()) + v.category_bytes() + seq![v.bump]);
            assert(out@ =~= layout(v));
        }
        out
    }

    /// The record held in a persisted layout, or `None` where the bytes hold
    /// none.
    pub fn deserialize(b: &[u8]) -> (r: Option<NFT>)
        ensures
            match r {
                Some(n) => read_layout(b@) == Some(n@),
                None => read_layout(b@) is None,
            },
    {
        if b.len() != NFT_LEN {
            return None;
        }
        if b[64] > 1 || b[65] as usize > CATEGORY_LENGTH || b[66] != 0 || b[67] != 0 || b[68] != 0 {
            return None;
        }
        let len = b[65] as usize;
        let mut cat: Vec<u8> = Vec::new();
        let mut i: usize = 0;
        while i < len
            invariant
                0 <= i <= len,
                len <= CATEGORY_LENGTH,
                b@.len() == NFT_LEN,
                cat@ == b@.subrange(69, 69 + i),
            decreases len - i,
        {
            cat.push(b[69 + i]);
            i = i + 1;
            assert(cat@ =~= b@.subrange(69, 69 + i));
        }
        match string_from_utf8(cat) {
            None => None,
            Some(category) => Some(
                NFT {
                    owner: read_key(b, 0),
                    token_id: read_key(b, 32),
                    favorite: b[64] == 1,
                    category,
                    bump: b[69 + len],
                },
            ),
        }
    }
}

} // verus!
