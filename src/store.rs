use vstd::prelude::*;

use crate::errors::NFTError;
use crate::guard::keys_equal;
use crate::states::{NFT, NFTView, Pubkey};

verus! {

/// One occupied address and the record it holds.
struct Slot {
    address: Pubkey,
    nft: NFT,
}

/// The records of one program, each at its own address.
pub struct Gallery {
    program_id: Pubkey,
    slots: Vec<Slot>,
    records: Ghost<Map<Seq<u8>, NFTView>>,
}

impl View for Gallery {
    type V = Map<Seq<u8>, NFTView>;

    /// The active records, by address.
    closed spec fn view(&self) -> Map<Seq<u8>, NFTView> {
        self.records@
    }
}

impl Gallery {
    /// The slots hold exactly the active records, one address each, and every
    /// record is valid.
    pub closed spec fn wf(&self) -> bool {
        &&& forall|i: int|
            0 <= i < self.slots@.len() ==> {
                &&& self.records@.contains_key(#[trigger] self.slots@[i].address@)
                &&& self.records@[self.slots@[i].address@] == self.slots@[i].nft@
            }
        &&& forall|a: Seq<u8>| #[trigger]
            self.records@.contains_key(a) ==> exists|i: int|
                0 <= i < self.slots@.len() && #[trigger] self.slots@[i].address@ == a
        &&& forall|i: int, j: int|
            0 <= i < self.slots@.len() && 0 <= j < self.slots@.len() && i != j
                ==> #[trigger] self.slots@[i].address@ != #[trigger] self.slots@[j].address@
        &&& forall|a: Seq<u8>| #[trigger] self.records@.contains_key(a) ==> self.records@[a].valid()
    }

    /// Every active record is valid: in particular no category exceeds its
    /// capacity.
    pub proof fn lemma_records_valid(&self)
        requires
            self.wf(),
        ensures
            forall|a: Seq<u8>| #[trigger] self@.contains_key(a) ==> self@[a].valid(),
    {
    }

    /// The program under which record addresses are derived.
    pub closed spec fn program(&self) -> Seq<u8> {
        self.program_id@
    }

    /// The program under which record addresses are derived.
    pub fn program_id(&self) -> (r: Pubkey)
        ensures
            r@ == self.program(),
    {
        self.program_id
    }

    /// An empty store for this program.
    pub fn new(program_id: Pubkey) -> (r: Gallery)
        ensures
            r.wf(),
            r@ == Map::<Seq<u8>, NFTView>::empty(),
            r.program() == program_id@,
    {
        Gallery { program_id, slots: Vec::new(), records: Ghost(Map::empty()) }
    }

    /// The slot that holds this address, if any.
    fn find(&self, address: &Pubkey) -> (r: Option<usize>)
        requires
            self.wf(),
        ensures
            match r {
                Some(i) => i < self.slots@.len() && self.slots@[i as int].address@ == address@,
                None => !self@.contains_key(address@),
            },
    {
        let mut i: usize = 0;
        while i < self.slots.len()
            invariant
                0 <= i <= self.slots@.len(),
                forall|j: int| 0 <= j < i ==> self.slots@[j].address@ != address@,
            decreases self.slots@.len() - i,
        {
            if keys_equal(&self.slots[i].address, address) {
                return Some(i);
            }
            i = i + 1;
        }
        None
    }

    /// Whether an active record stands at this address.
    pub fn contains(&self, address: &Pubkey) -> (r: bool)
        requires
            self.wf(),
        ensures
            r == self@.contains_key(address@),
    {
        match self.find(address) {
            Some(_) => true,
            None => false,
        }
    }

    /// A copy of the record at this address; `NotFound` where none is active.
    pub fn get(&self, address: &Pubkey) -> (r: Result<NFT, NFTError>)
        requires
            self.wf(),
        ensures
            match r {
                Ok(n) => self@.contains_key(address@) && n@ == self@[address@] && n@.valid(),
                Err(e) => !self@.contains_key(address@) && e == NFTError::NotFound,
            },
    {
        match self.find(address) {
            Some(i) => Ok(self.slots[i].nft.duplicate()),
            None => Err(NFTError::NotFound),
        }
    }

    /// Stores a record at a free address.
    pub(crate) fn insert_new(&mut self, address: Pubkey, nft: NFT)
        requires
            old(self).wf(),
            !old(self)@.contains_key(address@),
            nft@.valid(),
        ensures
            final(self).wf(),
            final(self)@ == old(self)@.insert(address@, nft@),
            final(self).program() == old(self).program(),
    {
        let ghost a = address@;
        let ghost v = nft@;
        self.slots.push(Slot { address, nft });
        self.records = Ghost(self.records@.insert(a, v));
        proof {
            let n = self.slots@.len() - 1;
            assert forall|b: Seq<u8>| #[trigger] self.records@.contains_key(b) implies exists|i: int|
                0 <= i < self.slots@.len() && #[trigger] self.slots@[i].address@ == b by {
                if b == a {
                    assert(self.slots@[n].address@ == b);
                } else {
                    assert(old(self).records@.contains_key(b));
                    let i = choose|i: int|
                        0 <= i < old(self).slots@.len() && #[trigger] old(self).slots@[i].address@ == b;
                    assert(self.slots@[i].address@ == b);
                }
            }
        }
    }

    /// Replaces the active record at this address.
    pub(crate) fn replace(&mut self, address: &Pubkey, nft: NFT)
        requires
            old(self).wf(),
            old(self)@.contains_key(address@),
            nft@.valid(),
        ensures
            final(self).wf(),
            final(self)@ == old(self)@.insert(address@, nft@),
            final(self).program() == old(self).program(),
    {
        let ghost a = address@;
        let ghost v = nft@;
        match self.find(address) {
            Some(i) => {
                self.slots.set(i, Slot { address: *address, nft });
                self.records = Ghost(self.records@.insert(a, v));
                proof {
                    assert forall|b: Seq<u8>| #[trigger] self.records@.contains_key(b) implies exists|
                        k: int,
                    | 0 <= k < self.slots@.len() && #[trigger] self.slots@[k].address@ == b by {
                        if b == a {
                            assert(self.slots@[i as int].address@ == b);
                        } else {
                            let k = choose|k: int|
                                0 <= k < old(self).slots@.len() && #[trigger] old(self).slots@[k].address@
                                    == b;
                            assert(self.slots@[k].address@ == b);
                        }
                    }
                }
            },
            None => {},
        }
    }

    /// Deletes the active record at this address.
    pub(crate) fn remove(&mut self, address: &Pubkey)
        requires
            old(self).wf(),
            old(self)@.contains_key(address@),
        ensures
            final(self).wf(),
            final(self)@ == old(self)@.remove(address@),
            final(self).program() == old(self).program(),
    {
        let ghost a = address@;
        match self.find(address) {
            Some(i) => {
                let ghost s = self.slots@;
                self.slots.remove(i);
                self.records = Ghost(self.records@.remove(a));
                proof {
                    assert(self.slots@ =~= s.remove(i as int));
                    assert forall|k: int| 0 <= k < self.slots@.len() implies {
                        &&& self.records@.contains_key(#[trigger] self.slots@[k].address@)
                        &&& self.records@[self.slots@[k].address@] == self.slots@[k].nft@
                    } by {
                        if k < i {
                            assert(self.slots@[k] == s[k]);
                        } else {
                            assert(self.slots@[k] == s[k + 1]);
                        }
                    }
                    assert forall|b: Seq<u8>| #[trigger] self.records@.contains_key(b) implies exists|
                        k: int,
                    | 0 <= k < self.slots@.len() && #[trigger] self.slots@[k].address@ == b by {
                        let k = choose|k: int| 0 <= k < s.len() && #[trigger] s[k].address@ == b;
                        assert(k != i);
                        if k < i {
                            assert(self.slots@[k].address@ == b);
                        } else {
                            assert(self.slots@[k - 1].address@ == b);
                        }
                    }
                    assert forall|j: int, k: int|
                        0 <= j < self.slots@.len() && 0 <= k < self.slots@.len() && j != k
                            implies #[trigger] self.slots@[j].address@
                        != #[trigger] self.slots@[k].address@ by {
                        let jj = if j < i { j } else { j + 1 };
                        let kk = if k < i { k } else { k + 1 };
                        assert(self.slots@[j] == s[jj]);
                        assert(self.slots@[k] == s[kk]);
                    }
                }
            },
            None => {},
        }
    }
}

} // verus!
