//! The swap record and the store that holds the records at their addresses.
use vstd::prelude::*;
use crate::address::Address;

verus! {

/// The state of one swap while its funds are locked.
#[derive(Clone, Copy, Debug)]
pub struct SwapAccount {
    /// The bump that completes the record's own derivation.
    pub bump: u8,
    /// The slot after which refunds without consent are allowed.
    pub expiry_slot: u64,
    /// The bump that completes the signing authority's derivation.
    pub identity_pda_bump: u8,
    /// Who paid for the record's storage, and gets it back when it closes.
    pub rent_sponsor: Address,
    /// The token type locked in the swap.
    pub mint: Address,
    pub redeemer: Address,
    pub refundee: Address,
    /// The SHA-256 digest of the secret that redeems the swap.
    pub secret_hash: [u8; 32],
    /// The quantity locked, in the token's smallest unit.
    pub swap_amount: u64,
    /// The number of slots after opening until refunds are allowed.
    pub timelock: u64,
}

/// A record together with the address it lives at.
#[derive(Clone, Copy, Debug)]
pub struct SwapEntry {
    pub address: Address,
    pub account: SwapAccount,
}

/// The records of one program, each at its own address.
pub struct SwapStore {
    program: Address,
    entries: Vec<SwapEntry>,
}

impl SwapStore {
    /// No address holds two records.
    #[verifier::type_invariant]
    spec fn addresses_unique(&self) -> bool {
        forall|i: int, j: int|
            0 <= i < self.entries@.len() && 0 <= j < self.entries@.len() && i != j
                ==> self.entries@[i].address@ != self.entries@[j].address@
    }

    spec fn holds_at(&self, i: int, k: Seq<u8>) -> bool {
        0 <= i < self.entries@.len() && self.entries@[i].address@ == k
    }

    /// The address of the program that owns the records and the vaults.
    pub closed spec fn program(&self) -> Address {
        self.program
    }

    /// The address of the program that owns the records and the vaults.
    pub fn program_id(&self) -> (r: Address)
        ensures
            r == self.program(),
    {
        self.program
    }

    /// The records, by address.
    pub closed spec fn swaps(&self) -> Map<Seq<u8>, SwapAccount> {
        Map::new(
            |k: Seq<u8>| exists|i: int| self.holds_at(i, k),
            |k: Seq<u8>| self.entries@[choose|i: int| self.holds_at(i, k)].account,
        )
    }

    proof fn lemma_entry(&self, j: int)
        requires
            self.addresses_unique(),
            0 <= j < self.entries@.len(),
        ensures
            self.swaps().contains_key(self.entries@[j].address@),
            self.swaps()[self.entries@[j].address@] == self.entries@[j].account,
    {
        let k = self.entries@[j].address@;
        assert(self.holds_at(j, k));
        let i = choose|i: int| self.holds_at(i, k);
        assert(i == j);
    }

    /// An empty store for the program at `program_id`.
    pub fn new(program_id: Address) -> (r: SwapStore)
        ensures
            r.program() == program_id,
            r.swaps() == Map::<Seq<u8>, SwapAccount>::empty(),
    {
        let r = SwapStore { program: program_id, entries: Vec::new() };
        assert(r.swaps() =~= Map::<Seq<u8>, SwapAccount>::empty());
        r
    }

    fn position(&self, address: &Address) -> (r: Option<usize>)
        ensures
            r matches Some(i) ==> self.holds_at(i as int, address@),
            r is None ==> !self.swaps().contains_key(address@),
    {
        let mut i: usize = 0;
        while i < self.entries.len()
            invariant
                0 <= i <= self.entries@.len(),
                forall|j: int| 0 <= j < i ==> self.entries@[j].address@ != address@,
            decreases self.entries@.len() - i,
        {
            if self.entries[i].address.same_as(address) {
                return Some(i);
            }
            i = i + 1;
        }
        None
    }

    /// The record at `address`, if there is one.
    pub fn get(&self, address: &Address) -> (r: Option<SwapAccount>)
        ensures
            r is Some <==> self.swaps().contains_key(address@),
            r matches Some(a) ==> a == self.swaps()[address@],
    {
        proof {
            use_type_invariant(self);
        }
        match self.position(address) {
            Some(i) => {
                proof {
                    self.lemma_entry(i as int);
                }
                Some(self.entries[i].account)
            },
            None => None,
        }
    }

    /// Whether a record lives at `address`.
    pub fn contains(&self, address: &Address) -> (r: bool)
        ensures
            r == self.swaps().contains_key(address@),
    {
        self.get(address).is_some()
    }

    /// Puts a record at an address that holds none: how a store is filled
    /// with records read back from the ledger.
    pub fn insert_new(&mut self, address: Address, account: SwapAccount)
        requires
            !old(self).swaps().contains_key(address@),
        ensures
            final(self).program() == old(self).program(),
            final(self).swaps() == old(self).swaps().insert(address@, account),
    {
        proof {
            use_type_invariant(&*self);
        }
        let ghost before = *self;
        assert forall|i: int| 0 <= i < before.entries@.len() implies before.entries@[i].address@ != address@ by {
            if before.entries@[i].address@ == address@ {
                assert(before.holds_at(i, address@));
            }
        }
        let mut entries: Vec<SwapEntry> = Vec::new();
        std::mem::swap(&mut entries, &mut self.entries);
        entries.push(SwapEntry { address, account });
        std::mem::swap(&mut entries, &mut self.entries);
        let ghost after = *self;
        assert(after.addresses_unique());
        assert forall|k: Seq<u8>| #[trigger] after.swaps().contains_key(k) == before.swaps().insert(address@, account).contains_key(k) by {
            if before.swaps().contains_key(k) {
                let i = choose|i: int| before.holds_at(i, k);
                assert(after.holds_at(i, k));
            }
            if k == address@ {
                assert(after.holds_at(before.entries@.len() as int, k));
            }
            if after.swaps().contains_key(k) && k != address@ {
                let i = choose|i: int| after.holds_at(i, k);
                assert(before.holds_at(i, k));
            }
        }
        assert forall|k: Seq<u8>| after.swaps().contains_key(k) implies #[trigger] after.swaps()[k] == before.swaps().insert(address@, account)[k] by {
            let i = choose|i: int| after.holds_at(i, k);
            after.lemma_entry(i);
            if i < before.entries@.len() {
                before.lemma_entry(i);
            }
        }
        assert(after.swaps() =~= before.swaps().insert(address@, account));
    }

    /// Takes away the record at `address`, and returns it.
    pub(crate) fn remove(&mut self, address: &Address) -> (r: SwapAccount)
        requires
            old(self).swaps().contains_key(address@),
        ensures
            r == old(self).swaps()[address@],
            final(self).program() == old(self).program(),
            final(self).swaps() == old(self).swaps().remove(address@),
    {
        proof {
            use_type_invariant(&*self);
        }
        let ghost before = *self;
        let p = self.position(address);
        let i = p.unwrap();
        proof {
            before.lemma_entry(i as int);
        }
        let mut entries: Vec<SwapEntry> = Vec::new();
        std::mem::swap(&mut entries, &mut self.entries);
        let entry = entries.remove(i);
        std::mem::swap(&mut entries, &mut self.entries);
        let ghost after = *self;
        assert(forall|j: int| 0 <= j < after.entries@.len() ==>
            after.entries@[j] == before.entries@[if j < i { j } else { j + 1 }]);
        assert(after.addresses_unique());
        assert forall|k: Seq<u8>| #[trigger] after.swaps().contains_key(k) == before.swaps().remove(address@).contains_key(k) by {
            if after.swaps().contains_key(k) {
                let j = choose|j: int| after.holds_at(j, k);
                let jj = if j < i { j } else { j + 1 };
                assert(before.holds_at(jj, k));
                assert(k != address@);
            }
            if before.swaps().contains_key(k) && k != address@ {
                let j = choose|j: int| before.holds_at(j, k);
                assert(j != i);
                let jj = if j < i { j } else { j - 1 };
                assert(after.holds_at(jj, k));
            }
        }
        assert forall|k: Seq<u8>| after.swaps().contains_key(k) implies #[trigger] after.swaps()[k] == before.swaps().remove(address@)[k] by {
            let j = choose|j: int| after.holds_at(j, k);
            after.lemma_entry(j);
            let jj = if j < i { j } else { j + 1 };
            before.lemma_entry(jj);
        }
        assert(after.swaps() =~= before.swaps().remove(address@));
        entry.account
    }
}

} // verus!
