//! What a transaction accumulates beside the world state.
use vstd::prelude::*;
use crate::primitives::{word_bound, Address, H256, U256};

verus! {

/// A log record emitted by a frame.
#[derive(Clone, Debug)]
pub struct LogEntry {
    /// The account whose frame emitted it.
    pub address: Address,
    pub topics: Vec<H256>,
    pub data: Vec<u8>,
}

impl LogEntry {
    pub fn new(address: Address, topics: Vec<H256>, data: Vec<u8>) -> (r: LogEntry)
        ensures
            r.address == address,
            r.topics@ == topics@,
            r.data@ == data@,
    {
        LogEntry { address, topics, data }
    }
}

/// Scheduling an account for deletion a second time leaves the list of
/// scheduled accounts as the first time left it.
pub proof fn lemma_suicide_twice(before: Substate, once: Substate, twice: Substate, a: Address)
    requires
        once.suicide_set() == before.suicide_set().insert(a),
        once.suicides@.contains(a) ==> twice.suicides@ == once.suicides@,
    ensures
        twice.suicides@ == once.suicides@,
        twice.suicide_set() == once.suicide_set(),
{
    assert(once.suicide_set().contains(a));
}

/// Per-transaction accumulator.
#[derive(Debug)]
pub struct Substate {
    /// Accounts scheduled for deletion, each listed once.
    pub suicides: Vec<Address>,
    /// Logs in the order they were emitted.
    pub logs: Vec<LogEntry>,
    /// Number of storage slots cleared.
    pub sstore_clears_count: U256,
    /// Contracts created, in order of creation.
    pub contracts_created: Vec<Address>,
}

impl Substate {
    pub open spec fn wf(&self) -> bool {
        self.suicides@.no_duplicates()
    }

    /// The accounts scheduled for deletion.
    pub open spec fn suicide_set(&self) -> Set<Address> {
        self.suicides@.to_set()
    }

    pub fn new() -> (r: Substate)
        ensures
            r.wf(),
            r.suicides@.len() == 0,
            r.logs@.len() == 0,
            r.sstore_clears_count@ == 0,
            r.contracts_created@.len() == 0,
    {
        Substate {
            suicides: Vec::new(),
            logs: Vec::new(),
            sstore_clears_count: U256::zero(),
            contracts_created: Vec::new(),
        }
    }

    /// Whether `a` is scheduled for deletion.
    pub fn has_suicided(&self, a: &Address) -> (r: bool)
        ensures
            r == self.suicides@.contains(*a),
    {
        let mut i: usize = 0;
        while i < self.suicides.len()
            invariant
                0 <= i <= self.suicides@.len(),
                forall|j: int| 0 <= j < i ==> self.suicides@[j] != *a,
            decreases self.suicides@.len() - i,
        {
            if self.suicides[i].same(a) {
                return true;
            }
            i = i + 1;
        }
        false
    }

    /// Schedules `a` for deletion; a second time changes nothing.
    pub fn add_suicide(&mut self, a: Address)
        requires
            old(self).wf(),
        ensures
            final(self).wf(),
            final(self).suicide_set() == old(self).suicide_set().insert(a),
            old(self).suicides@.contains(a) ==> final(self).suicides@ == old(self).suicides@,
            !old(self).suicides@.contains(a) ==> final(self).suicides@ == old(self).suicides@.push(a),
            final(self).logs@ == old(self).logs@,
            final(self).sstore_clears_count == old(self).sstore_clears_count,
            final(self).contracts_created@ == old(self).contracts_created@,
    {
        if !self.has_suicided(&a) {
            self.suicides.push(a);
            proof {
                assert(self.suicides@.to_set() =~= old(self).suicides@.to_set().insert(a)) by {
                    assert forall|x: Address| #[trigger] self.suicides@.contains(x) <==>
                        (old(self).suicides@.contains(x) || x == a) by {
                        if old(self).suicides@.contains(x) {
                            let k = choose|k: int| 0 <= k < old(self).suicides@.len() && old(self).suicides@[k] == x;
                            assert(self.suicides@[k] == x);
                        }
                        if x == a {
                            assert(self.suicides@[self.suicides@.len() - 1] == x);
                        }
                        if self.suicides@.contains(x) && x != a {
                            let k = choose|k: int| 0 <= k < self.suicides@.len() && self.suicides@[k] == x;
                            assert(old(self).suicides@[k] == x);
                        }
                    }
                }
                assert forall|i: int, j: int|
                    0 <= i < j < self.suicides@.len() implies self.suicides@[i] != self.suicides@[j] by {
                    if j == self.suicides@.len() - 1 {
                        assert(old(self).suicides@[i] == self.suicides@[i]);
                    }
                }
            }
        } else {
            proof {
                assert(self.suicides@.to_set() =~= self.suicides@.to_set().insert(a));
            }
        }
    }

    /// Counts one more cleared storage slot.
    pub fn inc_sstore_clears(&mut self)
        requires
            old(self).sstore_clears_count@ + 1 < word_bound(),
        ensures
            final(self).sstore_clears_count@ == old(self).sstore_clears_count@ + 1,
            final(self).suicides@ == old(self).suicides@,
            final(self).logs@ == old(self).logs@,
            final(self).contracts_created@ == old(self).contracts_created@,
    {
        self.sstore_clears_count = self.sstore_clears_count.add(&U256::one());
    }
}

} // verus!
