//! World state kept as journals of writes, where the newest record of a key
//! decides its value.
use vstd::prelude::*;
use crate::primitives::{copy_bytes, word_bound, zero_hash, Address, H256, U256};

verus! {

/// Balance and nonce of an account as of one write.
#[derive(Clone, Copy, Debug)]
pub struct AccountRecord {
    pub address: Address,
    pub balance: U256,
    pub nonce: U256,
}

/// Code of an account as of one write.
#[derive(Clone, Debug)]
pub struct CodeRecord {
    pub address: Address,
    pub code: Vec<u8>,
}

/// One storage slot of an account as of one write.
#[derive(Clone, Copy, Debug)]
pub struct SlotRecord {
    pub address: Address,
    pub key: H256,
    pub value: H256,
}

/// The newest account record of `a`.
pub open spec fn latest_account(s: Seq<AccountRecord>, a: Address) -> Option<AccountRecord>
    decreases s.len(),
{
    if s.len() == 0 {
        None
    } else if s.last().address == a {
        Some(s.last())
    } else {
        latest_account(s.drop_last(), a)
    }
}

/// The newest code of `a`.
pub open spec fn latest_code(s: Seq<CodeRecord>, a: Address) -> Option<Seq<u8>>
    decreases s.len(),
{
    if s.len() == 0 {
        None
    } else if s.last().address == a {
        Some(s.last().code@)
    } else {
        latest_code(s.drop_last(), a)
    }
}

/// The newest value written to slot `k` of `a`.
pub open spec fn latest_slot(s: Seq<SlotRecord>, a: Address, k: H256) -> Option<H256>
    decreases s.len(),
{
    if s.len() == 0 {
        None
    } else if s.last().address == a && s.last().key == k {
        Some(s.last().value)
    } else {
        latest_slot(s.drop_last(), a, k)
    }
}

/// A slot read right after a write to it gives the written value, and the
/// write leaves every other slot as it was.
pub proof fn lemma_storage_read_after_write(before: State, after: State, a: Address, k: H256, v: H256)
    requires
        after.slots@ == before.slots@.push(SlotRecord { address: a, key: k, value: v }),
    ensures
        after.storage_of(a, k) == v,
        forall|b: Address, j: H256| #![trigger after.storage_of(b, j)]
            (b, j) != (a, k) ==> after.storage_of(b, j) == before.storage_of(b, j),
{
    assert(after.slots@.drop_last() =~= before.slots@);
}

/// Accounts, their code and their storage.
#[derive(Debug)]
pub struct State {
    pub accounts: Vec<AccountRecord>,
    pub codes: Vec<CodeRecord>,
    pub slots: Vec<SlotRecord>,
}

impl State {
    /// Whether `a` is present.
    pub open spec fn exists_spec(&self, a: Address) -> bool {
        latest_account(self.accounts@, a).is_some()
    }

    /// Balance of `a`; zero for an absent account.
    pub open spec fn balance_of(&self, a: Address) -> nat {
        match latest_account(self.accounts@, a) {
            Some(r) => r.balance@,
            None => 0,
        }
    }

    /// Nonce of `a`; zero for an absent account.
    pub open spec fn nonce_of(&self, a: Address) -> nat {
        match latest_account(self.accounts@, a) {
            Some(r) => r.nonce@,
            None => 0,
        }
    }

    /// The nonce record of `a` as a word; zero for an absent account.
    pub open spec fn nonce_word(&self, a: Address) -> U256 {
        match latest_account(self.accounts@, a) {
            Some(r) => r.nonce,
            None => U256 { hi: 0, lo: 0 },
        }
    }

    /// Code of `a`, if any was deposited.
    pub open spec fn code_of(&self, a: Address) -> Option<Seq<u8>> {
        latest_code(self.codes@, a)
    }

    /// Value of slot `k` of `a`; the zero hash where never written.
    pub open spec fn storage_of(&self, a: Address, k: H256) -> H256 {
        match latest_slot(self.slots@, a, k) {
            Some(v) => v,
            None => zero_hash(),
        }
    }

    /// Balances, nonces and existence agree on every account but `a`.
    pub open spec fn same_accounts_except(&self, o: &State, a: Address) -> bool {
        forall|b: Address|
            #![trigger latest_account(o.accounts@, b)]
            b != a ==> latest_account(self.accounts@, b) == latest_account(o.accounts@, b)
    }

    /// Balances, nonces and existence of all accounts agree.
    pub open spec fn same_accounts(&self, o: &State) -> bool {
        forall|a: Address|
            #![trigger latest_account(o.accounts@, a)]
            latest_account(self.accounts@, a) == latest_account(o.accounts@, a)
    }

    /// The code of all accounts agrees.
    pub open spec fn same_codes(&self, o: &State) -> bool {
        forall|a: Address| #![trigger o.code_of(a)] self.code_of(a) == o.code_of(a)
    }

    /// The storage of all accounts agrees.
    pub open spec fn same_storage(&self, o: &State) -> bool {
        forall|a: Address, k: H256| #![trigger o.storage_of(a, k)] self.storage_of(a, k) == o.storage_of(a, k)
    }

    /// An empty world.
    pub fn new() -> (r: State)
        ensures
            forall|a: Address| !r.exists_spec(a) && r.code_of(a).is_none(),
            forall|a: Address, k: H256| r.storage_of(a, k) == zero_hash(),
    {
        State { accounts: Vec::new(), codes: Vec::new(), slots: Vec::new() }
    }

    fn find_account(&self, a: &Address) -> (r: Option<AccountRecord>)
        ensures
            r == latest_account(self.accounts@, *a),
    {
        let mut i: usize = self.accounts.len();
        assert(self.accounts@.subrange(0, i as int) =~= self.accounts@);
        while i > 0
            invariant
                i <= self.accounts@.len(),
                latest_account(self.accounts@, *a) == latest_account(self.accounts@.subrange(0, i as int), *a),
            decreases i,
        {
            let ghost pre = self.accounts@.subrange(0, i as int);
            assert(pre.drop_last() =~= self.accounts@.subrange(0, i - 1));
            i = i - 1;
            if self.accounts[i].address.same(a) {
                return Some(self.accounts[i]);
            }
        }
        None
    }

    /// Whether `a` is present.
    pub fn account_exists(&self, a: &Address) -> (r: bool)
        ensures
            r == self.exists_spec(*a),
    {
        self.find_account(a).is_some()
    }

    /// Balance of `a`, zero where absent.
    pub fn balance(&self, a: &Address) -> (r: U256)
        ensures
            r@ == self.balance_of(*a),
    {
        match self.find_account(a) {
            Some(rec) => rec.balance,
            None => U256::zero(),
        }
    }

    /// Nonce of `a`, zero where absent.
    pub fn nonce(&self, a: &Address) -> (r: U256)
        ensures
            r@ == self.nonce_of(*a),
            r == self.nonce_word(*a),
    {
        match self.find_account(a) {
            Some(rec) => rec.nonce,
            None => U256::zero(),
        }
    }

    /// Records a new balance and nonce for `a`; `a` is then present.
    fn write_account(&mut self, a: &Address, balance: U256, nonce: U256)
        ensures
            latest_account(final(self).accounts@, *a) == Some(AccountRecord { address: *a, balance, nonce }),
            final(self).same_accounts_except(old(self), *a),
            final(self).codes@ == old(self).codes@,
            final(self).slots@ == old(self).slots@,
    {
        let rec = AccountRecord { address: *a, balance, nonce };
        self.accounts.push(rec);
        proof {
            assert(self.accounts@.drop_last() =~= old(self).accounts@);
        }
    }

    /// Every balance fits in a word.
    pub proof fn lemma_balance_bounded(&self, a: Address)
        ensures
            self.balance_of(a) < word_bound(),
    {
        if let Some(r) = latest_account(self.accounts@, a) {
            r.balance.lemma_bounded();
        } else {
            U256 { hi: 0, lo: 0 }.lemma_bounded();
        }
    }

    /// Code of `a`, if any.
    pub fn code(&self, a: &Address) -> (r: Option<Vec<u8>>)
        ensures
            match r {
                Some(c) => self.code_of(*a) == Some(c@),
                None => self.code_of(*a).is_none(),
            },
    {
        let mut i: usize = self.codes.len();
        assert(self.codes@.subrange(0, i as int) =~= self.codes@);
        while i > 0
            invariant
                i <= self.codes@.len(),
                latest_code(self.codes@, *a) == latest_code(self.codes@.subrange(0, i as int), *a),
            decreases i,
        {
            let ghost pre = self.codes@.subrange(0, i as int);
            assert(pre.drop_last() =~= self.codes@.subrange(0, i - 1));
            i = i - 1;
            if self.codes[i].address.same(a) {
                return Some(copy_bytes(self.codes[i].code.as_slice()));
            }
        }
        None
    }

    /// Value of slot `k` of `a`, the zero hash where never written.
    pub fn storage_at(&self, a: &Address, k: &H256) -> (r: H256)
        ensures
            r == self.storage_of(*a, *k),
    {
        let mut i: usize = self.slots.len();
        assert(self.slots@.subrange(0, i as int) =~= self.slots@);
        while i > 0
            invariant
                i <= self.slots@.len(),
                latest_slot(self.slots@, *a, *k) == latest_slot(self.slots@.subrange(0, i as int), *a, *k),
            decreases i,
        {
            let ghost pre = self.slots@.subrange(0, i as int);
            assert(pre.drop_last() =~= self.slots@.subrange(0, i - 1));
            i = i - 1;
            if self.slots[i].address.same(a) && self.slots[i].key.same(k) {
                return self.slots[i].value;
            }
        }
        H256::zero()
    }

    /// Writes `v` to slot `k` of `a`; nothing else changes.
    pub fn set_storage(&mut self, a: &Address, k: H256, v: H256)
        ensures
            final(self).slots@ == old(self).slots@.push(SlotRecord { address: *a, key: k, value: v }),
            final(self).accounts@ == old(self).accounts@,
            final(self).codes@ == old(self).codes@,
            final(self).storage_of(*a, k) == v,
            forall|b: Address, j: H256| #![trigger final(self).storage_of(b, j)]
                (b, j) != (*a, k) ==> final(self).storage_of(b, j) == old(self).storage_of(b, j),
            final(self).same_accounts(old(self)),
            final(self).same_codes(old(self)),
    {
        self.slots.push(SlotRecord { address: *a, key: k, value: v });
        proof {
            assert(self.slots@.drop_last() =~= old(self).slots@);
        }
    }

    /// Deposits `code` as the code of `a`, which is then present.
    pub fn init_code(&mut self, a: &Address, code: Vec<u8>)
        ensures
            final(self).code_of(*a) == Some(code@),
            final(self).exists_spec(*a),
            forall|b: Address| #![trigger final(self).code_of(b)]
                b != *a ==> final(self).code_of(b) == old(self).code_of(b),
            forall|b: Address| #![trigger final(self).balance_of(b)]
                final(self).balance_of(b) == old(self).balance_of(b),
            forall|b: Address| #![trigger final(self).nonce_of(b)]
                final(self).nonce_of(b) == old(self).nonce_of(b),
            final(self).same_accounts_except(old(self), *a),
            final(self).same_storage(old(self)),
    {
        if !self.account_exists(a) {
            self.write_account(a, U256::zero(), U256::zero());
        }
        let ghost mid = self.codes@;
        self.codes.push(CodeRecord { address: *a, code });
        proof {
            assert(self.codes@.drop_last() =~= mid);
        }
    }

    /// Adds one to the nonce of `a`, which is then present.
    pub fn inc_nonce(&mut self, a: &Address)
        requires
            old(self).nonce_of(*a) + 1 < word_bound(),
        ensures
            final(self).nonce_of(*a) == old(self).nonce_of(*a) + 1,
            final(self).balance_of(*a) == old(self).balance_of(*a),
            final(self).exists_spec(*a),
            final(self).same_accounts_except(old(self), *a),
            final(self).same_codes(old(self)),
            final(self).same_storage(old(self)),
    {
        let balance = self.balance(a);
        let nonce = self.nonce(a);
        self.write_account(a, balance, nonce.add(&U256::one()));
    }

    /// Adds `by` to the balance of `a`, which is then present.
    pub fn add_balance(&mut self, a: &Address, by: &U256)
        requires
            old(self).balance_of(*a) + by@ < word_bound(),
        ensures
            final(self).balance_of(*a) == old(self).balance_of(*a) + by@,
            final(self).nonce_of(*a) == old(self).nonce_of(*a),
            final(self).exists_spec(*a),
            final(self).same_accounts_except(old(self), *a),
            final(self).same_codes(old(self)),
            final(self).same_storage(old(self)),
    {
        let balance = self.balance(a);
        let nonce = self.nonce(a);
        self.write_account(a, balance.add(by), nonce);
    }

    /// Takes `by` from the balance of `a`, which is then present.
    pub fn sub_balance(&mut self, a: &Address, by: &U256)
        requires
            by@ <= old(self).balance_of(*a),
        ensures
            final(self).balance_of(*a) == old(self).balance_of(*a) - by@,
            final(self).nonce_of(*a) == old(self).nonce_of(*a),
            final(self).exists_spec(*a),
            final(self).same_accounts_except(old(self), *a),
            final(self).same_codes(old(self)),
            final(self).same_storage(old(self)),
    {
        let balance = self.balance(a);
        let nonce = self.nonce(a);
        self.write_account(a, balance.sub(by), nonce);
    }

    /// Moves `by` from `from` to `to`.
    pub fn transfer_balance(&mut self, from: &Address, to: &Address, by: &U256)
        requires
            by@ <= old(self).balance_of(*from),
            *from != *to ==> old(self).balance_of(*to) + by@ < word_bound(),
        ensures
            *from != *to ==> final(self).balance_of(*from) == old(self).balance_of(*from) - by@,
            *from != *to ==> final(self).balance_of(*to) == old(self).balance_of(*to) + by@,
            *from == *to ==> final(self).balance_of(*from) == old(self).balance_of(*from),
            final(self).nonce_of(*from) == old(self).nonce_of(*from),
            final(self).nonce_of(*to) == old(self).nonce_of(*to),
            forall|b: Address| #![trigger latest_account(final(self).accounts@, b)]
                b != *from && b != *to ==> latest_account(final(self).accounts@, b)
                    == latest_account(old(self).accounts@, b),
            final(self).same_codes(old(self)),
            final(self).same_storage(old(self)),
    {
        self.sub_balance(from, by);
        proof {
            if *from == *to {
                old(self).lemma_balance_bounded(*from);
            }
        }
        self.add_balance(to, by);
    }
}

} // verus!
