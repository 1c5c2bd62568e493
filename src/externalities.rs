//! The host of one frame: every query and side effect that the interpreter
//! asks of its environment.
use vstd::prelude::*;
use crate::action_params::{ActionParams, ActionValue};
use crate::creation::{contract_address, contract_address_spec};
use crate::env::{EnvInfo, Schedule};
use crate::primitives::{copy_bytes, word_bound, zero_hash, Address, H256, U256};
use crate::state::State;
use crate::substate::{LogEntry, Substate};

verus! {

/// Where the data of a `RETURN` goes in a message call.
#[derive(Debug)]
pub enum BytesRef {
    /// A buffer of fixed length; longer data is cut to it.
    Fixed(Vec<u8>),
    /// A buffer whose contents are replaced in full.
    Flexible(Vec<u8>),
}

/// What `RETURN` does with its data.
#[derive(Debug)]
pub enum OutputPolicy {
    /// Hand the data back to the caller.
    Return(BytesRef),
    /// Deposit the data as the code of the new contract.
    InitContract,
}

/// What the host keeps of the frame's parameters.
#[derive(Clone, Copy, Debug)]
pub struct OriginInfo {
    pub address: Address,
    pub origin: Address,
    pub gas_price: U256,
    pub value: U256,
}

impl OriginInfo {
    /// Takes the address, origin, gas price and value word of `params`.
    pub fn from(params: &ActionParams) -> (r: OriginInfo)
        ensures
            r.address == params.address,
            r.origin == params.origin,
            r.gas_price == params.gas_price,
            r.value == params.value.word_spec(),
    {
        OriginInfo {
            address: params.address,
            origin: params.origin,
            gas_price: params.gas_price,
            value: params.value.word(),
        }
    }
}

/// Errors of the interpreter and of nested frames.
#[derive(Clone, Copy, Debug, PartialEq, Eq, Structural)]
pub enum EvmError {
    OutOfGas,
    BadJumpDestination,
    BadInstruction,
    StackUnderflow,
    OutOfStack,
    Internal,
}

/// Outcome of a nested create, as the interpreter sees it.
#[derive(Clone, Copy, Debug)]
pub enum ContractCreateResult {
    /// The contract was created at this address, with this much gas left.
    Created(Address, U256),
    Failed,
}

/// Outcome of a nested message call, as the interpreter sees it.
#[derive(Clone, Copy, Debug, PartialEq, Eq, Structural)]
pub enum MessageCallResult {
    /// The call succeeded with this much gas left.
    Success(U256),
    Failed,
}

/// The hash that `BLOCKHASH` gives for block `n` in the block `env`: one of
/// the 256 most recent hashes, and the zero hash outside that window.
pub open spec fn block_hash_spec(env: &EnvInfo, n: nat) -> H256 {
    let h = env.number as nat;
    if in_hash_window(h, n) {
        env.last_hashes@[h - n - 1]
    } else {
        zero_hash()
    }
}

/// Whether block `n` is among the 256 blocks before block `h`.
pub open spec fn in_hash_window(h: nat, n: nat) -> bool {
    n < h && n + 256 >= h
}

/// The buffer of a fixed return sink after `data` is written into it.
pub open spec fn fixed_after(buf: Seq<u8>, data: Seq<u8>) -> Seq<u8> {
    if data.len() >= buf.len() {
        data.subrange(0, buf.len() as int)
    } else {
        data + buf.skip(data.len() as int)
    }
}

/// Whether `child` keeps the origin and gas price of `parent`, as every
/// frame that [`Externalities::create`] and [`Externalities::call`] build
/// does for the frame whose [`OriginInfo`] they run on.
pub open spec fn inherits_origin(parent: ActionParams, child: ActionParams) -> bool {
    child.origin == parent.origin && child.gas_price == parent.gas_price
}

/// Along a chain of nested frames, each built from the one before, every
/// frame has the origin and gas price of the outermost one.
pub proof fn lemma_origin_shared(frames: Seq<ActionParams>)
    requires
        forall|i: int| 0 <= i < frames.len() - 1 ==> #[trigger] inherits_origin(frames[i], frames[i + 1]),
    ensures
        forall|i: int| 0 <= i < frames.len() ==> (#[trigger] frames[i]).origin == frames[0].origin
            && frames[i].gas_price == frames[0].gas_price,
    decreases frames.len(),
{
    if frames.len() > 1 {
        let init = frames.drop_last();
        assert forall|i: int| 0 <= i < init.len() - 1 implies #[trigger] inherits_origin(init[i], init[i + 1]) by {
            assert(inherits_origin(frames[i], frames[i + 1]));
        }
        lemma_origin_shared(init);
        let k = frames.len() - 2;
        assert(inherits_origin(frames[k], frames[k + 1]));
        assert(init[k] == frames[k]);
        assert forall|i: int| 0 <= i < frames.len() implies (#[trigger] frames[i]).origin == frames[0].origin
            && frames[i].gas_price == frames[0].gas_price by {
            if i < frames.len() - 1 {
                assert(init[i] == frames[i]);
            }
        }
    }
}

/// Where a fixed sink is at least as long as the returned data, its first
/// bytes then hold exactly that data.
pub proof fn lemma_fixed_return_prefix(buf: Seq<u8>, data: Seq<u8>)
    requires
        buf.len() >= data.len(),
    ensures
        fixed_after(buf, data).len() == buf.len(),
        fixed_after(buf, data).subrange(0, data.len() as int) == data,
{
    assert(fixed_after(buf, data).subrange(0, data.len() as int) =~= data);
}

/// The edges of the block-hash window: the block before the current one
/// gives the newest hash, the block 256 back gives the oldest, and blocks
/// 257 back, the current block and later ones give the zero hash.
pub proof fn lemma_block_hash_window(env: &EnvInfo, n: nat)
    ensures
        n + 1 == env.number ==> block_hash_spec(env, n) == env.last_hashes@[0],
        n + 256 == env.number ==> block_hash_spec(env, n) == env.last_hashes@[255],
        n + 257 == env.number ==> block_hash_spec(env, n) == zero_hash(),
        n >= env.number ==> block_hash_spec(env, n) == zero_hash(),
{
}

/// Gas charged for depositing `len` bytes of code.
pub open spec fn deposit_cost(schedule: Schedule, len: nat) -> nat {
    len * (schedule.create_data_gas as nat)
}

/// The host of one frame.
pub struct Externalities<'a> {
    pub env_info: &'a EnvInfo,
    pub depth: usize,
    pub origin_info: OriginInfo,
    pub schedule: Schedule,
    pub output: OutputPolicy,
}

impl<'a> Externalities<'a> {
    /// A host for a frame at `depth` in the block `env_info`, charging by `schedule`.
    pub fn new(
        env_info: &'a EnvInfo,
        schedule: Schedule,
        depth: usize,
        origin_info: OriginInfo,
        output: OutputPolicy,
    ) -> (r: Externalities<'a>)
        ensures
            r.env_info == env_info,
            r.schedule == schedule,
            r.depth == depth,
            r.origin_info == origin_info,
            r.output == output,
    {
        Externalities { env_info, depth, origin_info, schedule, output }
    }

    /// The frame's storage at `key`.
    pub fn storage_at(&self, state: &State, key: &H256) -> (r: H256)
        ensures
            r == state.storage_of(self.origin_info.address, *key),
    {
        state.storage_at(&self.origin_info.address, key)
    }

    /// Writes the frame's storage at `key`.
    pub fn set_storage(&self, state: &mut State, key: H256, value: H256)
        ensures
            final(state).storage_of(self.origin_info.address, key) == value,
            forall|b: Address, j: H256| #![trigger final(state).storage_of(b, j)]
                (b, j) != (self.origin_info.address, key) ==> final(state).storage_of(b, j)
                    == old(state).storage_of(b, j),
            final(state).same_accounts(old(state)),
            final(state).same_codes(old(state)),
    {
        state.set_storage(&self.origin_info.address, key, value)
    }

    /// Whether `address` is present.
    pub fn account_exists(&self, state: &State, address: &Address) -> (r: bool)
        ensures
            r == state.exists_spec(*address),
    {
        state.account_exists(address)
    }

    /// Balance of `address`, zero where absent.
    pub fn balance(&self, state: &State, address: &Address) -> (r: U256)
        ensures
            r@ == state.balance_of(*address),
    {
        state.balance(address)
    }

    /// Hash of block `number`, for the 256 blocks before the current one.
    pub fn blockhash(&self, number: &U256) -> (r: H256)
        requires
            self.env_info.last_hashes@.len() >= if self.env_info.number < 256 {
                self.env_info.number as int
            } else {
                256
            },
        ensures
            r == block_hash_spec(self.env_info, number@),
    {
        let h = self.env_info.number;
        if number.lt(&U256::from_u64(h)) {
            let n = number.low_u64();
            proof {
                vstd::arithmetic::div_mod::lemma_small_mod(number@, 0x1_0000_0000_0000_0000);
            }
            let floor: u64 = if h > 256 { h - 256 } else { 0 };
            if n >= floor {
                assert(in_hash_window(h as nat, n as nat));
                let index = (h - n - 1) as usize;
                return self.env_info.last_hashes[index];
            }
        }
        H256::zero()
    }

    /// Code of `address`; empty where it has none.
    pub fn extcode(&self, state: &State, address: &Address) -> (r: Vec<u8>)
        ensures
            r@ == match state.code_of(*address) {
                Some(c) => c,
                None => Seq::empty(),
            },
    {
        match state.code(address) {
            Some(c) => c,
            None => Vec::new(),
        }
    }

    /// `RETURN` with `data` and `gas` left: hands the data to the caller's
    /// sink, or deposits it as the new contract's code and charges for it.
    pub fn ret(&mut self, state: &mut State, gas: &U256, data: &[u8]) -> (r: Result<U256, EvmError>)
        ensures
            final(self).env_info == old(self).env_info,
            final(self).depth == old(self).depth,
            final(self).origin_info == old(self).origin_info,
            final(self).schedule == old(self).schedule,
            match old(self).output {
                OutputPolicy::Return(BytesRef::Fixed(buf)) => {
                    &&& r == Ok::<U256, EvmError>(*gas)
                    &&& final(self).output matches OutputPolicy::Return(BytesRef::Fixed(nb))
                        && nb@ == fixed_after(buf@, data@)
                    &&& *final(state) == *old(state)
                },
                OutputPolicy::Return(BytesRef::Flexible(_)) => {
                    &&& r == Ok::<U256, EvmError>(*gas)
                    &&& final(self).output matches OutputPolicy::Return(BytesRef::Flexible(nb))
                        && nb@ == data@
                    &&& *final(state) == *old(state)
                },
                OutputPolicy::InitContract => {
                    let cost = deposit_cost(old(self).schedule, data@.len());
                    let address = old(self).origin_info.address;
                    &&& final(self).output == OutputPolicy::InitContract
                    &&& cost > gas@ && old(self).schedule.exceptional_failed_code_deposit ==> {
                        &&& r == Err::<U256, EvmError>(EvmError::OutOfGas)
                        &&& *final(state) == *old(state)
                    }
                    &&& cost > gas@ && !old(self).schedule.exceptional_failed_code_deposit ==> {
                        &&& r == Ok::<U256, EvmError>(*gas)
                        &&& *final(state) == *old(state)
                    }
                    &&& cost <= gas@ ==> {
                        &&& r matches Ok(g) && g@ == gas@ - cost
                        &&& final(state).code_of(address) == Some(data@)
                        &&& forall|b: Address| #![trigger final(state).code_of(b)]
                            b != address ==> final(state).code_of(b) == old(state).code_of(b)
                        &&& forall|b: Address| #![trigger final(state).balance_of(b)]
                            final(state).balance_of(b) == old(state).balance_of(b)
                        &&& forall|b: Address| #![trigger final(state).nonce_of(b)]
                            final(state).nonce_of(b) == old(state).nonce_of(b)
                        &&& final(state).same_storage(old(state))
                    }
                },
            },
    {
        match &mut self.output {
            OutputPolicy::Return(BytesRef::Fixed(buf)) => {
                let len = if buf.len() < data.len() { buf.len() } else { data.len() };
                let ghost old_buf = buf@;
                let mut i: usize = 0;
                while i < len
                    invariant
                        0 <= i <= len,
                        len <= data@.len(),
                        len == old_buf.len() || len == data@.len(),
                        len <= old_buf.len(),
                        buf@.len() == old_buf.len(),
                        forall|j: int| 0 <= j < i ==> buf@[j] == data@[j],
                        forall|j: int| i <= j < buf@.len() ==> buf@[j] == old_buf[j],
                    decreases len - i,
                {
                    buf.set(i, data[i]);
                    i = i + 1;
                }
                assert(buf@ =~= fixed_after(old_buf, data@));
                Ok(*gas)
            },
            OutputPolicy::Return(BytesRef::Flexible(buf)) => {
                *buf = copy_bytes(data);
                Ok(*gas)
            },
            OutputPolicy::InitContract => {
                let len = data.len() as u64 as u128;
                let per_byte = self.schedule.create_data_gas as u128;
                assert(len * per_byte <= u128::MAX) by (nonlinear_arith)
                    requires
                        len <= u64::MAX,
                        per_byte <= u64::MAX,
                ;
                let cost = U256::from_u128(len * per_byte);
                if gas.lt(&cost) {
                    if self.schedule.exceptional_failed_code_deposit {
                        Err(EvmError::OutOfGas)
                    } else {
                        Ok(*gas)
                    }
                } else {
                    state.init_code(&self.origin_info.address, copy_bytes(data));
                    Ok(gas.sub(&cost))
                }
            },
        }
    }

    /// First half of `CREATE`: derives the new contract's address from the
    /// frame's account and its nonce, bumps that nonce and returns the
    /// parameters of the child frame, which runs `code` with `gas` and
    /// receives `value`. [`Externalities::finish_create`] takes its outcome.
    pub fn create(&self, state: &mut State, gas: &U256, value: &U256, code: &[u8]) -> (r: ActionParams)
        requires
            old(state).nonce_of(self.origin_info.address) + 1 < word_bound(),
        ensures
            ({
                let creator = self.origin_info.address;
                &&& r.address.bytes@ == contract_address_spec(creator, old(state).nonce_word(creator))
                &&& r.code_address == r.address
                &&& r.sender == creator
                &&& r.origin == self.origin_info.origin
                &&& r.gas_price == self.origin_info.gas_price
                &&& r.gas == *gas
                &&& r.value == ActionValue::Transfer(*value)
                &&& r.code matches Some(c) && c@ == code@
                &&& r.data.is_none()
                &&& final(state).nonce_of(creator) == old(state).nonce_of(creator) + 1
                &&& final(state).balance_of(creator) == old(state).balance_of(creator)
                &&& final(state).same_accounts_except(old(state), creator)
                &&& final(state).same_codes(old(state))
                &&& final(state).same_storage(old(state))
            }),
    {
        let creator = self.origin_info.address;
        let nonce = state.nonce(&creator);
        let address = contract_address(&creator, &nonce);
        let params = ActionParams {
            code_address: address,
            address: address,
            sender: creator,
            origin: self.origin_info.origin,
            gas: *gas,
            gas_price: self.origin_info.gas_price,
            value: ActionValue::Transfer(*value),
            code: Some(copy_bytes(code)),
            data: None,
        };
        state.inc_nonce(&creator);
        params
    }

    /// Second half of `CREATE`: on success of the child frame, records its
    /// address as created; any failure is reported as `Failed`.
    pub fn finish_create(
        &self,
        substate: &mut Substate,
        child: &ActionParams,
        outcome: Result<U256, EvmError>,
    ) -> (r: ContractCreateResult)
        ensures
            match outcome {
                Ok(g) => {
                    &&& r == ContractCreateResult::Created(child.address, g)
                    &&& final(substate).contracts_created@ == old(substate).contracts_created@.push(child.address)
                    &&& final(substate).suicides@ == old(substate).suicides@
                    &&& final(substate).logs@ == old(substate).logs@
                    &&& final(substate).sstore_clears_count == old(substate).sstore_clears_count
                },
                Err(_) => r == ContractCreateResult::Failed && *final(substate) == *old(substate),
            },
    {
        match outcome {
            Ok(gas_left) => {
                substate.contracts_created.push(child.address);
                ContractCreateResult::Created(child.address, gas_left)
            },
            Err(_) => ContractCreateResult::Failed,
        }
    }

    /// First half of a message call: the parameters of the child frame,
    /// which runs the code of `code_address` on `data` with `gas`, for the
    /// account `receive_address`. With no `value` the child sees this frame's
    /// value and nothing is moved; with one, that value is transferred.
    /// [`Externalities::finish_call`] takes its outcome.
    pub fn call(
        &self,
        state: &State,
        gas: &U256,
        sender_address: &Address,
        receive_address: &Address,
        value: Option<U256>,
        data: &[u8],
        code_address: &Address,
    ) -> (r: ActionParams)
        ensures
            r.sender == *sender_address,
            r.address == *receive_address,
            r.code_address == *code_address,
            r.origin == self.origin_info.origin,
            r.gas_price == self.origin_info.gas_price,
            r.gas == *gas,
            r.value == match value {
                Some(v) => ActionValue::Transfer(v),
                None => ActionValue::Apparent(self.origin_info.value),
            },
            match r.code {
                Some(c) => state.code_of(*code_address) == Some(c@),
                None => state.code_of(*code_address).is_none(),
            },
            r.data matches Some(d) && d@ == data@,
    {
        let value = match value {
            Some(v) => ActionValue::Transfer(v),
            None => ActionValue::Apparent(self.origin_info.value),
        };
        ActionParams {
            sender: *sender_address,
            address: *receive_address,
            value,
            code_address: *code_address,
            origin: self.origin_info.origin,
            gas: *gas,
            gas_price: self.origin_info.gas_price,
            code: state.code(code_address),
            data: Some(copy_bytes(data)),
        }
    }

    /// Second half of a message call: the outcome of the child frame as the
    /// interpreter sees it.
    pub fn finish_call(&self, outcome: Result<U256, EvmError>) -> (r: MessageCallResult)
        ensures
            r == match outcome {
                Ok(g) => MessageCallResult::Success(g),
                Err(_) => MessageCallResult::Failed,
            },
    {
        match outcome {
            Ok(gas_left) => MessageCallResult::Success(gas_left),
            Err(_) => MessageCallResult::Failed,
        }
    }

    /// Appends a log entry of this frame's account.
    pub fn log(&self, substate: &mut Substate, topics: Vec<H256>, data: &[u8])
        ensures
            final(substate).logs@.len() == old(substate).logs@.len() + 1,
            final(substate).logs@.drop_last() == old(substate).logs@,
            final(substate).logs@.last().address == self.origin_info.address,
            final(substate).logs@.last().topics@ == topics@,
            final(substate).logs@.last().data@ == data@,
            final(substate).suicides@ == old(substate).suicides@,
            final(substate).sstore_clears_count == old(substate).sstore_clears_count,
            final(substate).contracts_created@ == old(substate).contracts_created@,
    {
        let entry = LogEntry::new(self.origin_info.address, topics, copy_bytes(data));
        substate.logs.push(entry);
        proof {
            assert(substate.logs@.drop_last() =~= old(substate).logs@);
        }
    }

    /// Destroys this frame's account: its whole balance goes to
    /// `refund_address`, and it is scheduled for deletion. A refund to the
    /// account itself leaves its balance at zero.
    pub fn suicide(&self, state: &mut State, substate: &mut Substate, refund_address: &Address)
        requires
            old(substate).wf(),
            *refund_address != self.origin_info.address ==> old(state).balance_of(*refund_address)
                + old(state).balance_of(self.origin_info.address) < word_bound(),
        ensures
            final(state).balance_of(self.origin_info.address) == 0,
            *refund_address != self.origin_info.address ==> final(state).balance_of(*refund_address)
                == old(state).balance_of(*refund_address) + old(state).balance_of(self.origin_info.address),
            forall|b: Address| #![trigger final(state).balance_of(b)]
                b != self.origin_info.address && b != *refund_address ==> final(state).balance_of(b)
                    == old(state).balance_of(b),
            forall|b: Address| #![trigger final(state).nonce_of(b)]
                final(state).nonce_of(b) == old(state).nonce_of(b),
            final(state).same_codes(old(state)),
            final(state).same_storage(old(state)),
            final(substate).wf(),
            final(substate).suicide_set() == old(substate).suicide_set().insert(self.origin_info.address),
            old(substate).suicides@.contains(self.origin_info.address) ==> final(substate).suicides@
                == old(substate).suicides@,
            final(substate).logs@ == old(substate).logs@,
            final(substate).sstore_clears_count == old(substate).sstore_clears_count,
            final(substate).contracts_created@ == old(substate).contracts_created@,
    {
        let address = self.origin_info.address;
        let balance = state.balance(&address);
        if address.same(refund_address) {
            state.sub_balance(&address, &balance);
        } else {
            state.transfer_balance(&address, refund_address, &balance);
        }
        substate.add_suicide(address);
    }

    /// Counts one more cleared storage slot.
    pub fn inc_sstore_clears(&self, substate: &mut Substate)
        requires
            old(substate).sstore_clears_count@ + 1 < word_bound(),
        ensures
            final(substate).sstore_clears_count@ == old(substate).sstore_clears_count@ + 1,
            final(substate).suicides@ == old(substate).suicides@,
            final(substate).logs@ == old(substate).logs@,
            final(substate).contracts_created@ == old(substate).contracts_created@,
    {
        substate.inc_sstore_clears()
    }

    /// The gas schedule of the frame.
    pub fn schedule(&self) -> (r: &Schedule)
        ensures
            *r == self.schedule,
    {
        &self.schedule
    }

    /// The enclosing block.
    pub fn env_info(&self) -> (r: &EnvInfo)
        ensures
            r == self.env_info,
    {
        self.env_info
    }

    /// Number of frames above this one.
    pub fn depth(&self) -> (r: usize)
        ensures
            r == self.depth,
    {
        self.depth
    }
}

} // verus!
