use tiny_keccak::Hasher;
use ethcore_host::action_params::{ActionParams, ActionValue};
use ethcore_host::creation::contract_address;
use ethcore_host::env::{EnvInfo, Schedule};
use ethcore_host::externalities::{
    BytesRef, ContractCreateResult, EvmError, Externalities, MessageCallResult, OriginInfo, OutputPolicy,
};
use ethcore_host::primitives::{Address, H256, U256};
use ethcore_host::state::State;
use ethcore_host::substate::Substate;

fn addr(last: u8) -> Address {
    let mut b = [0u8; 20];
    b[19] = last;
    Address::new(b)
}

fn addr_hex(s: &str) -> Address {
    let mut b = [0u8; 20];
    for i in 0..20 {
        b[i] = u8::from_str_radix(&s[2 * i..2 * i + 2], 16).unwrap();
    }
    Address::new(b)
}

fn hash(fill: u8) -> H256 {
    H256::new([fill; 32])
}

fn word(v: u64) -> U256 {
    U256::from_u64(v)
}

fn env(number: u64, n_hashes: usize) -> EnvInfo {
    let mut last_hashes = Vec::new();
    for i in 0..n_hashes {
        let mut b = [0u8; 32];
        b[30] = (i >> 8) as u8;
        b[31] = i as u8;
        b[0] = 0xaa;
        last_hashes.push(H256::new(b));
    }
    EnvInfo {
        number,
        author: addr(0),
        timestamp: 0,
        difficulty: U256::zero(),
        gas_limit: U256::zero(),
        last_hashes,
        gas_used: U256::zero(),
    }
}

fn schedule(create_data_gas: u64, strict: bool) -> Schedule {
    Schedule { create_data_gas, exceptional_failed_code_deposit: strict }
}

fn params_for(address: Address, value: ActionValue) -> ActionParams {
    let mut p = ActionParams::default();
    p.address = address;
    p.code_address = address;
    p.sender = addr(0xee);
    p.origin = addr(0xee);
    p.gas_price = word(7);
    p.value = value;
    p
}

fn host<'a>(env: &'a EnvInfo, sched: Schedule, address: Address, output: OutputPolicy) -> Externalities<'a> {
    let info = OriginInfo::from(&params_for(address, ActionValue::Transfer(U256::zero())));
    Externalities::new(env, sched, 0, info, output)
}

fn fund(state: &mut State, a: &Address, amount: u64) {
    state.add_balance(a, &word(amount));
}

#[test]
fn default_params_are_zero() {
    let p = ActionParams::default();
    assert_eq!(p.address, Address::zero());
    assert_eq!(p.code_address, Address::zero());
    assert_eq!(p.sender, Address::zero());
    assert_eq!(p.origin, Address::zero());
    assert_eq!(p.gas, U256::zero());
    assert_eq!(p.gas_price, U256::zero());
    assert!(matches!(p.value, ActionValue::Transfer(v) if v == U256::zero()));
    assert!(p.code.is_none());
    assert!(p.data.is_none());
}

#[test]
fn origin_info_collapses_value() {
    let a = OriginInfo::from(&params_for(addr(1), ActionValue::Apparent(word(9))));
    let b = OriginInfo::from(&params_for(addr(1), ActionValue::Transfer(word(9))));
    assert_eq!(a.value, word(9));
    assert_eq!(b.value, word(9));
    assert_eq!(a.address, addr(1));
    assert_eq!(a.origin, addr(0xee));
    assert_eq!(a.gas_price, word(7));
}

#[test]
fn apparent_value_propagation() {
    let e = env(10, 10);
    let mut state = State::new();
    fund(&mut state, &addr(0xa), 1000);
    let top = params_for(addr(0xa), ActionValue::Transfer(word(100)));
    let h = Externalities::new(&e, schedule(200, true), 0, OriginInfo::from(&top), OutputPolicy::InitContract);
    let child = h.call(&state, &word(5000), &addr(0xa), &addr(0xb), None, &[1, 2], &addr(0xb));
    assert!(matches!(child.value, ActionValue::Apparent(v) if v == word(100)));
    assert_eq!(OriginInfo::from(&child).value, word(100));
    assert_eq!(child.origin, addr(0xee));
    assert_eq!(child.gas_price, word(7));
    assert_eq!(child.data, Some(vec![1, 2]));
    assert!(child.code.is_none());
    assert_eq!(state.balance(&addr(0xa)), word(1000));
    assert_eq!(state.balance(&addr(0xb)), U256::zero());
}

#[test]
fn call_with_value_is_a_transfer() {
    let e = env(10, 10);
    let mut state = State::new();
    state.init_code(&addr(0xc), vec![0x60, 0x00]);
    let h = host(&e, schedule(200, true), addr(0xa), OutputPolicy::InitContract);
    let child = h.call(&state, &word(1), &addr(0xa), &addr(0xb), Some(word(3)), &[], &addr(0xc));
    assert!(matches!(child.value, ActionValue::Transfer(v) if v == word(3)));
    assert_eq!(child.code, Some(vec![0x60, 0x00]));
    assert_eq!(child.code_address, addr(0xc));
    assert_eq!(child.address, addr(0xb));
    assert_eq!(child.gas, word(1));
    assert_eq!(h.finish_call(Ok(word(40))), MessageCallResult::Success(word(40)));
    assert_eq!(h.finish_call(Err(EvmError::OutOfGas)), MessageCallResult::Failed);
}

#[test]
fn contract_address_known_vector() {
    let creator = addr_hex("6ac7ea33f8831ea9dcc53393aaa88b25a785dbf0");
    assert_eq!(contract_address(&creator, &word(0)), addr_hex("cd234a471b72ba2f1ccf0a70fcaba648a5eecd8d"));
    assert_eq!(contract_address(&creator, &word(1)), addr_hex("343c43a37d37dff08ae8c4a11544c718abb4fcf8"));
    assert_eq!(contract_address(&creator, &word(2)), addr_hex("f778b86fa74e846c4f0a1fbd1335fe81c00a0c91"));
}

#[test]
fn nonce_bump_on_failed_create() {
    let e = env(10, 10);
    let a = addr(0xa);
    let mut state = State::new();
    for _ in 0..5 {
        state.inc_nonce(&a);
    }
    assert_eq!(state.nonce(&a), word(5));
    let mut sub = Substate::new();
    let h = host(&e, schedule(200, true), a, OutputPolicy::InitContract);
    let child = h.create(&mut state, &word(100), &word(0), &[0xfe]);
    assert_eq!(child.address, contract_address(&a, &word(5)));
    assert_eq!(child.code_address, child.address);
    assert_eq!(child.sender, a);
    assert_eq!(child.code, Some(vec![0xfe]));
    assert!(child.data.is_none());
    assert_eq!(state.nonce(&a), word(6));
    let r = h.finish_create(&mut sub, &child, Err(EvmError::BadInstruction));
    assert!(matches!(r, ContractCreateResult::Failed));
    assert!(sub.contracts_created.is_empty());
}

#[test]
fn successful_create_records_contract() {
    let e = env(10, 10);
    let a = addr(0xa);
    let mut state = State::new();
    let mut sub = Substate::new();
    let h = host(&e, schedule(200, true), a, OutputPolicy::InitContract);
    let child = h.create(&mut state, &word(100), &word(4), &[0x00]);
    assert!(matches!(child.value, ActionValue::Transfer(v) if v == word(4)));
    assert_eq!(state.nonce(&a), word(1));
    let r = h.finish_create(&mut sub, &child, Ok(word(60)));
    match r {
        ContractCreateResult::Created(x, g) => {
            assert_eq!(x, child.address);
            assert_eq!(g, word(60));
        }
        ContractCreateResult::Failed => panic!("create failed"),
    }
    assert_eq!(sub.contracts_created.last(), Some(&child.address));
    assert_eq!(child.address, contract_address(&a, &word(0)));
}

#[test]
fn code_deposit_cost_out_of_gas() {
    let e = env(10, 10);
    let mut state = State::new();
    let mut h = host(&e, schedule(200, true), addr(0xa), OutputPolicy::InitContract);
    let r = h.ret(&mut state, &word(1500), &[1u8; 10]);
    assert_eq!(r, Err(EvmError::OutOfGas));
    assert!(state.code(&addr(0xa)).is_none());
}

#[test]
fn code_deposit_charged_and_stored() {
    let e = env(10, 10);
    let mut state = State::new();
    let mut h = host(&e, schedule(200, true), addr(0xa), OutputPolicy::InitContract);
    let r = h.ret(&mut state, &word(2500), &[1u8; 10]);
    assert_eq!(r, Ok(word(500)));
    assert_eq!(state.code(&addr(0xa)), Some(vec![1u8; 10]));
    assert_eq!(h.extcode(&state, &addr(0xa)), vec![1u8; 10]);
    assert!(h.account_exists(&state, &addr(0xa)));
}

#[test]
fn zero_gas_deposit_strict_and_lenient() {
    let e = env(10, 10);
    let mut state = State::new();
    let mut strict = host(&e, schedule(200, true), addr(0xa), OutputPolicy::InitContract);
    assert_eq!(strict.ret(&mut state, &word(0), &[0x00]), Err(EvmError::OutOfGas));
    let mut lenient = host(&e, schedule(200, false), addr(0xa), OutputPolicy::InitContract);
    assert_eq!(lenient.ret(&mut state, &word(0), &[0x00]), Ok(word(0)));
    assert!(state.code(&addr(0xa)).is_none());
    assert!(lenient.extcode(&state, &addr(0xa)).is_empty());
}

#[test]
fn fixed_return_truncates() {
    let e = env(10, 10);
    let mut state = State::new();
    let mut h = host(&e, schedule(200, true), addr(0xa), OutputPolicy::Return(BytesRef::Fixed(vec![9u8; 3])));
    assert_eq!(h.ret(&mut state, &word(77), &[1, 2, 3, 4, 5]), Ok(word(77)));
    assert!(matches!(&h.output, OutputPolicy::Return(BytesRef::Fixed(b)) if *b == vec![1, 2, 3]));
}

#[test]
fn fixed_return_prefix_holds_data() {
    let e = env(10, 10);
    let mut state = State::new();
    let mut h = host(&e, schedule(200, true), addr(0xa), OutputPolicy::Return(BytesRef::Fixed(vec![9u8; 5])));
    assert_eq!(h.ret(&mut state, &word(1), &[1, 2]), Ok(word(1)));
    assert!(matches!(&h.output, OutputPolicy::Return(BytesRef::Fixed(b)) if *b == vec![1, 2, 9, 9, 9]));
}

#[test]
fn flexible_return_replaces() {
    let e = env(10, 10);
    let mut state = State::new();
    let mut h = host(&e, schedule(200, true), addr(0xa), OutputPolicy::Return(BytesRef::Flexible(vec![9u8; 5])));
    assert_eq!(h.ret(&mut state, &word(3), &[1, 2]), Ok(word(3)));
    assert!(matches!(&h.output, OutputPolicy::Return(BytesRef::Flexible(b)) if *b == vec![1, 2]));
}

#[test]
fn block_hash_window_boundary() {
    let e = env(1000, 256);
    let h = host(&e, schedule(200, true), addr(0xa), OutputPolicy::InitContract);
    assert_eq!(h.blockhash(&word(999)), e.last_hashes[0]);
    assert_eq!(h.blockhash(&word(999)).bytes[0], 0xaa);
    assert_eq!(h.blockhash(&word(744)), e.last_hashes[255]);
    assert_eq!(h.blockhash(&word(743)), H256::zero());
    assert_eq!(h.blockhash(&word(1000)), H256::zero());
    assert_eq!(h.blockhash(&word(1001)), H256::zero());
}

#[test]
fn block_hash_early_chain_and_huge_number() {
    let e = env(10, 10);
    let h = host(&e, schedule(200, true), addr(0xa), OutputPolicy::InitContract);
    assert_eq!(h.blockhash(&word(0)), e.last_hashes[9]);
    assert_eq!(h.blockhash(&word(9)), e.last_hashes[0]);
    let huge = U256 { hi: 1, lo: 5 };
    assert_eq!(h.blockhash(&huge), H256::zero());
}

#[test]
fn suicide_self_refund() {
    let e = env(10, 10);
    let a = addr(0xa);
    let mut state = State::new();
    fund(&mut state, &a, 42);
    let mut sub = Substate::new();
    let h = host(&e, schedule(200, true), a, OutputPolicy::InitContract);
    h.suicide(&mut state, &mut sub, &a);
    assert_eq!(h.balance(&state, &a), U256::zero());
    assert_eq!(sub.suicides, vec![a]);
}

#[test]
fn suicide_twice_keeps_set() {
    let e = env(10, 10);
    let a = addr(0xa);
    let b = addr(0xb);
    let mut state = State::new();
    fund(&mut state, &a, 42);
    fund(&mut state, &b, 8);
    let mut sub = Substate::new();
    let h = host(&e, schedule(200, true), a, OutputPolicy::InitContract);
    h.suicide(&mut state, &mut sub, &b);
    assert_eq!(state.balance(&a), U256::zero());
    assert_eq!(state.balance(&b), word(50));
    h.suicide(&mut state, &mut sub, &b);
    assert_eq!(sub.suicides, vec![a]);
    assert_eq!(state.balance(&a), U256::zero());
    assert_eq!(state.balance(&b), word(50));
}

#[test]
fn sstore_clear_counter() {
    let e = env(10, 10);
    let mut sub = Substate::new();
    sub.sstore_clears_count = word(4);
    let h = host(&e, schedule(200, true), addr(0xa), OutputPolicy::InitContract);
    h.inc_sstore_clears(&mut sub);
    h.inc_sstore_clears(&mut sub);
    h.inc_sstore_clears(&mut sub);
    assert_eq!(sub.sstore_clears_count, word(7));
}

#[test]
fn storage_read_after_write() {
    let e = env(10, 10);
    let mut state = State::new();
    let h = host(&e, schedule(200, true), addr(0xa), OutputPolicy::InitContract);
    assert_eq!(h.storage_at(&state, &hash(1)), H256::zero());
    h.set_storage(&mut state, hash(1), hash(2));
    assert_eq!(h.storage_at(&state, &hash(1)), hash(2));
    h.set_storage(&mut state, hash(1), hash(3));
    assert_eq!(h.storage_at(&state, &hash(1)), hash(3));
    assert_eq!(h.storage_at(&state, &hash(4)), H256::zero());
    assert_eq!(state.storage_at(&addr(0xb), &hash(1)), H256::zero());
}

#[test]
fn log_uses_frame_address() {
    let e = env(10, 10);
    let mut sub = Substate::new();
    let h = host(&e, schedule(200, true), addr(0xa), OutputPolicy::InitContract);
    h.log(&mut sub, vec![hash(5)], &[7, 8]);
    assert_eq!(sub.logs.len(), 1);
    assert_eq!(sub.logs[0].address, addr(0xa));
    assert_eq!(sub.logs[0].topics, vec![hash(5)]);
    assert_eq!(sub.logs[0].data, vec![7, 8]);
}

#[test]
fn host_getters() {
    let e = env(10, 10);
    let info = OriginInfo::from(&params_for(addr(1), ActionValue::Transfer(U256::zero())));
    let h = Externalities::new(&e, schedule(200, false), 3, info, OutputPolicy::InitContract);
    assert_eq!(h.depth(), 3);
    assert_eq!(h.schedule().create_data_gas, 200);
    assert!(!h.schedule().exceptional_failed_code_deposit);
    assert_eq!(h.env_info().number, 10);
}

#[test]
fn word_arithmetic() {
    let max_lo = U256 { hi: 0, lo: u128::MAX };
    assert_eq!(max_lo.add(&U256::one()), U256 { hi: 1, lo: 0 });
    assert_eq!(U256 { hi: 1, lo: 0 }.sub(&U256::one()), max_lo);
    assert_eq!(U256 { hi: 2, lo: 3 }.sub(&U256 { hi: 1, lo: 5 }), U256 { hi: 0, lo: u128::MAX - 1 });
    assert!(max_lo.lt(&U256 { hi: 1, lo: 0 }));
    assert!(!U256 { hi: 1, lo: 0 }.lt(&max_lo));
    assert_eq!(U256 { hi: 3, lo: (1u128 << 64) + 9 }.low_u64(), 9);
    assert!(U256::zero().is_zero());
    assert!(!U256 { hi: 1, lo: 0 }.is_zero());
}

#[test]
fn transfer_between_accounts() {
    let mut state = State::new();
    fund(&mut state, &addr(1), 10);
    state.transfer_balance(&addr(1), &addr(2), &word(4));
    assert_eq!(state.balance(&addr(1)), word(6));
    assert_eq!(state.balance(&addr(2)), word(4));
    state.sub_balance(&addr(2), &word(4));
    assert_eq!(state.balance(&addr(2)), U256::zero());
    assert!(state.account_exists(&addr(2)));
    assert!(!state.account_exists(&addr(3)));
}

fn expected_address(creator: &Address, nonce_rlp: &[u8]) -> Address {
    let mut input = vec![(0xc0 + 21 + nonce_rlp.len()) as u8, 0x94];
    input.extend_from_slice(&creator.bytes);
    input.extend_from_slice(nonce_rlp);
    let mut k = tiny_keccak::Keccak::v256();
    k.update(&input);
    let mut out = [0u8; 32];
    k.finalize(&mut out);
    let mut b = [0u8; 20];
    b.copy_from_slice(&out[12..]);
    Address::new(b)
}

#[test]
fn contract_address_multi_byte_nonces() {
    let creator = addr(0x42);
    assert_eq!(contract_address(&creator, &word(0)), expected_address(&creator, &[0x80]));
    assert_eq!(contract_address(&creator, &word(0x7f)), expected_address(&creator, &[0x7f]));
    assert_eq!(contract_address(&creator, &word(0x80)), expected_address(&creator, &[0x81, 0x80]));
    assert_eq!(contract_address(&creator, &word(0x1234)), expected_address(&creator, &[0x82, 0x12, 0x34]));
    let mut big = vec![0xa0u8, 0x01];
    big.extend_from_slice(&[0u8; 31]);
    assert_eq!(contract_address(&creator, &U256 { hi: 1u128 << 120, lo: 0 }), expected_address(&creator, &big));
    assert_ne!(contract_address(&creator, &word(1)), contract_address(&creator, &word(2)));
}
