//! The enclosing block and the gas costs in force for it.
use vstd::prelude::*;
use crate::primitives::{Address, H256, U256};

verus! {

/// Metadata of the block being executed.
#[derive(Clone, Debug)]
pub struct EnvInfo {
    /// Number of the current block.
    pub number: u64,
    /// Beneficiary of the block.
    pub author: Address,
    pub timestamp: u64,
    pub difficulty: U256,
    pub gas_limit: U256,
    /// Hashes of the preceding blocks, newest first.
    pub last_hashes: Vec<H256>,
    /// Gas used by the block so far.
    pub gas_used: U256,
}

/// Gas costs used by the host.
#[derive(Clone, Copy, Debug)]
pub struct Schedule {
    /// Gas charged per byte of deposited contract code.
    pub create_data_gas: u64,
    /// Whether a code deposit that cannot be paid for is an out-of-gas error
    /// (otherwise the deposit is skipped and the gas kept).
    pub exceptional_failed_code_deposit: bool,
}

} // verus!
