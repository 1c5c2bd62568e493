//! The inputs of one call or create frame.
use vstd::prelude::*;
use crate::primitives::{Address, U256};

verus! {

/// The value that a frame carries.
#[derive(Clone, Copy, Debug)]
pub enum ActionValue {
    /// Moved from the sender to the receiving account before the frame runs.
    Transfer(U256),
    /// Seen by the frame as its value, with no balance moved.
    Apparent(U256),
}

impl ActionValue {
    /// The word that the frame observes as its value, whichever the variant.
    pub open spec fn word_spec(&self) -> U256 {
        match *self {
            ActionValue::Transfer(v) => v,
            ActionValue::Apparent(v) => v,
        }
    }

    pub fn word(&self) -> (r: U256)
        ensures
            r == self.word_spec(),
    {
        match *self {
            ActionValue::Transfer(v) => v,
            ActionValue::Apparent(v) => v,
        }
    }
}

/// Parameters of a call or create frame.
#[derive(Clone, Debug)]
pub struct ActionParams {
    /// Where the executed code was loaded from.
    pub code_address: Address,
    /// The account whose storage and balance the frame works on; it differs
    /// from `code_address` when the code of another account is borrowed.
    pub address: Address,
    /// The immediate caller.
    pub sender: Address,
    /// The account that signed the outermost transaction.
    pub origin: Address,
    /// Gas given to the frame.
    pub gas: U256,
    /// Gas price of the outermost transaction.
    pub gas_price: U256,
    /// Value carried by the frame.
    pub value: ActionValue,
    /// The code to run; `None` means that it is to be looked up in state.
    pub code: Option<Vec<u8>>,
    /// Input data; `None` means empty.
    pub data: Option<Vec<u8>>,
}

/// Whether every byte of an address is zero.
pub open spec fn is_zero_address(a: Address) -> bool {
    forall|i: int| 0 <= i < 20 ==> a.bytes@[i] == 0
}

impl Default for ActionParams {
    /// Zero addresses, zero gas and price, a transfer of zero, no code and no data.
    fn default() -> (r: ActionParams)
        ensures
            is_zero_address(r.code_address),
            is_zero_address(r.address),
            is_zero_address(r.sender),
            is_zero_address(r.origin),
            r.gas@ == 0,
            r.gas_price@ == 0,
            r.value matches ActionValue::Transfer(v) && v@ == 0,
            r.code.is_none(),
            r.data.is_none(),
    {
        ActionParams {
            code_address: Address::zero(),
            address: Address::zero(),
            sender: Address::zero(),
            origin: Address::zero(),
            gas: U256::zero(),
            gas_price: U256::zero(),
            value: ActionValue::Transfer(U256::zero()),
            code: None,
            data: None,
        }
    }
}

} // verus!
