//! The address of a contract created by an account: the last 20 bytes of
//! the Keccak-256 digest of the RLP list `[creator, nonce]`.
use vstd::prelude::*;
use crate::primitives::{Address, U256};

verus! {

/// The Keccak-256 digest of `data`.
pub uninterp spec fn keccak256_of(data: Seq<u8>) -> Seq<u8>;

/// Relies on tiny_keccak's `Keccak::v256` hasher: the 32-byte Keccak-256
/// digest, which depends on the input bytes alone.
#[verifier::external_body]
fn keccak256(data: &[u8]) -> (r: [u8; 32])
    ensures
        r@ == keccak256_of(data@),
{
    let mut hasher = tiny_keccak::Keccak::v256();
    tiny_keccak::Hasher::update(&mut hasher, data);
    let mut out = [0u8; 32];
    tiny_keccak::Hasher::finalize(hasher, &mut out);
    out
}

/// Byte `i` of the 32-byte big-endian form of `w`.
pub open spec fn word_byte(w: U256, i: int) -> u8 {
    if i < 16 {
        (w.hi >> ((8 * (15 - i)) as u128)) as u8
    } else {
        (w.lo >> ((8 * (31 - i)) as u128)) as u8
    }
}

/// The 32-byte big-endian form of `w`.
pub open spec fn word_be_bytes(w: U256) -> Seq<u8> {
    Seq::new(32, |i: int| word_byte(w, i))
}

/// `s` without its leading zero bytes.
pub open spec fn strip_leading_zeros(s: Seq<u8>) -> Seq<u8>
    decreases s.len(),
{
    if s.len() > 0 && s[0] == 0 {
        strip_leading_zeros(s.skip(1))
    } else {
        s
    }
}

/// RLP form of a byte string of at most 55 bytes.
pub open spec fn rlp_short_string(bs: Seq<u8>) -> Seq<u8> {
    if bs.len() == 1 && bs[0] < 0x80 {
        bs
    } else {
        seq![(0x80 + bs.len()) as u8] + bs
    }
}

/// RLP form of the list `[creator, nonce]`, the input whose digest names the
/// created contract.
pub open spec fn creation_preimage(creator: Address, nonce: U256) -> Seq<u8> {
    let n = rlp_short_string(strip_leading_zeros(word_be_bytes(nonce)));
    seq![(0xc0 + 21 + n.len()) as u8, 0x94u8] + creator.bytes@ + n
}

/// Address of the contract that `creator` creates with account nonce `nonce`.
pub open spec fn contract_address_spec(creator: Address, nonce: U256) -> Seq<u8> {
    keccak256_of(creation_preimage(creator, nonce)).subrange(12, 32)
}

fn word_to_be_bytes(w: &U256) -> (r: Vec<u8>)
    ensures
        r@ == word_be_bytes(*w),
{
    let mut r: Vec<u8> = Vec::with_capacity(32);
    let mut k: usize = 0;
    while k < 32
        invariant
            0 <= k <= 32,
            r@ =~= word_be_bytes(*w).subrange(0, k as int),
        decreases 32 - k,
    {
        let b: u8 = if k < 16 {
            let s: u128 = (8 * (15 - k)) as u128;
            (w.hi >> s) as u8
        } else {
            let s: u128 = (8 * (31 - k)) as u128;
            (w.lo >> s) as u8
        };
        r.push(b);
        k = k + 1;
        assert(r@ =~= word_be_bytes(*w).subrange(0, k as int));
    }
    r
}

fn minimal_be_bytes(w: &U256) -> (r: Vec<u8>)
    ensures
        r@ == strip_leading_zeros(word_be_bytes(*w)),
        r@.len() <= 32,
{
    let full = word_to_be_bytes(w);
    let mut i: usize = 0;
    assert(full@.skip(0) =~= full@);
    while i < full.len() && full[i] == 0
        invariant
            0 <= i <= full@.len(),
            full@.len() == 32,
            strip_leading_zeros(full@) == strip_leading_zeros(full@.skip(i as int)),
        decreases full@.len() - i,
    {
        assert(full@.skip(i as int).skip(1) =~= full@.skip(i + 1));
        i = i + 1;
    }
    let mut r: Vec<u8> = Vec::with_capacity(full.len() - i);
    let mut j: usize = i;
    while j < full.len()
        invariant
            i <= j <= full@.len(),
            r@ =~= full@.subrange(i as int, j as int),
        decreases full@.len() - j,
    {
        r.push(full[j]);
        j = j + 1;
        assert(r@ =~= full@.subrange(i as int, j as int));
    }
    assert(full@.skip(i as int) =~= full@.subrange(i as int, 32));
    r
}

/// The RLP list `[creator, nonce]`.
fn creation_input(creator: &Address, nonce: &U256) -> (r: Vec<u8>)
    ensures
        r@ == creation_preimage(*creator, *nonce),
{
    let digits = minimal_be_bytes(nonce);
    let mut n: Vec<u8> = Vec::new();
    if digits.len() == 1 && digits[0] < 0x80 {
        n.push(digits[0]);
        assert(n@ =~= digits@);
    } else {
        n.push((0x80 + digits.len()) as u8);
        let mut j: usize = 0;
        while j < digits.len()
            invariant
                0 <= j <= digits@.len(),
                n@ =~= seq![(0x80 + digits@.len()) as u8] + digits@.subrange(0, j as int),
            decreases digits@.len() - j,
        {
            n.push(digits[j]);
            j = j + 1;
            assert(n@ =~= seq![(0x80 + digits@.len()) as u8] + digits@.subrange(0, j as int));
        }
        assert(digits@.subrange(0, digits@.len() as int) =~= digits@);
    }
    let mut r: Vec<u8> = Vec::new();
    r.push((0xc0 + 21 + n.len()) as u8);
    r.push(0x94u8);
    let mut k: usize = 0;
    while k < 20
        invariant
            0 <= k <= 20,
            n@.len() <= 33,
            r@ =~= seq![(0xc0 + 21 + n@.len()) as u8, 0x94u8] + creator.bytes@.subrange(0, k as int),
        decreases 20 - k,
    {
        r.push(creator.bytes[k]);
        k = k + 1;
        assert(r@ =~= seq![(0xc0 + 21 + n@.len()) as u8, 0x94u8] + creator.bytes@.subrange(0, k as int));
    }
    assert(creator.bytes@.subrange(0, 20) =~= creator.bytes@);
    let ghost head = r@;
    let mut j: usize = 0;
    while j < n.len()
        invariant
            0 <= j <= n@.len(),
            r@ =~= head + n@.subrange(0, j as int),
        decreases n@.len() - j,
    {
        r.push(n[j]);
        j = j + 1;
        assert(r@ =~= head + n@.subrange(0, j as int));
    }
    assert(n@.subrange(0, n@.len() as int) =~= n@);
    r
}

/// Address of the contract that `creator` creates with account nonce `nonce`.
pub fn contract_address(creator: &Address, nonce: &U256) -> (r: Address)
    ensures
        r.bytes@ == contract_address_spec(*creator, *nonce),
{
    let input = creation_input(creator, nonce);
    let digest = keccak256(input.as_slice());
    let mut bytes = [0u8; 20];
    let mut k: usize = 0;
    while k < 20
        invariant
            0 <= k <= 20,
            digest@ == keccak256_of(creation_preimage(*creator, *nonce)),
            forall|j: int| 0 <= j < k ==> bytes@[j] == digest@[12 + j],
        decreases 20 - k,
    {
        bytes[k] = digest[12 + k];
        k = k + 1;
    }
    assert(bytes@ =~= digest@.subrange(12, 32));
    Address { bytes }
}

} // verus!
