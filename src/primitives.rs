//! Fixed-width values of the EVM: 256-bit words, 256-bit hashes and
//! 160-bit addresses.
use vstd::prelude::*;

verus! {

/// 2^128, the weight of the high limb of a word.
pub open spec fn limb_base() -> nat {
    u128::MAX as nat + 1
}

/// 2^256, one past the largest word.
pub open spec fn word_bound() -> nat {
    limb_base() * limb_base()
}

/// Where `a * 2^128 + b` is below 2^256, `a` is below 2^128.
pub proof fn lemma_high_limb_fits(a: nat, b: nat)
    requires
        a * limb_base() + b < word_bound(),
    ensures
        a < limb_base(),
{
    let p = limb_base();
    assert(a < p) by (nonlinear_arith)
        requires
            a * p + b < p * p,
            p > 0,
    ;
}

/// Two-limb values order by their high limbs first.
pub proof fn lemma_limbs_order(h1: nat, l1: nat, h2: nat, l2: nat)
    requires
        l1 < limb_base(),
        l2 < limb_base(),
        h1 < h2,
    ensures
        h1 * limb_base() + l1 < h2 * limb_base() + l2,
{
    let p = limb_base();
    assert(h1 * p + l1 < h2 * p + l2) by (nonlinear_arith)
        requires
            l1 < p,
            h1 < h2,
    ;
}

/// A 256-bit unsigned integer held as two 128-bit limbs.
#[derive(Clone, Copy, Debug, PartialEq, Eq, Structural)]
pub struct U256 {
    pub hi: u128,
    pub lo: u128,
}

impl View for U256 {
    type V = nat;

    open spec fn view(&self) -> nat {
        self.hi as nat * limb_base() + self.lo as nat
    }
}

impl U256 {
    pub fn zero() -> (r: U256)
        ensures
            r@ == 0,
            r == (U256 { hi: 0, lo: 0 }),
    {
        U256 { hi: 0, lo: 0 }
    }

    pub fn one() -> (r: U256)
        ensures
            r@ == 1,
    {
        U256 { hi: 0, lo: 1 }
    }

    pub fn from_u64(v: u64) -> (r: U256)
        ensures
            r@ == v,
    {
        U256 { hi: 0, lo: v as u128 }
    }

    pub fn from_u128(v: u128) -> (r: U256)
        ensures
            r@ == v,
    {
        U256 { hi: 0, lo: v }
    }

    pub proof fn lemma_bounded(&self)
        ensures
            self@ < word_bound(),
    {
        lemma_limbs_order(self.hi as nat, self.lo as nat, limb_base(), 0);
    }

    pub fn is_zero(&self) -> (r: bool)
        ensures
            r == (self@ == 0),
    {
        proof {
            let (h, l, p) = (self.hi as int, self.lo as int, limb_base() as int);
            assert(self@ == 0 <==> (h == 0 && l == 0)) by (nonlinear_arith)
                requires
                    self@ == h * p + l,
                    p > 0,
                    h >= 0,
                    l >= 0,
            ;
        }
        self.hi == 0 && self.lo == 0
    }

    /// `self < o`.
    pub fn lt(&self, o: &U256) -> (r: bool)
        ensures
            r == (self@ < o@),
    {
        proof {
            if self.hi < o.hi {
                lemma_limbs_order(self.hi as nat, self.lo as nat, o.hi as nat, o.lo as nat);
            } else if o.hi < self.hi {
                lemma_limbs_order(o.hi as nat, o.lo as nat, self.hi as nat, self.lo as nat);
            }
        }
        if self.hi != o.hi {
            self.hi < o.hi
        } else {
            self.lo < o.lo
        }
    }

    /// `self - o`, defined where it does not go below zero.
    pub fn sub(&self, o: &U256) -> (r: U256)
        requires
            o@ <= self@,
        ensures
            r@ == self@ - o@,
    {
        proof {
            if self.hi < o.hi {
                lemma_limbs_order(self.hi as nat, self.lo as nat, o.hi as nat, o.lo as nat);
            }
            let p = limb_base();
            let (h1, l1, h2, l2) = (self.hi as int, self.lo as int, o.hi as int, o.lo as int);
            assert((h1 - h2) * p + (l1 - l2) == self@ - o@) by (nonlinear_arith)
                requires
                    self@ == h1 * p + l1,
                    o@ == h2 * p + l2,
            ;
            assert((h1 - h2 - 1) * p + (l1 + p - l2) == self@ - o@) by (nonlinear_arith)
                requires
                    self@ == h1 * p + l1,
                    o@ == h2 * p + l2,
            ;
        }
        if self.lo >= o.lo {
            U256 { hi: self.hi - o.hi, lo: self.lo - o.lo }
        } else {
            U256 { hi: self.hi - o.hi - 1, lo: self.lo + (u128::MAX - o.lo) + 1 }
        }
    }

    /// `self + o`, defined where the sum fits in 256 bits.
    pub fn add(&self, o: &U256) -> (r: U256)
        requires
            self@ + o@ < word_bound(),
        ensures
            r@ == self@ + o@,
    {
        proof {
            let carry: nat = if self.lo as nat + o.lo as nat >= limb_base() { 1 } else { 0 };
            let a = self.hi as nat + o.hi as nat + carry;
            let b = (self.lo as nat + o.lo as nat) - carry * limb_base();
            assert(a * limb_base() + b == self@ + o@) by (nonlinear_arith)
                requires
                    a == self.hi as nat + o.hi as nat + carry,
                    b == (self.lo as nat + o.lo as nat) - carry * limb_base(),
                    self@ == self.hi as nat * limb_base() + self.lo as nat,
                    o@ == o.hi as nat * limb_base() + o.lo as nat,
            ;
            lemma_high_limb_fits(a, b as nat);
        }
        if self.lo <= u128::MAX - o.lo {
            U256 { hi: self.hi + o.hi, lo: self.lo + o.lo }
        } else {
            U256 { hi: self.hi + o.hi + 1, lo: self.lo - (u128::MAX - o.lo) - 1 }
        }
    }

    /// The low 64 bits.
    pub fn low_u64(&self) -> (r: u64)
        ensures
            r == self@ % 0x1_0000_0000_0000_0000,
    {
        let lo = self.lo;
        let r = lo as u64;
        assert(r == lo % 0x1_0000_0000_0000_0000) by (bit_vector)
            requires
                r == lo as u64,
        ;
        proof {
            let m: int = 0x1_0000_0000_0000_0000;
            let a: int = self.hi as int * m;
            assert(m * a == self.hi as int * limb_base()) by (nonlinear_arith)
                requires
                    a == self.hi as int * m,
                    limb_base() == m * m,
            ;
            vstd::arithmetic::div_mod::lemma_mod_multiples_vanish(a, self.lo as int, m);
        }
        r
    }
}

/// A vector holding the bytes of `s`.
pub fn copy_bytes(s: &[u8]) -> (r: Vec<u8>)
    ensures
        r@ == s@,
{
    let mut r: Vec<u8> = Vec::with_capacity(s.len());
    let mut i: usize = 0;
    while i < s.len()
        invariant
            0 <= i <= s@.len(),
            r@ == s@.subrange(0, i as int),
        decreases s@.len() - i,
    {
        r.push(s[i]);
        i = i + 1;
        assert(r@ =~= s@.subrange(0, i as int));
    }
    assert(r@ =~= s@);
    r
}

/// Whether two byte arrays of one length hold the same bytes.
pub fn bytes_equal<const N: usize>(a: &[u8; N], b: &[u8; N]) -> (r: bool)
    ensures
        r == (*a == *b),
{
    let mut i: usize = 0;
    while i < N
        invariant
            0 <= i <= N,
            a@.len() == N,
            b@.len() == N,
            forall|j: int| 0 <= j < i ==> a@[j] == b@[j],
        decreases N - i,
    {
        if a[i] != b[i] {
            return false;
        }
        i = i + 1;
    }
    proof {
        broadcast use vstd::array::axiom_array_ext_equal;
        assert(*a =~= *b);
    }
    true
}

/// A 256-bit hash; storage keys, storage values and block hashes have this shape.
#[derive(Clone, Copy, Debug, PartialEq, Eq)]
pub struct H256 {
    pub bytes: [u8; 32],
}

/// The hash whose 32 bytes are all zero.
pub open spec fn zero_hash() -> H256 {
    H256 { bytes: vstd::array::spec_array_fill_for_copy_type::<u8, 32>(0u8) }
}

impl H256 {
    pub fn new(bytes: [u8; 32]) -> (r: H256)
        ensures
            r.bytes == bytes,
    {
        H256 { bytes }
    }

    pub fn zero() -> (r: H256)
        ensures
            r == zero_hash(),
            forall|i: int| 0 <= i < 32 ==> r.bytes@[i] == 0,
    {
        H256 { bytes: [0u8; 32] }
    }

    pub fn same(&self, o: &H256) -> (r: bool)
        ensures
            r == (*self == *o),
    {
        bytes_equal(&self.bytes, &o.bytes)
    }
}

/// A 160-bit account address.
#[derive(Clone, Copy, Debug, PartialEq, Eq)]
pub struct Address {
    pub bytes: [u8; 20],
}

impl Address {
    pub fn new(bytes: [u8; 20]) -> (r: Address)
        ensures
            r.bytes == bytes,
    {
        Address { bytes }
    }

    /// The all-zero address.
    pub fn zero() -> (r: Address)
        ensures
            forall|i: int| 0 <= i < 20 ==> r.bytes@[i] == 0,
    {
        Address { bytes: [0u8; 20] }
    }

    pub fn same(&self, o: &Address) -> (r: bool)
        ensures
            r == (*self == *o),
    {
        bytes_equal(&self.bytes, &o.bytes)
    }
}

} // verus!
