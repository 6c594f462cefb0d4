//! Plain value types shared by every layer: account addresses, 32-byte words
//! and unsigned 256-bit amounts.
use vstd::prelude::*;

verus! {

/// A 20-byte account or contract identifier.
#[derive(Clone, Copy, Debug, PartialEq, Eq)]
pub struct Address {
    pub bytes: [u8; 20],
}

/// A 32-byte word: a storage key, a storage value, a hash or a salt.
#[derive(Clone, Copy, Debug, PartialEq, Eq)]
pub struct H256 {
    pub bytes: [u8; 32],
}

/// An unsigned 256-bit amount, held as four 64-bit limbs, least significant first.
#[derive(Clone, Copy, Debug, PartialEq, Eq)]
pub struct U256 {
    pub limbs: [u64; 4],
}

/// 2^64, the weight of the second limb.
pub open spec fn limb_base() -> nat {
    0x1_0000_0000_0000_0000nat
}

/// 2^256, one more than the largest amount.
pub open spec fn u256_modulus() -> nat {
    0x1_0000_0000_0000_0000_0000_0000_0000_0000_0000_0000_0000_0000_0000_0000_0000_0000nat
}

/// Compares two byte arrays of the same length.
pub fn bytes_equal<const N: usize>(a: &[u8; N], b: &[u8; N]) -> (r: bool)
    ensures
        r == (a@ == b@),
{
    let mut i: usize = 0;
    while i < N
        invariant
            i <= N,
            forall|j: int| 0 <= j < i ==> a@[j] == b@[j],
        decreases N - i,
    {
        if a[i] != b[i] {
            return false;
        }
        i += 1;
    }
    assert(a@ =~= b@);
    true
}

/// A copy of `bytes`.
pub fn copy_bytes(bytes: &[u8]) -> (r: Vec<u8>)
    ensures
        r@ == bytes@,
{
    let mut out: Vec<u8> = Vec::new();
    let mut i: usize = 0;
    while i < bytes.len()
        invariant
            i <= bytes.len(),
            out@ == bytes@.take(i as int),
        decreases bytes.len() - i,
    {
        out.push(bytes[i]);
        assert(bytes@.take(i + 1) =~= bytes@.take(i as int).push(bytes@[i as int]));
        i += 1;
    }
    assert(bytes@.take(bytes.len() as int) =~= bytes@);
    out
}

impl Address {
    /// The address made of the given bytes.
    pub fn new(bytes: [u8; 20]) -> (r: Address)
        ensures
            r.bytes == bytes,
    {
        Address { bytes }
    }

    /// Two addresses are the same exactly when their bytes are.
    pub proof fn lemma_equal_by_bytes(a: Address, b: Address)
        ensures
            (a == b) <==> (a.bytes@ == b.bytes@),
    {
        if a.bytes@ == b.bytes@ {
            assert(a.bytes =~= b.bytes);
        }
    }

    /// Whether `self` and `other` are the same address.
    pub fn equals(&self, other: &Address) -> (r: bool)
        ensures
            r == (*self == *other),
    {
        proof {
            Address::lemma_equal_by_bytes(*self, *other);
        }
        bytes_equal(&self.bytes, &other.bytes)
    }
}

impl H256 {
    /// The word made of the given bytes.
    pub fn new(bytes: [u8; 32]) -> (r: H256)
        ensures
            r.bytes == bytes,
    {
        H256 { bytes }
    }

    /// The all-zero word, which is what an unwritten storage slot reads as.
    pub fn zero() -> (r: H256)
        ensures
            r.is_zero(),
    {
        H256 { bytes: [0u8; 32] }
    }

    /// Whether every byte of the word is zero.
    pub open spec fn is_zero(&self) -> bool {
        forall|i: int| 0 <= i < 32 ==> self.bytes@[i] == 0u8
    }

    /// Two words are the same exactly when their bytes are.
    pub proof fn lemma_equal_by_bytes(a: H256, b: H256)
        ensures
            (a == b) <==> (a.bytes@ == b.bytes@),
    {
        if a.bytes@ == b.bytes@ {
            assert(a.bytes =~= b.bytes);
        }
    }

    /// Whether `self` and `other` are the same word.
    pub fn equals(&self, other: &H256) -> (r: bool)
        ensures
            r == (*self == *other),
    {
        proof {
            H256::lemma_equal_by_bytes(*self, *other);
        }
        bytes_equal(&self.bytes, &other.bytes)
    }
}

impl View for U256 {
    type V = nat;

    /// The number that the four limbs stand for.
    open spec fn view(&self) -> nat {
        (self.limbs@[0] as nat) + (self.limbs@[1] as nat) * limb_base() + (self.limbs@[2] as nat)
            * limb_base() * limb_base() + (self.limbs@[3] as nat) * limb_base() * limb_base()
            * limb_base()
    }
}

impl U256 {
    /// Every amount is below 2^256.
    pub proof fn lemma_bounded(x: U256)
        ensures
            x@ < u256_modulus(),
    {
    }

    /// Zero.
    pub fn zero() -> (r: U256)
        ensures
            r@ == 0,
    {
        U256 { limbs: [0u64, 0u64, 0u64, 0u64] }
    }

    /// The amount `x`.
    pub fn from_u64(x: u64) -> (r: U256)
        ensures
            r@ == x,
    {
        U256 { limbs: [x, 0u64, 0u64, 0u64] }
    }

    /// The amount `x`.
    pub fn from_u128(x: u128) -> (r: U256)
        ensures
            r@ == x,
    {
        let low: u64 = (x & 0xffff_ffff_ffff_ffff) as u64;
        let high: u64 = (x >> 64) as u64;
        assert(x == (x & 0xffff_ffff_ffff_ffff) + (x >> 64) * 0x1_0000_0000_0000_0000) by (bit_vector);
        assert((x & 0xffff_ffff_ffff_ffff) <= 0xffff_ffff_ffff_ffff) by (bit_vector);
        assert((x >> 64) <= 0xffff_ffff_ffff_ffff) by (bit_vector);
        U256 { limbs: [low, high, 0u64, 0u64] }
    }
}

} // verus!
