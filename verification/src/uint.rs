//! Arithmetic on 256-bit amounts, done by `ethereum_types::U256`.
use crate::types::{u256_modulus, U256};
use vstd::prelude::*;

verus! {

/// `ethereum_types::U256::checked_add`: the sum of the two amounts, or `None`
/// when the sum does not fit in 256 bits.
#[verifier::external_body]
pub(crate) fn checked_add(a: &U256, b: &U256) -> (r: Option<U256>)
    ensures
        match r {
            Some(sum) => sum@ == a@ + b@,
            None => a@ + b@ >= u256_modulus(),
        },
{
    match ethereum_types::U256(a.limbs).checked_add(ethereum_types::U256(b.limbs)) {
        Some(sum) => Some(U256 { limbs: sum.0 }),
        None => None,
    }
}

/// `ethereum_types::U256::checked_sub`: the first amount less the second, or
/// `None` when the second is the larger.
#[verifier::external_body]
pub(crate) fn checked_sub(a: &U256, b: &U256) -> (r: Option<U256>)
    ensures
        match r {
            Some(difference) => a@ >= b@ && difference@ == a@ - b@,
            None => a@ < b@,
        },
{
    match ethereum_types::U256(a.limbs).checked_sub(ethereum_types::U256(b.limbs)) {
        Some(difference) => Some(U256 { limbs: difference.0 }),
        None => None,
    }
}

/// The last `width` base-256 digits of `n`, the most significant first.
pub open spec fn be_digits(n: nat, width: nat) -> Seq<u8>
    decreases width,
{
    if width == 0 {
        Seq::empty()
    } else {
        be_digits(n / 256, (width - 1) as nat).push((n % 256) as u8)
    }
}

/// `ethereum_types::U256::to_big_endian`: the 32 bytes of the amount, the
/// most significant first.
#[verifier::external_body]
pub(crate) fn to_big_endian(x: &U256) -> (bytes: [u8; 32])
    ensures
        bytes@ == be_digits(x@, 32),
{
    ethereum_types::U256(x.limbs).to_big_endian()
}

} // verus!
