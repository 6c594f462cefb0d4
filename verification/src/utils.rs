//! The address that a new contract gets.
use crate::types::{Address, H256, U256};
use crate::uint::{be_digits, to_big_endian};
use vstd::prelude::*;

verus! {

/// How the address of a new contract is derived.
#[derive(Clone, Copy, Debug, PartialEq, Eq)]
pub enum CreateContractAddress {
    /// From the sender and the sender's nonce.
    FromSenderAndNonce,
    /// From the sender, a salt and the hash of the init code.
    FromSenderSaltAndCodeHash(H256),
    /// From the sender and the hash of the init code.
    FromSenderAndCodeHash,
}

/// The Keccak-256 hash of a byte string.
pub uninterp spec fn keccak256(input: Seq<u8>) -> Seq<u8>;

/// `keccak_hash::keccak_256`, on a buffer of 32 bytes: the buffer is filled
/// with the Keccak-256 hash of `input`.
#[verifier::external_body]
pub(crate) fn keccak(input: &[u8]) -> (hash: H256)
    ensures
        hash.bytes@ == keccak256(input@),
{
    let mut bytes = [0u8; 32];
    keccak_hash::keccak_256(input, &mut bytes);
    H256 { bytes }
}

/// A byte string without the zero bytes that it begins with.
pub open spec fn strip_leading_zeros(bytes: Seq<u8>) -> Seq<u8>
    decreases bytes.len(),
{
    if bytes.len() > 0 && bytes[0] == 0 {
        strip_leading_zeros(bytes.skip(1))
    } else {
        bytes
    }
}

/// The shortest big-endian form of an amount below 2^256; zero has none.
pub open spec fn be_minimal(n: nat) -> Seq<u8> {
    strip_leading_zeros(be_digits(n, 32))
}

/// The RLP form of a byte string of at most 55 bytes.
pub open spec fn rlp_short_string(bytes: Seq<u8>) -> Seq<u8> {
    if bytes.len() == 1 && bytes[0] < 0x80 {
        bytes
    } else {
        seq![(0x80 + bytes.len()) as u8] + bytes
    }
}

/// The RLP form of the list of a sender and a nonce: the two items, each as a
/// string, behind a header that gives their length.
pub open spec fn rlp_sender_nonce(sender: Address, nonce: nat) -> Seq<u8> {
    let payload = rlp_short_string(sender.bytes@) + rlp_short_string(be_minimal(nonce));
    seq![(0xc0 + payload.len()) as u8] + payload
}

/// What is hashed to derive the address of a new contract.
pub open spec fn address_preimage(
    address_type: CreateContractAddress,
    sender: Address,
    nonce: nat,
    code: Seq<u8>,
) -> Seq<u8> {
    match address_type {
        CreateContractAddress::FromSenderAndNonce => rlp_sender_nonce(sender, nonce),
        CreateContractAddress::FromSenderSaltAndCodeHash(salt) => seq![0xffu8] + sender.bytes@
            + salt.bytes@ + keccak256(code),
        CreateContractAddress::FromSenderAndCodeHash => sender.bytes@ + keccak256(code),
    }
}

/// The bytes of the address of a new contract: the last 20 bytes of the hash
/// of the preimage.
pub open spec fn contract_address_bytes(
    address_type: CreateContractAddress,
    sender: Address,
    nonce: nat,
    code: Seq<u8>,
) -> Seq<u8> {
    keccak256(address_preimage(address_type, sender, nonce, code)).subrange(12, 32)
}

/// The address with the given bytes.
pub open spec fn address_with(bytes: Seq<u8>) -> Address {
    choose|a: Address| a.bytes@ == bytes
}

/// The address of a new contract.
pub open spec fn contract_address(
    address_type: CreateContractAddress,
    sender: Address,
    nonce: nat,
    code: Seq<u8>,
) -> Address {
    address_with(contract_address_bytes(address_type, sender, nonce, code))
}

/// The hash of the init code, for the address types that are derived from it.
pub open spec fn contract_code_hash(address_type: CreateContractAddress, code: Seq<u8>) -> Option<
    Seq<u8>,
> {
    match address_type {
        CreateContractAddress::FromSenderAndNonce => None,
        _ => Some(keccak256(code)),
    }
}

/// Appends `bytes` to `out`.
fn push_all(out: &mut Vec<u8>, bytes: &[u8])
    ensures
        final(out)@ == old(out)@ + bytes@,
{
    let mut i: usize = 0;
    while i < bytes.len()
        invariant
            i <= bytes.len(),
            out@ == old(out)@ + bytes@.take(i as int),
        decreases bytes.len() - i,
    {
        out.push(bytes[i]);
        assert(bytes@.take(i + 1) =~= bytes@.take(i as int).push(bytes@[i as int]));
        assert(out@ =~= old(out)@ + bytes@.take(i + 1));
        i += 1;
    }
    assert(bytes@.take(bytes.len() as int) =~= bytes@);
}

/// Appends the RLP form of `bytes`, a string of at most 55 bytes, to `out`.
fn push_rlp_short_string(out: &mut Vec<u8>, bytes: &[u8])
    requires
        bytes@.len() <= 55,
    ensures
        final(out)@ == old(out)@ + rlp_short_string(bytes@),
{
    if bytes.len() == 1 && bytes[0] < 0x80 {
        push_all(out, bytes);
    } else {
        let header: u8 = 0x80u8 + bytes.len() as u8;
        out.push(header);
        push_all(out, bytes);
        assert(out@ =~= old(out)@ + rlp_short_string(bytes@));
    }
}

/// The shortest big-endian form of `x`.
fn minimal_big_endian(x: &U256) -> (r: Vec<u8>)
    ensures
        r@ == be_minimal(x@),
        r@.len() <= 32,
{
    let bytes = to_big_endian(x);
    let mut start: usize = 0;
    assert(bytes@.skip(0) =~= bytes@);
    while start < 32 && bytes[start] == 0
        invariant
            start <= 32,
            strip_leading_zeros(bytes@) == strip_leading_zeros(bytes@.skip(start as int)),
        decreases 32 - start,
    {
        assert(bytes@.skip(start as int).skip(1) =~= bytes@.skip(start + 1));
        start += 1;
    }
    let mut out: Vec<u8> = Vec::new();
    let mut i: usize = start;
    while i < 32
        invariant
            start <= i <= 32,
            out@ == bytes@.subrange(start as int, i as int),
        decreases 32 - i,
    {
        out.push(bytes[i]);
        assert(out@ =~= bytes@.subrange(start as int, i + 1));
        i += 1;
    }
    assert(out@ =~= bytes@.skip(start as int));
    out
}

/// The address of a contract that `sender` creates, and the hash of its init
/// code where the address is derived from it.
pub fn evm_contract_address(
    address_type: CreateContractAddress,
    sender: &Address,
    nonce: &U256,
    code: &[u8],
) -> (r: (Address, Option<H256>))
    ensures
        r.0 == contract_address(address_type, *sender, nonce@, code@),
        r.0.bytes@ == contract_address_bytes(address_type, *sender, nonce@, code@),
        match r.1 {
            Some(hash) => contract_code_hash(address_type, code@) == Some(hash.bytes@),
            None => contract_code_hash(address_type, code@) is None,
        },
{
    let mut preimage: Vec<u8> = Vec::new();
    let code_hash = match address_type {
        CreateContractAddress::FromSenderAndNonce => {
            let digits = minimal_big_endian(nonce);
            let mut payload: Vec<u8> = Vec::new();
            push_rlp_short_string(&mut payload, sender.bytes.as_slice());
            push_rlp_short_string(&mut payload, digits.as_slice());
            let header: u8 = 0xc0u8 + payload.len() as u8;
            preimage.push(header);
            push_all(&mut preimage, payload.as_slice());
            assert(preimage@ =~= rlp_sender_nonce(*sender, nonce@));
            None
        },
        CreateContractAddress::FromSenderSaltAndCodeHash(salt) => {
            let hash = keccak(code);
            preimage.push(0xffu8);
            push_all(&mut preimage, sender.bytes.as_slice());
            push_all(&mut preimage, salt.bytes.as_slice());
            push_all(&mut preimage, hash.bytes.as_slice());
            assert(preimage@ =~= address_preimage(address_type, *sender, nonce@, code@));
            Some(hash)
        },
        CreateContractAddress::FromSenderAndCodeHash => {
            let hash = keccak(code);
            push_all(&mut preimage, sender.bytes.as_slice());
            push_all(&mut preimage, hash.bytes.as_slice());
            assert(preimage@ =~= address_preimage(address_type, *sender, nonce@, code@));
            Some(hash)
        },
    };
    let hash = keccak(preimage.as_slice());
    let mut bytes = [0u8; 20];
    let mut i: usize = 0;
    while i < 20
        invariant
            i <= 20,
            forall|j: int| 0 <= j < i ==> bytes@[j] == hash.bytes@[12 + j],
        decreases 20 - i,
    {
        bytes[i] = hash.bytes[12 + i];
        i += 1;
    }
    let address = Address { bytes };
    proof {
        let wanted = contract_address_bytes(address_type, *sender, nonce@, code@);
        assert(address.bytes@ =~= wanted);
        Address::lemma_equal_by_bytes(address, address_with(wanted));
    }
    (address, code_hash)
}

} // verus!
