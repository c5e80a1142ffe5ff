//! Twenty-byte account addresses, cut from the Keccak-256 digest of a
//! public key.

use crate::keys::{PublicKey, PUBLIC_KEY_LEN, UNCOMPRESSED_MARKER};
use vstd::prelude::*;

verus! {

/// Number of bytes in an address.
pub const ADDRESS_LEN: usize = 20;

/// Number of bytes in a Keccak-256 digest.
pub const DIGEST_LEN: usize = 32;

/// The Keccak-256 digest of `data`, as `tiny_keccak::keccak256` computes it.
pub uninterp spec fn keccak256_digest(data: Seq<u8>) -> Seq<u8>;

/// Calls `tiny_keccak::keccak256`.
///
/// Trusted: the 32 bytes returned are the Keccak-256 digest of `data`, a
/// function of the bytes of `data` alone.
#[verifier::external_body]
fn keccak256(data: &[u8]) -> (digest: [u8; 32])
    ensures
        digest@ == keccak256_digest(data@),
{
    tiny_keccak::keccak256(data)
}

/// Calls `H160::from_slice`, under its name `web3::types::Address`, and
/// takes the bytes out again with `to_fixed_bytes`.
///
/// Trusted: given twenty bytes, the address holds those bytes in their order.
/// Any other length makes the call panic, so it is excluded.
#[verifier::external_body]
fn h160_from_slice(src: &[u8]) -> (bytes: [u8; 20])
    requires
        src@.len() == ADDRESS_LEN,
    ensures
        bytes@ == src@,
{
    web3::types::Address::from_slice(src).to_fixed_bytes()
}

/// A twenty-byte account identifier.
#[derive(Clone, Copy, Debug, PartialEq, Eq, Hash)]
pub struct Address {
    bytes: [u8; 20],
}

impl View for Address {
    type V = Seq<u8>;

    closed spec fn view(&self) -> Seq<u8> {
        self.bytes@
    }
}

/// The part of a digest that is the address: its last twenty bytes.
pub open spec fn digest_tail(digest: Seq<u8>) -> Seq<u8> {
    digest.subrange(DIGEST_LEN - ADDRESS_LEN, DIGEST_LEN as int)
}

/// The address of the public key with uncompressed encoding `encoded`: the
/// marker byte is dropped, the 64 bytes of X and Y are hashed, and the last
/// twenty bytes of the digest are kept.
pub open spec fn address_of(encoded: Seq<u8>) -> Seq<u8> {
    digest_tail(keccak256_digest(encoded.subrange(1, PUBLIC_KEY_LEN as int)))
}

impl Address {
    /// The address whose bytes are `bytes`.
    pub fn from_fixed_bytes(bytes: [u8; 20]) -> (address: Address)
        ensures
            address@ == bytes@,
    {
        Address { bytes }
    }

    /// The twenty bytes of the address.
    pub fn to_fixed_bytes(&self) -> (bytes: [u8; 20])
        ensures
            bytes@ == self@,
            bytes@.len() == ADDRESS_LEN,
    {
        self.bytes
    }

    /// The address cut from a 32-byte digest: bytes 12 to 31, in order.
    pub fn from_digest(digest: &[u8; 32]) -> (address: Address)
        ensures
            address@ == digest_tail(digest@),
            address@.len() == ADDRESS_LEN,
    {
        let tail = &digest[12..32];
        Address { bytes: h160_from_slice(tail) }
    }

    /// Every address has exactly twenty bytes.
    pub proof fn lemma_len(self)
        ensures
            self@.len() == ADDRESS_LEN,
    {
    }

    /// Addresses with the same bytes are the same address.
    pub proof fn lemma_view_injective(a: Address, b: Address)
        requires
            a@ == b@,
        ensures
            a == b,
    {
        assert(a.bytes =~= b.bytes);
    }
}

/// Derives the address of a public key.
pub fn public_key_address(public_key: &PublicKey) -> (address: Address)
    ensures
        address@ == address_of(public_key@),
        address@.len() == ADDRESS_LEN,
{
    let encoded = public_key.serialize_uncompressed();
    // What is left out of the digest is the marker, no part of the point.
    assert(encoded@[0] == UNCOMPRESSED_MARKER);
    let digest = keccak256(&encoded[1..65]);
    Address::from_digest(&digest)
}

} // verus!
