//! Key pairs on secp256k1, held as their byte encodings.

use secp256k1::rand::SeedableRng;
use vstd::prelude::*;

verus! {

/// Number of bytes in a secret key.
pub const SECRET_KEY_LEN: usize = 32;

/// Number of bytes in an uncompressed public key: the marker, then X, then Y.
pub const PUBLIC_KEY_LEN: usize = 65;

/// First byte of every uncompressed public key.
pub const UNCOMPRESSED_MARKER: u8 = 0x04;

/// The order of the group that the curve's base point generates.
pub open spec fn curve_order() -> nat {
    0xffffffff_ffffffff_ffffffff_fffffffe_baaedce6_af48a03b_bfd25e8c_d0364141nat
}

/// The number that `bytes` stand for, most significant byte first.
pub open spec fn big_endian_value(bytes: Seq<u8>) -> nat
    decreases bytes.len(),
{
    if bytes.len() == 0 {
        0
    } else {
        (256 * big_endian_value(bytes.drop_last()) + bytes.last()) as nat
    }
}

/// Whether `bytes` are a secret key of the curve: 32 bytes that stand for a
/// scalar from 1 to the group order less 1.
pub open spec fn is_valid_scalar(bytes: Seq<u8>) -> bool {
    &&& bytes.len() == SECRET_KEY_LEN
    &&& 0 < big_endian_value(bytes) < curve_order()
}

/// The key pair that the seeded generator yields for `seed`: the 32 bytes of
/// the secret key, then the 65 bytes of the uncompressed public key.
pub uninterp spec fn seeded_key_pair(seed: u64) -> (Seq<u8>, Seq<u8>);

/// What `secp256k1::PublicKey::from_slice` makes of `data`: the uncompressed
/// encoding of the point that `data` encodes, or `None` where it encodes none.
pub uninterp spec fn parsed_public_key(data: Seq<u8>) -> Option<Seq<u8>>;

/// Calls `StdRng::seed_from_u64`, `Secp256k1::new` and
/// `Secp256k1::generate_keypair`, and hands the pair back as bytes
/// (`SecretKey::as_ref`, `PublicKey::serialize_uncompressed`).
///
/// Trusted: the pair is a function of `seed` alone. The generator is HC-128,
/// keyed by a fixed expansion of the seed, and reads its output in one byte
/// order on every machine. The secret key is the first 32-byte draw that
/// `secp256k1_ec_seckey_verify` accepts, which it does for the scalars from 1
/// to the group order less 1 and no others; the public key is that scalar
/// times the base point. An uncompressed encoding starts with the marker
/// byte `0x04`.
#[verifier::external_body]
fn seeded_key_pair_bytes(seed: u64) -> (pair: ([u8; 32], [u8; 65]))
    ensures
        pair.0@ == seeded_key_pair(seed).0,
        pair.1@ == seeded_key_pair(seed).1,
        is_valid_scalar(pair.0@),
        pair.1@[0] == UNCOMPRESSED_MARKER,
{
    let secp = secp256k1::Secp256k1::new();
    let mut random = secp256k1::rand::rngs::StdRng::seed_from_u64(seed);
    let (secret, public) = secp.generate_keypair(&mut random);
    let secret_bytes: &[u8; 32] = secret.as_ref();
    (*secret_bytes, public.serialize_uncompressed())
}

/// Calls `secp256k1::PublicKey::from_slice` and, where it accepts `data`,
/// `PublicKey::serialize_uncompressed` on the key.
///
/// Trusted: acceptance and the bytes returned depend on `data` alone, and an
/// uncompressed encoding starts with the marker byte `0x04`.
#[verifier::external_body]
fn parse_public_key(data: &[u8]) -> (parsed: Option<[u8; 65]>)
    ensures
        parsed matches Some(encoded) ==> parsed_public_key(data@) == Some(encoded@)
            && encoded@[0] == UNCOMPRESSED_MARKER,
        parsed is None ==> parsed_public_key(data@) is None,
{
    match secp256k1::PublicKey::from_slice(data) {
        Ok(key) => Some(key.serialize_uncompressed()),
        Err(_) => None,
    }
}

/// A secret key: a valid scalar of the curve, as 32 bytes, most significant
/// first.
#[derive(Clone, Copy, Debug, PartialEq, Eq, Hash)]
pub struct SecretKey {
    bytes: [u8; 32],
}

impl View for SecretKey {
    type V = Seq<u8>;

    closed spec fn view(&self) -> Seq<u8> {
        self.bytes@
    }
}

impl SecretKey {
    #[verifier::type_invariant]
    spec fn in_range(self) -> bool {
        is_valid_scalar(self.bytes@)
    }

    /// The 32 bytes of the key.
    pub fn secret_bytes(&self) -> (bytes: [u8; 32])
        ensures
            bytes@ == self@,
            is_valid_scalar(bytes@),
    {
        proof {
            use_type_invariant(self);
        }
        self.bytes
    }

    /// Keys with the same bytes are the same key.
    pub proof fn lemma_view_injective(a: SecretKey, b: SecretKey)
        requires
            a@ == b@,
        ensures
            a == b,
    {
        assert(a.bytes =~= b.bytes);
    }
}

/// A public key: a point of the curve, held in its uncompressed encoding.
#[derive(Clone, Copy, Debug, PartialEq, Eq, Hash)]
pub struct PublicKey {
    encoded: [u8; 65],
}

impl View for PublicKey {
    type V = Seq<u8>;

    closed spec fn view(&self) -> Seq<u8> {
        self.encoded@
    }
}

impl PublicKey {
    #[verifier::type_invariant]
    spec fn marked(self) -> bool {
        self.encoded@[0] == UNCOMPRESSED_MARKER
    }

    /// Reads a public key from its compressed or uncompressed encoding.
    /// Gives `None` where `data` encodes no point of the curve.
    pub fn from_slice(data: &[u8]) -> (key: Option<PublicKey>)
        ensures
            key matches Some(k) ==> parsed_public_key(data@) == Some(k@),
            key is None ==> parsed_public_key(data@) is None,
    {
        match parse_public_key(data) {
            Some(encoded) => Some(PublicKey { encoded }),
            None => None,
        }
    }

    /// The uncompressed encoding: the marker byte, then X and Y, 32 bytes each.
    pub fn serialize_uncompressed(&self) -> (encoded: [u8; 65])
        ensures
            encoded@ == self@,
            encoded@.len() == PUBLIC_KEY_LEN,
            encoded@[0] == UNCOMPRESSED_MARKER,
    {
        proof {
            use_type_invariant(self);
        }
        self.encoded
    }

    /// Keys with the same encoding are the same key.
    pub proof fn lemma_view_injective(a: PublicKey, b: PublicKey)
        requires
            a@ == b@,
        ensures
            a == b,
    {
        assert(a.encoded =~= b.encoded);
    }
}

/// Whether `pair` is the key pair of `seed`.
pub open spec fn is_key_pair_of(pair: (SecretKey, PublicKey), seed: u64) -> bool {
    &&& pair.0@ == seeded_key_pair(seed).0
    &&& pair.1@ == seeded_key_pair(seed).1
}

/// Derives the key pair of `seed`. Every seed has one, 0 included: a draw
/// that is no valid scalar is discarded and the generator asked again, so the
/// secret key is always in range.
pub fn generate_key_pair(seed: u64) -> (pair: (SecretKey, PublicKey))
    ensures
        is_key_pair_of(pair, seed),
        is_valid_scalar(pair.0@),
        pair.1@.len() == PUBLIC_KEY_LEN,
        pair.1@[0] == UNCOMPRESSED_MARKER,
{
    let (secret, public) = seeded_key_pair_bytes(seed);
    (SecretKey { bytes: secret }, PublicKey { encoded: public })
}

/// A seed fixes its key pair: two pairs derived from one seed are equal in
/// both keys.
pub proof fn lemma_seed_fixes_key_pair(
    seed: u64,
    first: (SecretKey, PublicKey),
    second: (SecretKey, PublicKey),
)
    requires
        is_key_pair_of(first, seed),
        is_key_pair_of(second, seed),
    ensures
        first == second,
{
    SecretKey::lemma_view_injective(first.0, second.0);
    PublicKey::lemma_view_injective(first.1, second.1);
}

} // verus!
