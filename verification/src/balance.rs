//! Amounts as a node reports them, and what a wallet keeps of them.

use vstd::prelude::*;

verus! {

/// Two to the power 64: the weight of the second limb of an amount.
pub open spec fn limb_base() -> nat {
    0x1_0000_0000_0000_0000
}

/// The number that four 64-bit limbs stand for, least significant first.
pub open spec fn limbs_value(limbs: Seq<u64>) -> nat {
    (limbs[0] + limb_base() * (limbs[1] + limb_base() * (limbs[2] + limb_base() * limbs[3]))) as nat
}

/// The low 64 bits of an amount.
pub open spec fn low_64_bits(amount: nat) -> nat {
    amount % limb_base()
}

/// Calls `U256::low_u64`, on the `web3::types::U256` made of `limbs`.
///
/// Trusted: the result is the first limb, which is the least significant.
#[verifier::external_body]
fn u256_low_u64(limbs: [u64; 4]) -> (low: u64)
    ensures
        low == limbs@[0],
{
    web3::types::U256(limbs).low_u64()
}

/// An amount in the smallest unit of the ledger: an unsigned integer of up
/// to 256 bits.
#[derive(Clone, Copy, Debug, PartialEq, Eq, Hash)]
pub struct Wei {
    limbs: [u64; 4],
}

impl View for Wei {
    type V = nat;

    closed spec fn view(&self) -> nat {
        limbs_value(self.limbs@)
    }
}

impl Wei {
    /// The amount with the given limbs, least significant first.
    pub fn from_limbs(limbs: [u64; 4]) -> (amount: Wei)
        ensures
            amount@ == limbs_value(limbs@),
    {
        Wei { limbs }
    }

    /// The amount `value`.
    pub fn from_u64(value: u64) -> (amount: Wei)
        ensures
            amount@ == value,
    {
        let limbs = [value, 0, 0, 0];
        Wei { limbs }
    }

    /// The low 64 bits of the amount. Anything above them is dropped.
    pub fn low_u64(&self) -> (low: u64)
        ensures
            low == low_64_bits(self@),
    {
        let low: u64 = u256_low_u64(self.limbs);
        proof {
            let high: int = self.limbs@[1] + limb_base() * (self.limbs@[2] + limb_base()
                * self.limbs@[3]);
            assert(self@ == low + limb_base() * high);
            assert((low + limb_base() * high) % (limb_base() as int) == low) by (nonlinear_arith)
                requires
                    0 <= low < limb_base(),
                    0 <= high,
            ;
        }
        low
    }
}

/// What came back from asking a node for the balance of one address.
#[derive(Clone, Copy, Debug, PartialEq, Eq)]
pub enum BalanceReply {
    /// The node answered with this amount.
    Balance(Wei),
    /// The query failed: no amount is known.
    Failed,
}

} // verus!
