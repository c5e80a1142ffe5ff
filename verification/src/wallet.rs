//! The wallet: the accounts of the seeds 1, 2, 3, ... in that order.

use crate::address::{address_of, public_key_address, Address};
use crate::keys::{generate_key_pair, seeded_key_pair, SecretKey};
use vstd::prelude::*;

verus! {

/// One account: its address, the balance last fetched for it (0 until a fetch
/// succeeds), and the secret key it was derived with.
pub type Account = (Address, u64, SecretKey);

/// Number of accounts in the wallet that `load_wallet` builds.
pub const WALLET_SIZE: usize = 9;

/// The seed of the account at `index`. Seeds start at 1: seed 0 is never used.
pub open spec fn seed_at(index: int) -> u64 {
    (index + 1) as u64
}

/// Whether `account` carries the address and the secret key of `seed`. Its
/// balance is not looked at.
pub open spec fn is_account_of(account: Account, seed: u64) -> bool {
    &&& account.0@ == address_of(seeded_key_pair(seed).1)
    &&& account.2@ == seeded_key_pair(seed).0
}

/// Whether `wallet` is the wallet of `count` accounts: the accounts of the
/// seeds 1 to `count`, in that order, with whatever balances.
pub open spec fn is_wallet(wallet: Seq<Account>, count: nat) -> bool {
    &&& wallet.len() == count
    &&& forall|i: int| 0 <= i < count ==> is_account_of(#[trigger] wallet[i], seed_at(i))
}

/// Whether `wallet` is the wallet of `count` accounts before any balance was
/// fetched: every balance is 0.
pub open spec fn is_fresh_wallet(wallet: Seq<Account>, count: nat) -> bool {
    &&& is_wallet(wallet, count)
    &&& forall|i: int| 0 <= i < count ==> (#[trigger] wallet[i]).1 == 0
}

/// Builds the wallet of `count` accounts, all with balance 0.
pub fn build_wallet(count: usize) -> (wallet: Vec<Account>)
    ensures
        is_fresh_wallet(wallet@, count as nat),
{
    let mut result: Vec<Account> = Vec::new();
    let mut i: usize = 0;
    while i < count
        invariant
            i <= count,
            is_fresh_wallet(result@, i as nat),
        decreases count - i,
    {
        let seed: u64 = (i + 1) as u64;
        let key_pair = generate_key_pair(seed);
        let address = public_key_address(&key_pair.1);
        result.push((address, 0, key_pair.0));
        i += 1;
    }
    result
}

/// Builds the wallet of nine accounts, from the seeds 1 to 9.
pub fn load_wallet() -> (wallet: Vec<Account>)
    ensures
        is_fresh_wallet(wallet@, WALLET_SIZE as nat),
{
    build_wallet(WALLET_SIZE)
}

/// A count fixes its wallet: two fresh wallets of the same size are equal,
/// account by account.
pub proof fn lemma_count_fixes_wallet(count: nat, first: Seq<Account>, second: Seq<Account>)
    requires
        is_fresh_wallet(first, count),
        is_fresh_wallet(second, count),
    ensures
        first == second,
{
    assert forall|i: int| 0 <= i < count implies first[i] == second[i] by {
        assert(is_account_of(first[i], seed_at(i)));
        assert(is_account_of(second[i], seed_at(i)));
        Address::lemma_view_injective(first[i].0, second[i].0);
        SecretKey::lemma_view_injective(first[i].2, second[i].2);
    }
    assert(first =~= second);
}

} // verus!
