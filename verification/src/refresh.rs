//! Balance refresh: what the wallet makes of the replies of a node.
//!
//! The queries themselves are made by whoever drives the refresh. The wallet
//! says which address to ask about next and takes each reply as it comes, or
//! takes a whole round of replies at once. A failed query leaves its account
//! as it was and does not stop the refresh.

use crate::address::Address;
use crate::balance::{low_64_bits, BalanceReply};
use crate::wallet::{is_account_of, is_wallet, seed_at, Account};
use vstd::prelude::*;

verus! {

/// The account after one reply: an amount replaces the balance by its low 64
/// bits, a failure changes nothing. Address and key stay in either case.
pub open spec fn refreshed(account: Account, reply: BalanceReply) -> Account {
    match reply {
        BalanceReply::Balance(amount) => (account.0, low_64_bits(amount@) as u64, account.2),
        BalanceReply::Failed => account,
    }
}

/// The wallet after a round of replies, the reply at an index being that for
/// the account at the same index. An account without a reply stays as it is.
pub open spec fn refreshed_wallet(accounts: Seq<Account>, replies: Seq<BalanceReply>) -> Seq<
    Account,
> {
    Seq::new(
        accounts.len(),
        |i: int|
            if i < replies.len() {
                refreshed(accounts[i], replies[i])
            } else {
                accounts[i]
            },
    )
}

/// The wallet once the reply for the account at `index` is recorded. Only
/// that account can change; an index past the end changes nothing.
pub open spec fn recorded(accounts: Seq<Account>, index: int, reply: BalanceReply) -> Seq<
    Account,
> {
    if 0 <= index < accounts.len() {
        accounts.update(index, refreshed(accounts[index], reply))
    } else {
        accounts
    }
}

/// The wallet after a driver has gone through the first `count` replies one
/// step at a time, recording the reply at position `i` as the `i`-th step.
pub open spec fn recorded_in_turn(
    accounts: Seq<Account>,
    replies: Seq<BalanceReply>,
    count: nat,
) -> Seq<Account>
    decreases count,
{
    if count == 0 {
        accounts
    } else {
        recorded(
            recorded_in_turn(accounts, replies, (count - 1) as nat),
            count - 1,
            replies[count - 1],
        )
    }
}

/// What a refresh needs from whoever drives it.
#[derive(Clone, Copy, Debug, PartialEq, Eq)]
pub enum RefreshStep {
    /// Ask the node for the balance of this address, then record the reply.
    Query(Address),
    /// Every account has had its turn.
    Done,
}

/// The step of a refresh in which `done` accounts have had their turn: the
/// accounts are asked about in wallet order, each once.
pub open spec fn step_after(accounts: Seq<Account>, done: nat) -> RefreshStep {
    if done < accounts.len() {
        RefreshStep::Query(accounts[done as int].0)
    } else {
        RefreshStep::Done
    }
}

/// Applies one reply to one account.
pub fn refresh_account(account: &Account, reply: &BalanceReply) -> (updated: Account)
    ensures
        updated == refreshed(*account, *reply),
{
    match reply {
        BalanceReply::Balance(amount) => (account.0, amount.low_u64(), account.2),
        BalanceReply::Failed => *account,
    }
}

/// Says what to do next in a refresh in which `done` accounts have had their
/// turn.
pub fn next_step(addresses: &Vec<Account>, done: usize) -> (step: RefreshStep)
    ensures
        step == step_after(addresses@, done as nat),
{
    if done < addresses.len() {
        RefreshStep::Query(addresses[done].0)
    } else {
        RefreshStep::Done
    }
}

/// Records the reply to the query that `next_step` asked for with the same
/// `done`, and gives the number of accounts that have had their turn now.
/// A failed query costs the account its turn, not its balance.
pub fn record_reply(
    addresses: &mut Vec<Account>,
    done: usize,
    reply: &BalanceReply,
) -> (now_done: usize)
    ensures
        final(addresses)@ == recorded(old(addresses)@, done as int, *reply),
        done < old(addresses)@.len() ==> now_done == done + 1,
        done >= old(addresses)@.len() ==> now_done == done,
{
    if done < addresses.len() {
        let account = refresh_account(&addresses[done], reply);
        addresses[done] = account;
        done + 1
    } else {
        done
    }
}

/// Refreshes the balances in place from a round of replies, taken in wallet
/// order. A failed query leaves its account with the balance it had; the
/// accounts after it are refreshed all the same.
pub fn updated_with_amount(addresses: &mut Vec<Account>, replies: &Vec<BalanceReply>)
    ensures
        final(addresses)@ == refreshed_wallet(old(addresses)@, replies@),
{
    let mut done: usize = 0;
    while done < addresses.len() && done < replies.len()
        invariant
            done <= replies@.len(),
            addresses@.len() == old(addresses)@.len(),
            forall|j: int|
                0 <= j < done && j < addresses@.len() ==> addresses@[j] == refreshed(
                    old(addresses)@[j],
                    replies@[j],
                ),
            forall|j: int| done <= j < addresses@.len() ==> addresses@[j] == old(addresses)@[j],
        decreases addresses@.len() - done,
    {
        done = record_reply(addresses, done, &replies[done]);
    }
    assert(addresses@ =~= refreshed_wallet(old(addresses)@, replies@));
}

/// A refresh changes balances only: the wallet keeps its length, and every
/// account keeps its address and its key, whatever the replies are.
pub proof fn lemma_refresh_keeps_identities(accounts: Seq<Account>, replies: Seq<BalanceReply>)
    ensures
        refreshed_wallet(accounts, replies).len() == accounts.len(),
        forall|i: int|
            0 <= i < accounts.len() ==> (#[trigger] refreshed_wallet(accounts, replies)[i]).0
                == accounts[i].0 && refreshed_wallet(accounts, replies)[i].2 == accounts[i].2,
{
}

/// The wallet of the seeds 1 to `count` is still that wallet after any
/// refresh: no account moves, leaves or changes hands.
pub proof fn lemma_refresh_keeps_wallet(
    accounts: Seq<Account>,
    replies: Seq<BalanceReply>,
    count: nat,
)
    requires
        is_wallet(accounts, count),
    ensures
        is_wallet(refreshed_wallet(accounts, replies), count),
{
    assert forall|i: int| 0 <= i < count implies is_account_of(
        #[trigger] refreshed_wallet(accounts, replies)[i],
        seed_at(i),
    ) by {
        assert(is_account_of(accounts[i], seed_at(i)));
    }
}

/// An account whose query was answered ends with the low 64 bits of the
/// amount reported for it, whatever became of the other queries.
pub proof fn lemma_answered_account_holds_amount(
    accounts: Seq<Account>,
    replies: Seq<BalanceReply>,
    index: int,
)
    requires
        0 <= index < accounts.len(),
        index < replies.len(),
        replies[index] is Balance,
    ensures
        refreshed_wallet(accounts, replies)[index].1 == low_64_bits(replies[index]->Balance_0@),
{
}

/// An account whose query failed, or was never made, is left exactly as it
/// was, whatever became of the other queries.
pub proof fn lemma_unanswered_account_unchanged(
    accounts: Seq<Account>,
    replies: Seq<BalanceReply>,
    index: int,
)
    requires
        0 <= index < accounts.len(),
        index >= replies.len() || replies[index] is Failed,
    ensures
        refreshed_wallet(accounts, replies)[index] == accounts[index],
{
}

/// Recording replies one step at a time comes to the same wallet as
/// refreshing with those replies as one round.
pub proof fn lemma_steps_make_a_round(
    accounts: Seq<Account>,
    replies: Seq<BalanceReply>,
    count: nat,
)
    requires
        count <= replies.len(),
    ensures
        recorded_in_turn(accounts, replies, count) == refreshed_wallet(
            accounts,
            replies.take(count as int),
        ),
    decreases count,
{
    if count > 0 {
        lemma_steps_make_a_round(accounts, replies, (count - 1) as nat);
    }
    assert(recorded_in_turn(accounts, replies, count) =~= refreshed_wallet(
        accounts,
        replies.take(count as int),
    ));
}

} // verus!
