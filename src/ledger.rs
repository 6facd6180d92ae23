//! The balance rules as functions on the map from account to record: what
//! each ledger operation returns and leaves behind.
use vstd::prelude::*;
use crate::errors::BotError;
use crate::user::User;

verus! {

/// Coins credited for a visit to the AFK page.
pub const AFK_REWARD: i64 = 10;

/// Coins credited for a completed Linkvertise link.
pub const LINKVERTISE_REWARD: i64 = 25;

/// Coins credited for joining a partner server.
pub const JOIN_REWARD: i64 = 50;

/// Every record is keyed by its own account and has a non-negative balance.
pub open spec fn users_wf(users: Map<u64, User>) -> bool {
    forall|k: u64| #[trigger] users.contains_key(k) ==> users[k].discord_id == k && users[k].wf()
}

/// Adding `amount` coins to `account`: the new balance, or why not.
pub open spec fn spec_credit(users: Map<u64, User>, account: u64, amount: i64, now: i64) -> (
    Result<i64, BotError>,
    Map<u64, User>,
) {
    if !users.contains_key(account) {
        (Err(BotError::UserNotFound), users)
    } else if amount <= 0 {
        (Err(BotError::InvalidAmount), users)
    } else if users[account].coins + amount > i64::MAX {
        (Err(BotError::Overflow), users)
    } else {
        let u = users[account].with_coins(users[account].coins + amount, now);
        (Ok(u.coins), users.insert(account, u))
    }
}

/// Taking `amount` coins from `account`, only where the balance covers it.
pub open spec fn spec_debit(users: Map<u64, User>, account: u64, amount: i64, now: i64) -> (
    Result<i64, BotError>,
    Map<u64, User>,
) {
    if !users.contains_key(account) {
        (Err(BotError::UserNotFound), users)
    } else if amount <= 0 {
        (Err(BotError::InvalidAmount), users)
    } else if users[account].coins < amount {
        (
            Err(BotError::InsufficientCoins { needed: amount, available: users[account].coins }),
            users,
        )
    } else {
        let u = users[account].with_coins(users[account].coins - amount, now);
        (Ok(u.coins), users.insert(account, u))
    }
}

/// Moving `amount` coins from `from` to `to` as one step: both balances
/// change, or neither does.
pub open spec fn spec_transfer(
    users: Map<u64, User>,
    from: u64,
    to: u64,
    amount: i64,
    now: i64,
) -> (Result<(), BotError>, Map<u64, User>) {
    if from == to {
        (Err(BotError::SelfTransfer), users)
    } else if amount <= 0 {
        (Err(BotError::InvalidAmount), users)
    } else if !users.contains_key(from) || !users.contains_key(to) {
        (Err(BotError::UserNotFound), users)
    } else if users[from].coins < amount {
        (
            Err(BotError::InsufficientCoins { needed: amount, available: users[from].coins }),
            users,
        )
    } else if users[to].coins + amount > i64::MAX {
        (Err(BotError::Overflow), users)
    } else {
        let f = users[from].with_coins(users[from].coins - amount, now);
        let t = users[to].with_coins(users[to].coins + amount, now);
        (Ok(()), users.insert(from, f).insert(to, t))
    }
}

} // verus!

verus! {

/// One balance-changing operation of the ledger.
pub enum LedgerOp {
    Credit { account: u64, amount: i64 },
    Debit { account: u64, amount: i64 },
    Transfer { from: u64, to: u64, amount: i64 },
}

/// The records after `op` at `now`, whether it succeeded or not.
pub open spec fn apply_op(users: Map<u64, User>, op: LedgerOp, now: i64) -> Map<u64, User> {
    match op {
        LedgerOp::Credit { account, amount } => spec_credit(users, account, amount, now).1,
        LedgerOp::Debit { account, amount } => spec_debit(users, account, amount, now).1,
        LedgerOp::Transfer { from, to, amount } => spec_transfer(users, from, to, amount, now).1,
    }
}

/// The records after the operations `ops` in turn, all at `now`.
pub open spec fn apply_ops(users: Map<u64, User>, ops: Seq<LedgerOp>, now: i64) -> Map<u64, User>
    decreases ops.len(),
{
    if ops.len() == 0 {
        users
    } else {
        apply_op(apply_ops(users, ops.drop_last(), now), ops.last(), now)
    }
}

/// No balance is ever negative after any sequence of credits, debits and
/// transfers, whichever of them succeed.
pub proof fn lemma_balances_never_negative(users: Map<u64, User>, ops: Seq<LedgerOp>, now: i64)
    requires
        users_wf(users),
    ensures
        users_wf(apply_ops(users, ops, now)),
        forall|k: u64| #[trigger] apply_ops(users, ops, now).contains_key(k) ==> apply_ops(
            users,
            ops,
            now,
        )[k].coins >= 0,
    decreases ops.len(),
{
    if ops.len() > 0 {
        lemma_balances_never_negative(users, ops.drop_last(), now);
        let before = apply_ops(users, ops.drop_last(), now);
        let after = apply_ops(users, ops, now);
        assert forall|k: u64| #[trigger] after.contains_key(k) implies after[k].discord_id == k
            && after[k].wf() by {
            assert(before.contains_key(k));
        }
    }
}

/// Two debits of the whole balance against one account: the first
/// succeeds, and the second finds nothing left and is refused, so at most
/// one of them is honoured.
pub proof fn lemma_full_balance_debited_once(
    users: Map<u64, User>,
    account: u64,
    first: i64,
    second: i64,
)
    requires
        users_wf(users),
        users.contains_key(account),
        users[account].coins > 0,
    ensures
        ({
            let amount = users[account].coins;
            let (r1, after) = spec_debit(users, account, amount, first);
            let (r2, last) = spec_debit(after, account, amount, second);
            &&& r1 == Ok::<i64, BotError>(0)
            &&& r2 == Err::<i64, BotError>(
                BotError::InsufficientCoins { needed: amount, available: 0 },
            )
            &&& last == after
        }),
{
}

/// A transfer keeps the sum of the two balances, whether it succeeds or is
/// refused; a refused one changes nothing at all.
pub proof fn lemma_transfer_conserves(
    users: Map<u64, User>,
    from: u64,
    to: u64,
    amount: i64,
    now: i64,
)
    requires
        users_wf(users),
        users.contains_key(from),
        users.contains_key(to),
    ensures
        ({
            let (r, after) = spec_transfer(users, from, to, amount, now);
            &&& after.contains_key(from) && after.contains_key(to)
            &&& after[from].coins + after[to].coins == users[from].coins + users[to].coins
            &&& r is Err ==> after == users
            &&& r is Ok ==> after[from].coins == users[from].coins - amount && after[to].coins
                == users[to].coins + amount
        }),
{
}

} // verus!
