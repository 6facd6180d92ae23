//! Checkout orders: coins bought through the payment provider.
use vstd::prelude::*;
use crate::clock::{new_uuid, now_timestamp};

verus! {

#[derive(Debug, Clone, Copy, PartialEq, Eq, Structural)]
pub enum OrderStatus {
    Pending,
    Completed,
    Failed,
    Cancelled,
}

#[derive(Debug, Clone)]
pub struct Order {
    pub id: u128,
    pub discord_id: u64,
    pub stripe_session_id: String,
    pub amount_cents: i64,
    pub coins: i64,
    pub status: OrderStatus,
    pub created_at: i64,
    pub completed_at: Option<i64>,
}

impl Order {
    /// A pending order with a fresh identifier, created now.
    pub fn new(discord_id: u64, stripe_session_id: String, amount_cents: i64, coins: i64) -> (r:
        Order)
        ensures
            r.discord_id == discord_id,
            r.stripe_session_id == stripe_session_id,
            r.amount_cents == amount_cents,
            r.coins == coins,
            r.status == OrderStatus::Pending,
            r.completed_at.is_none(),
    {
        let id = new_uuid();
        let now = now_timestamp();
        Order::new_at(id, discord_id, stripe_session_id, amount_cents, coins, now)
    }

    /// `new` with the identifier and creation time given.
    pub fn new_at(
        id: u128,
        discord_id: u64,
        stripe_session_id: String,
        amount_cents: i64,
        coins: i64,
        now: i64,
    ) -> (r: Order)
        ensures
            r == (Order {
                id,
                discord_id,
                stripe_session_id,
                amount_cents,
                coins,
                status: OrderStatus::Pending,
                created_at: now,
                completed_at: None,
            }),
    {
        Order {
            id,
            discord_id,
            stripe_session_id,
            amount_cents,
            coins,
            status: OrderStatus::Pending,
            created_at: now,
            completed_at: None,
        }
    }

    /// Marks the order completed now.
    pub fn complete(&mut self)
        ensures
            final(self).status == OrderStatus::Completed,
            final(self).completed_at.is_some(),
            final(self).id == old(self).id,
            final(self).discord_id == old(self).discord_id,
            final(self).stripe_session_id == old(self).stripe_session_id,
            final(self).coins == old(self).coins,
    {
        let now = now_timestamp();
        self.complete_at(now)
    }

    /// `complete` with the completion time given.
    pub fn complete_at(&mut self, now: i64)
        ensures
            *final(self) == (Order {
                status: OrderStatus::Completed,
                completed_at: Some(now),
                ..*old(self)
            }),
    {
        self.status = OrderStatus::Completed;
        self.completed_at = Some(now);
    }
}

} // verus!
