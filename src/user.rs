//! An account's ledger record: its coin balance and its resource quotas.
use vstd::prelude::*;
use crate::clock::now_timestamp;
use crate::errors::BotError;
use crate::resources::Resources;

verus! {

#[derive(Debug, Clone)]
pub struct User {
    pub discord_id: u64,
    pub coins: i64,
    pub resources: Resources,
    pub pterodactyl_api_key: Option<String>,
    pub created_at: i64,
    pub updated_at: i64,
}

impl User {
    /// At rest the balance is never negative.
    pub open spec fn wf(&self) -> bool {
        self.coins >= 0
    }

    /// The same record with another balance and modification time.
    pub open spec fn with_coins(self, coins: int, now: i64) -> User {
        User { coins: coins as i64, updated_at: now, ..self }
    }

    /// The same record with other resources and modification time.
    pub open spec fn with_resources(self, resources: Resources, now: i64) -> User {
        User { resources, updated_at: now, ..self }
    }

    /// The zero-balance, zero-resource record of `discord_id` created at `now`.
    pub open spec fn new_at_spec(discord_id: u64, now: i64) -> User {
        User {
            discord_id,
            coins: 0,
            resources: Resources { ram: 0, cpu: 0, disk: 0, databases: 0, allocations: 0, backups: 0 },
            pterodactyl_api_key: None,
            created_at: now,
            updated_at: now,
        }
    }

    /// A fresh record for the account, created now.
    pub fn new(discord_id: u64) -> (r: User)
        ensures
            r.discord_id == discord_id,
            r.coins == 0,
            r.resources.is_zero(),
            r.pterodactyl_api_key.is_none(),
            r.created_at == r.updated_at,
            r.wf(),
    {
        User::new_at(discord_id, now_timestamp())
    }

    /// A zero-balance, zero-resource record created at `now`.
    pub fn new_at(discord_id: u64, now: i64) -> (r: User)
        ensures
            r == User::new_at_spec(discord_id, now),
            r.wf(),
    {
        User {
            discord_id,
            coins: 0,
            resources: Resources::zero(),
            pterodactyl_api_key: None,
            created_at: now,
            updated_at: now,
        }
    }

    /// A copy of the record.
    pub fn snapshot(&self) -> (r: User)
        ensures
            r == *self,
    {
        let key = match &self.pterodactyl_api_key {
            Some(k) => Some(k.clone()),
            None => None,
        };
        User {
            discord_id: self.discord_id,
            coins: self.coins,
            resources: self.resources,
            pterodactyl_api_key: key,
            created_at: self.created_at,
            updated_at: self.updated_at,
        }
    }

    pub fn can_afford(&self, cost: i64) -> (r: bool)
        ensures
            r == (self.coins >= cost),
    {
        self.coins >= cost
    }

    /// Takes `amount` off the balance if it covers it; otherwise leaves the
    /// record as it was and reports the shortfall.
    pub fn deduct_coins(&mut self, amount: i64) -> (r: Result<(), BotError>)
        requires
            amount >= 0,
            old(self).wf(),
        ensures
            final(self).wf(),
            old(self).coins >= amount ==> r is Ok && final(self).coins == old(self).coins - amount
                && final(self).discord_id == old(self).discord_id
                && final(self).resources == old(self).resources,
            old(self).coins < amount ==> r == Err::<(), BotError>(
                BotError::InsufficientCoins { needed: amount, available: old(self).coins },
            ) && *final(self) == *old(self),
    {
        let now = now_timestamp();
        self.deduct_coins_at(amount, now)
    }

    /// `deduct_coins` with the modification time given.
    pub fn deduct_coins_at(&mut self, amount: i64, now: i64) -> (r: Result<(), BotError>)
        requires
            amount >= 0,
            old(self).wf(),
        ensures
            final(self).wf(),
            old(self).coins >= amount ==> r is Ok && *final(self) == old(self).with_coins(
                old(self).coins - amount,
                now,
            ),
            old(self).coins < amount ==> r == Err::<(), BotError>(
                BotError::InsufficientCoins { needed: amount, available: old(self).coins },
            ) && *final(self) == *old(self),
    {
        if !self.can_afford(amount) {
            return Err(BotError::InsufficientCoins { needed: amount, available: self.coins });
        }
        self.coins = self.coins - amount;
        self.updated_at = now;
        Ok(())
    }

    /// Adds `amount` to the balance.
    pub fn add_coins(&mut self, amount: i64)
        requires
            amount >= 0,
            old(self).wf(),
            old(self).coins + amount <= i64::MAX,
        ensures
            final(self).wf(),
            final(self).coins == old(self).coins + amount,
            final(self).discord_id == old(self).discord_id,
            final(self).resources == old(self).resources,
    {
        let now = now_timestamp();
        self.add_coins_at(amount, now)
    }

    /// `add_coins` with the modification time given.
    pub fn add_coins_at(&mut self, amount: i64, now: i64)
        requires
            amount >= 0,
            old(self).wf(),
            old(self).coins + amount <= i64::MAX,
        ensures
            final(self).wf(),
            *final(self) == old(self).with_coins(old(self).coins + amount, now),
    {
        self.coins = self.coins + amount;
        self.updated_at = now;
    }
}

} // verus!
