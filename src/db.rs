//! The store: accounts, servers, coupons and orders, each operation one
//! indivisible step on it.
use vstd::prelude::*;
use std::collections::HashMap;
use crate::config::{spec_find_item, StoreConfig, StoreItem};
use crate::coupon::{Coupon, CouponView, Grant};
use crate::clock::{parse_uuid, parsed_uuid, SECONDS_PER_DAY};
use crate::errors::BotError;
use crate::ledger::{spec_credit, spec_debit, spec_transfer, users_wf};
use crate::order::{Order, OrderStatus};
use crate::resources::Resources;
use crate::queue::{JobData, JobType, QueueJob, QueueService};
use crate::server::{transition_allowed, Plan, Server, ServerStatus, DEFAULT_LIFETIME_DAYS};
use crate::user::User;

verus! {

broadcast use vstd::std_specs::hash::group_hash_axioms;

pub struct Database {
    users: HashMap<u64, User>,
    servers: Vec<Server>,
    coupons: Vec<Coupon>,
    orders: Vec<Order>,
}

impl Database {
    /// The account records, by account.
    pub closed spec fn users(&self) -> Map<u64, User> {
        self.users@
    }

    /// The server records, in order of creation.
    pub closed spec fn servers(&self) -> Seq<Server> {
        self.servers@
    }

    /// The coupons, in order of creation.
    pub closed spec fn coupons(&self) -> Seq<CouponView> {
        self.coupons@.map_values(|c: Coupon| c@)
    }

    /// The orders, in order of creation.
    pub closed spec fn orders(&self) -> Seq<Order> {
        self.orders@
    }

    /// Keys are unique in each collection and every record is well formed.
    pub open spec fn wf(&self) -> bool {
        &&& users_wf(self.users())
        &&& servers_wf(self.servers())
        &&& coupons_wf(self.coupons())
        &&& orders_wf(self.orders())
    }

    /// An empty store.
    pub fn new() -> (r: Database)
        ensures
            r.wf(),
            r.users() == Map::<u64, User>::empty(),
            r.servers() == Seq::<Server>::empty(),
            r.coupons() == Seq::<CouponView>::empty(),
            r.orders() == Seq::<Order>::empty(),
    {
        let r = Database {
            users: HashMap::new(),
            servers: Vec::new(),
            coupons: Vec::new(),
            orders: Vec::new(),
        };
        assert(r.coupons() =~= Seq::<CouponView>::empty());
        r
    }

    // ----- accounts

    pub fn get_user(&self, discord_id: u64) -> (r: Option<&User>)
        ensures
            match r {
                Some(u) => self.users().contains_key(discord_id) && *u == self.users()[discord_id],
                None => !self.users().contains_key(discord_id),
            },
    {
        self.users.get(&discord_id)
    }

    /// Creates a zero-balance record; refused where the account exists, so
    /// that no account is ever created twice.
    pub fn create_user(&mut self, discord_id: u64, now: i64) -> (r: Result<(), BotError>)
        requires
            old(self).wf(),
        ensures
            final(self).wf(),
            old(self).users().contains_key(discord_id) ==> r == Err::<(), BotError>(
                BotError::AlreadyExists,
            ) && *final(self) == *old(self),
            !old(self).users().contains_key(discord_id) ==> r is Ok && final(self).users()
                == old(self).users().insert(discord_id, User::new_at_spec(discord_id, now)),
            final(self).servers() == old(self).servers(),
            final(self).coupons() == old(self).coupons(),
            final(self).orders() == old(self).orders(),
    {
        if self.users.contains_key(&discord_id) {
            return Err(BotError::AlreadyExists);
        }
        let u = User::new_at(discord_id, now);
        self.users.insert(discord_id, u);
        Ok(())
    }

    /// Replaces the record of an existing account.
    pub fn update_user(&mut self, user: User) -> (r: Result<(), BotError>)
        requires
            old(self).wf(),
        ensures
            final(self).wf(),
            !old(self).users().contains_key(user.discord_id) || !user.wf() ==> r is Err
                && *final(self) == *old(self),
            old(self).users().contains_key(user.discord_id) && user.wf() ==> r is Ok
                && final(self).users() == old(self).users().insert(user.discord_id, user),
            !old(self).users().contains_key(user.discord_id) ==> r == Err::<(), BotError>(
                BotError::UserNotFound,
            ),
            old(self).users().contains_key(user.discord_id) && !user.wf() ==> r == Err::<
                (),
                BotError,
            >(BotError::InvalidAmount),
            final(self).servers() == old(self).servers(),
            final(self).coupons() == old(self).coupons(),
            final(self).orders() == old(self).orders(),
    {
        if !self.users.contains_key(&user.discord_id) {
            return Err(BotError::UserNotFound);
        }
        if user.coins < 0 {
            return Err(BotError::InvalidAmount);
        }
        self.users.insert(user.discord_id, user);
        Ok(())
    }

    /// The record of the account, created with nothing in it on first use.
    pub fn get_or_create_user(&mut self, discord_id: u64, now: i64) -> (r: User)
        requires
            old(self).wf(),
        ensures
            final(self).wf(),
            old(self).users().contains_key(discord_id) ==> *final(self) == *old(self),
            !old(self).users().contains_key(discord_id) ==> final(self).users()
                == old(self).users().insert(discord_id, User::new_at_spec(discord_id, now)),
            final(self).users().contains_key(discord_id),
            r == final(self).users()[discord_id],
            final(self).servers() == old(self).servers(),
            final(self).coupons() == old(self).coupons(),
            final(self).orders() == old(self).orders(),
    {
        if !self.users.contains_key(&discord_id) {
            let u = User::new_at(discord_id, now);
            self.users.insert(discord_id, u);
        }
        match self.users.get(&discord_id) {
            Some(u) => u.snapshot(),
            None => {
                assert(false);
                User::new_at(discord_id, now)
            },
        }
    }

    /// Adds `amount > 0` coins to an existing account; returns the new
    /// balance.
    pub fn credit(&mut self, discord_id: u64, amount: i64, now: i64) -> (r: Result<i64, BotError>)
        requires
            old(self).wf(),
        ensures
            final(self).wf(),
            (r, final(self).users()) == spec_credit(old(self).users(), discord_id, amount, now),
            final(self).servers() == old(self).servers(),
            final(self).coupons() == old(self).coupons(),
            final(self).orders() == old(self).orders(),
    {
        let mut u = match self.users.remove(&discord_id) {
            Some(u) => u,
            None => return Err(BotError::UserNotFound),
        };
        if amount <= 0 || u.coins > i64::MAX - amount {
            let e = if amount <= 0 { BotError::InvalidAmount } else { BotError::Overflow };
            self.users.insert(discord_id, u);
            proof { assert(self.users@ =~= old(self).users@); }
            return Err(e);
        }
        u.add_coins_at(amount, now);
        let balance = u.coins;
        self.users.insert(discord_id, u);
        proof { assert(self.users@ =~= old(self).users@.insert(discord_id, u)); }
        Ok(balance)
    }

    /// Takes `amount > 0` coins from an existing account where its balance
    /// covers them, as one indivisible check and update; returns the new
    /// balance.
    pub fn debit(&mut self, discord_id: u64, amount: i64, now: i64) -> (r: Result<i64, BotError>)
        requires
            old(self).wf(),
        ensures
            final(self).wf(),
            (r, final(self).users()) == spec_debit(old(self).users(), discord_id, amount, now),
            final(self).servers() == old(self).servers(),
            final(self).coupons() == old(self).coupons(),
            final(self).orders() == old(self).orders(),
    {
        let mut u = match self.users.remove(&discord_id) {
            Some(u) => u,
            None => return Err(BotError::UserNotFound),
        };
        if amount <= 0 {
            self.users.insert(discord_id, u);
            proof { assert(self.users@ =~= old(self).users@); }
            return Err(BotError::InvalidAmount);
        }
        let res = u.deduct_coins_at(amount, now);
        let balance = u.coins;
        self.users.insert(discord_id, u);
        proof {
            if res is Ok {
                assert(self.users@ =~= old(self).users@.insert(discord_id, u));
            } else {
                assert(self.users@ =~= old(self).users@);
            }
        }
        match res {
            Ok(()) => Ok(balance),
            Err(e) => Err(e),
        }
    }

    /// Moves `amount > 0` coins from `from` to `to` as one step: either both
    /// balances change or neither does, so the sum of the two is kept.
    pub fn transfer(&mut self, from: u64, to: u64, amount: i64, now: i64) -> (r: Result<(), BotError>)
        requires
            old(self).wf(),
        ensures
            final(self).wf(),
            (r, final(self).users()) == spec_transfer(old(self).users(), from, to, amount, now),
            final(self).servers() == old(self).servers(),
            final(self).coupons() == old(self).coupons(),
            final(self).orders() == old(self).orders(),
    {
        if from == to {
            return Err(BotError::SelfTransfer);
        }
        if amount <= 0 {
            return Err(BotError::InvalidAmount);
        }
        if !self.users.contains_key(&from) || !self.users.contains_key(&to) {
            return Err(BotError::UserNotFound);
        }
        let mut sender = match self.users.remove(&from) {
            Some(u) => u,
            None => return Err(BotError::UserNotFound),
        };
        let mut receiver = match self.users.remove(&to) {
            Some(u) => u,
            None => {
                assert(false);
                return Err(BotError::UserNotFound);
            },
        };
        if sender.coins < amount || receiver.coins > i64::MAX - amount {
            let e = if sender.coins < amount {
                BotError::InsufficientCoins { needed: amount, available: sender.coins }
            } else {
                BotError::Overflow
            };
            self.users.insert(to, receiver);
            self.users.insert(from, sender);
            proof { assert(self.users@ =~= old(self).users@); }
            return Err(e);
        }
        let _ = sender.deduct_coins_at(amount, now);
        receiver.add_coins_at(amount, now);
        self.users.insert(from, sender);
        self.users.insert(to, receiver);
        proof {
            assert(self.users@ =~= old(self).users@.insert(from, sender).insert(to, receiver));
        }
        Ok(())
    }

    /// Adds `delta` to the resources of an existing account. There is no
    /// ceiling; only a component that would leave the range of `i64` is
    /// refused, and a grant never makes a quota negative.
    pub fn grant_resources(&mut self, discord_id: u64, delta: Resources, now: i64) -> (r: Result<
        (),
        BotError,
    >)
        requires
            old(self).wf(),
        ensures
            final(self).wf(),
            !old(self).users().contains_key(discord_id) ==> r == Err::<(), BotError>(
                BotError::UserNotFound,
            ) && final(self).users() == old(self).users(),
            old(self).users().contains_key(discord_id) && !delta.is_nonneg() ==> r == Err::<
                (),
                BotError,
            >(BotError::InvalidAmount) && final(self).users() == old(self).users(),
            old(self).users().contains_key(discord_id) && delta.is_nonneg() && !old(
                self,
            ).users()[discord_id].resources.sum_fits(delta) ==> r == Err::<(), BotError>(
                BotError::Overflow,
            ) && final(self).users() == old(self).users(),
            old(self).users().contains_key(discord_id) && delta.is_nonneg()
                && old(self).users()[discord_id].resources.sum_fits(delta) ==> r is Ok
                && final(self).users() == old(self).users().insert(
                discord_id,
                old(self).users()[discord_id].with_resources(
                    old(self).users()[discord_id].resources.spec_add(delta),
                    now,
                ),
            ),
            final(self).servers() == old(self).servers(),
            final(self).coupons() == old(self).coupons(),
            final(self).orders() == old(self).orders(),
    {
        let mut u = match self.users.remove(&discord_id) {
            Some(u) => u,
            None => return Err(BotError::UserNotFound),
        };
        if delta.ram < 0 || delta.cpu < 0 || delta.disk < 0 || delta.databases < 0
            || delta.allocations < 0 || delta.backups < 0 {
            self.users.insert(discord_id, u);
            proof { assert(self.users@ =~= old(self).users@); }
            return Err(BotError::InvalidAmount);
        }
        match u.resources.checked_add(&delta) {
            Some(sum) => {
                u.resources = sum;
                u.updated_at = now;
                self.users.insert(discord_id, u);
                proof { assert(self.users@ =~= old(self).users@.insert(discord_id, u)); }
                Ok(())
            },
            None => {
                self.users.insert(discord_id, u);
                proof { assert(self.users@ =~= old(self).users@); }
                Err(BotError::Overflow)
            },
        }
    }

    // ----- servers

    /// Where the server `id` stands, if anywhere.
    fn find_server(&self, id: u128) -> (r: Option<usize>)
        requires
            servers_wf(self.servers()),
        ensures
            match r {
                Some(i) => i < self.servers().len() && self.servers()[i as int].id == id
                    && server_index(self.servers(), id) == i,
                None => server_index(self.servers(), id) == -1,
            },
    {
        let mut i: usize = 0;
        while i < self.servers.len()
            invariant
                0 <= i <= self.servers@.len(),
                servers_wf(self.servers()),
                forall|j: int| 0 <= j < i ==> #[trigger] self.servers@[j].id != id,
            decreases self.servers@.len() - i,
        {
            if self.servers[i].id == id {
                proof { lemma_server_index(self.servers(), i as int); }
                return Some(i);
            }
            i = i + 1;
        }
        None
    }

    /// The record of the server `id`.
    pub fn get_server_by_id(&self, id: u128) -> (r: Option<&Server>)
        requires
            self.wf(),
        ensures
            match r {
                Some(s) => server_index(self.servers(), id) >= 0 && *s == self.servers()[server_index(
                    self.servers(),
                    id,
                )],
                None => server_index(self.servers(), id) == -1,
            },
    {
        match self.find_server(id) {
            Some(i) => Some(&self.servers[i]),
            None => None,
        }
    }

    /// The record of the server whose identifier `server_id` spells;
    /// `InvalidInput` where it spells none.
    pub fn get_server(&self, server_id: &str) -> (r: Result<Option<&Server>, BotError>)
        requires
            self.wf(),
        ensures
            parsed_uuid(server_id@) is None ==> r matches Err(BotError::InvalidInput(_)),
            parsed_uuid(server_id@) matches Some(id) ==> match r {
                Ok(Some(s)) => server_index(self.servers(), id) >= 0 && *s == self.servers()[server_index(
                    self.servers(),
                    id,
                )],
                Ok(None) => server_index(self.servers(), id) == -1,
                Err(_) => false,
            },
    {
        match parse_uuid(server_id) {
            Some(id) => Ok(self.get_server_by_id(id)),
            None => Err(BotError::InvalidInput("Invalid server ID".to_string())),
        }
    }

    /// The record of the server whose identifier `server_id` spells, where
    /// `discord_id` owns it.
    pub fn owned_server(&self, discord_id: u64, server_id: &str) -> (r: Result<&Server, BotError>)
        requires
            self.wf(),
        ensures
            parsed_uuid(server_id@) is None ==> (r matches Err(BotError::InvalidInput(_))),
            parsed_uuid(server_id@) is Some ==> ({
                let i = server_index(self.servers(), parsed_uuid(server_id@)->Some_0);
                &&& i == -1 ==> r == Err::<&Server, BotError>(BotError::ServerNotFound)
                &&& i >= 0 && self.servers()[i].discord_id != discord_id ==> r == Err::<
                    &Server,
                    BotError,
                >(BotError::PermissionDenied)
                &&& i >= 0 && self.servers()[i].discord_id == discord_id ==> (r matches Ok(s)
                    && *s == self.servers()[i])
            }),
    {
        match self.get_server(server_id) {
            Ok(Some(s)) => {
                if s.discord_id == discord_id {
                    Ok(s)
                } else {
                    Err(BotError::PermissionDenied)
                }
            },
            Ok(None) => Err(BotError::ServerNotFound),
            Err(e) => Err(e),
        }
    }

    /// Stores a new pending server record; refused where the record is not
    /// pending or its identifier is taken.
    pub fn create_server(&mut self, server: Server) -> (r: Result<(), BotError>)
        requires
            old(self).wf(),
            server.wf(),
        ensures
            final(self).wf(),
            server.status != ServerStatus::Creating ==> r == Err::<(), BotError>(
                BotError::InvalidTransition,
            ),
            server.status == ServerStatus::Creating && server_index(old(self).servers(), server.id)
                >= 0 ==> r == Err::<(), BotError>(BotError::AlreadyExists),
            r is Err ==> final(self).servers() == old(self).servers(),
            server.status == ServerStatus::Creating && server_index(old(self).servers(), server.id)
                == -1 ==> r is Ok && final(self).servers() == old(self).servers().push(server),
            final(self).users() == old(self).users(),
            final(self).coupons() == old(self).coupons(),
            final(self).orders() == old(self).orders(),
    {
        if server.status != ServerStatus::Creating {
            return Err(BotError::InvalidTransition);
        }
        if self.find_server(server.id).is_some() {
            return Err(BotError::AlreadyExists);
        }
        self.servers.push(server);
        Ok(())
    }

    /// Copies of the records of the servers that `discord_id` owns, in order
    /// of creation.
    pub fn get_user_servers(&self, discord_id: u64) -> (r: Vec<Server>)
        ensures
            r@ == self.servers().filter(|s: Server| s.discord_id == discord_id),
    {
        let ghost pred = |s: Server| s.discord_id == discord_id;
        let mut r: Vec<Server> = Vec::new();
        let mut i: usize = 0;
        while i < self.servers.len()
            invariant
                0 <= i <= self.servers@.len(),
                pred == (|s: Server| s.discord_id == discord_id),
                r@ == self.servers@.take(i as int).filter(pred),
            decreases self.servers@.len() - i,
        {
            let ghost before = r@;
            if self.servers[i].discord_id == discord_id {
                r.push(self.servers[i].snapshot());
            }
            proof {
                let t = self.servers@.take(i + 1);
                assert(t.drop_last() =~= self.servers@.take(i as int));
                assert(t.last() == self.servers@[i as int]);
                reveal(Seq::filter);
                assert(t.filter(pred) == (if pred(t.last()) {
                    t.drop_last().filter(pred).push(t.last())
                } else {
                    t.drop_last().filter(pred)
                }));
            }
            i = i + 1;
        }
        assert(self.servers@.take(i as int) =~= self.servers@);
        r
    }

    /// Puts `server` in place of the record at `i`, which has its identifier.
    fn replace_server(&mut self, i: usize, server: Server)
        requires
            old(self).wf(),
            i < old(self).servers().len(),
            old(self).servers()[i as int].id == server.id,
            server.wf(),
        ensures
            final(self).wf(),
            final(self).servers() == old(self).servers().update(i as int, server),
            final(self).users() == old(self).users(),
            final(self).coupons() == old(self).coupons(),
            final(self).orders() == old(self).orders(),
    {
        let _ = self.servers.remove(i);
        self.servers.insert(i, server);
        assert(self.servers@ =~= old(self).servers@.update(i as int, server));
        assert forall|a: int, b: int|
            0 <= a < self.servers@.len() && 0 <= b < self.servers@.len() && #[trigger] self.servers@[a].id
                == #[trigger] self.servers@[b].id implies a == b by {
            assert(old(self).servers@[a].id == self.servers@[a].id);
            assert(old(self).servers@[b].id == self.servers@[b].id);
        }
    }

    /// What a renewal of the server `id` by `days` days for `discord_id`
    /// comes to: the new expiry, or the first reason it is refused.
    pub open spec fn renew_outcome(&self, discord_id: u64, id: u128, days: u32) -> Result<i64, BotError> {
        let i = server_index(self.servers(), id);
        let s = self.servers()[i];
        if i == -1 || s.status == ServerStatus::Deleted {
            Err(BotError::ServerNotFound)
        } else if s.discord_id != discord_id {
            Err(BotError::PermissionDenied)
        } else if !self.users().contains_key(discord_id) {
            Err(BotError::UserNotFound)
        } else if days == 0 {
            Err(BotError::InvalidAmount)
        } else if s.renewed_expiry(days as int) > i64::MAX {
            Err(BotError::Overflow)
        } else if self.users()[discord_id].coins < renewal_cost(days) {
            Err(
                BotError::InsufficientCoins {
                    needed: renewal_cost(days) as i64,
                    available: self.users()[discord_id].coins,
                },
            )
        } else {
            Ok(s.renewed_expiry(days as int) as i64)
        }
    }

    /// Renews the server `id` of `discord_id` by `days` days at one coin a
    /// day: the debit and the new expiry happen together or not at all.
    /// Returns the new expiry.
    pub fn renew_server_by_id(&mut self, discord_id: u64, id: u128, days: u32, now: i64) -> (r:
        Result<i64, BotError>)
        requires
            old(self).wf(),
        ensures
            final(self).wf(),
            r == old(self).renew_outcome(discord_id, id, days),
            r is Err ==> final(self).users() == old(self).users()
                && final(self).servers() == old(self).servers(),
            r matches Ok(expiry) ==> ({
                let i = server_index(old(self).servers(), id);
                let u = old(self).users()[discord_id];
                &&& final(self).users() == old(self).users().insert(
                    discord_id,
                    u.with_coins(u.coins - renewal_cost(days), now),
                )
                &&& final(self).servers() == old(self).servers().update(
                    i,
                    Server { expires_at: expiry, updated_at: now, ..old(self).servers()[i] },
                )
            }),
            final(self).coupons() == old(self).coupons(),
            final(self).orders() == old(self).orders(),
    {
        let i = match self.find_server(id) {
            Some(i) => i,
            None => return Err(BotError::ServerNotFound),
        };
        if self.servers[i].status == ServerStatus::Deleted {
            return Err(BotError::ServerNotFound);
        }
        if self.servers[i].discord_id != discord_id {
            return Err(BotError::PermissionDenied);
        }
        if !self.users.contains_key(&discord_id) {
            return Err(BotError::UserNotFound);
        }
        if days == 0 {
            return Err(BotError::InvalidAmount);
        }
        let extra: i64 = days as i64 * SECONDS_PER_DAY;
        if self.servers[i].expires_at > i64::MAX - extra {
            return Err(BotError::Overflow);
        }
        let cost: i64 = days as i64;
        match self.debit(discord_id, cost, now) {
            Ok(_) => {},
            Err(e) => return Err(e),
        }
        let mut s = self.servers[i].snapshot();
        assert(self.servers@[i as int].wf());
        s.extend_expiry_at(days as i64, now);
        let expiry = s.expires_at;
        self.replace_server(i, s);
        Ok(expiry)
    }

    /// `renew_server_by_id` for the server whose identifier `server_id`
    /// spells; `InvalidInput` where it spells none.
    pub fn renew_server(&mut self, discord_id: u64, server_id: &str, days: u32, now: i64) -> (r:
        Result<i64, BotError>)
        requires
            old(self).wf(),
        ensures
            final(self).wf(),
            parsed_uuid(server_id@) is None ==> (r matches Err(BotError::InvalidInput(_)))
                && *final(self) == *old(self),
            parsed_uuid(server_id@) is Some ==> r == old(self).renew_outcome(
                discord_id,
                parsed_uuid(server_id@)->Some_0,
                days,
            ),
            r is Err ==> final(self).users() == old(self).users()
                && final(self).servers() == old(self).servers(),
            r matches Ok(expiry) ==> ({
                let i = server_index(old(self).servers(), parsed_uuid(server_id@)->Some_0);
                let u = old(self).users()[discord_id];
                &&& final(self).users() == old(self).users().insert(
                    discord_id,
                    u.with_coins(u.coins - renewal_cost(days), now),
                )
                &&& final(self).servers() == old(self).servers().update(
                    i,
                    Server { expires_at: expiry, updated_at: now, ..old(self).servers()[i] },
                )
            }),
            final(self).coupons() == old(self).coupons(),
            final(self).orders() == old(self).orders(),
    {
        match parse_uuid(server_id) {
            Some(id) => self.renew_server_by_id(discord_id, id, days, now),
            None => Err(BotError::InvalidInput("Invalid server ID".to_string())),
        }
    }

    /// What a request by `discord_id` for a server `server_id` on `plan` at
    /// `now` comes to: `Ok` where it is accepted, else the first reason it
    /// is refused. Only memory, compute and disk are compared with the plan.
    pub open spec fn create_outcome(&self, discord_id: u64, plan: Plan, server_id: u128, now: i64) -> Result<
        (),
        BotError,
    > {
        if !self.users().contains_key(discord_id) {
            Err(BotError::UserNotFound)
        } else if !self.users()[discord_id].resources.spec_covers_plan(plan.resources) {
            Err(BotError::InsufficientResources)
        } else if plan.cost < 0 {
            Err(BotError::InvalidAmount)
        } else if server_index(self.servers(), server_id) >= 0 {
            Err(BotError::AlreadyExists)
        } else if now > i64::MAX - DEFAULT_LIFETIME_DAYS * SECONDS_PER_DAY {
            Err(BotError::Overflow)
        } else if self.users()[discord_id].coins < plan.cost {
            Err(
                BotError::InsufficientCoins {
                    needed: plan.cost,
                    available: self.users()[discord_id].coins,
                },
            )
        } else {
            Ok(())
        }
    }

    /// Accepts a request for a new server named `name` on `plan`: debits the
    /// plan's cost, stores the server as `Creating` and only then enqueues
    /// the job that asks the panel to create it. Returns that job. Nothing
    /// changes on a refusal.
    pub fn create_server_request(
        &mut self,
        queue: &mut QueueService,
        discord_id: u64,
        name: String,
        plan: Plan,
        server_id: u128,
        job_id: u128,
        now: i64,
    ) -> (r: Result<QueueJob, BotError>)
        requires
            old(self).wf(),
        ensures
            final(self).wf(),
            r is Err ==> r == Err::<QueueJob, BotError>(
                old(self).create_outcome(discord_id, plan, server_id, now)->Err_0,
            ),
            old(self).create_outcome(discord_id, plan, server_id, now) is Err ==> r is Err
                && final(self).users() == old(self).users()
                && final(self).servers() == old(self).servers()
                && final(queue)@ == old(queue)@,
            old(self).create_outcome(discord_id, plan, server_id, now) is Ok ==> ({
                let u = old(self).users()[discord_id];
                let job = QueueJob {
                    id: job_id,
                    job_type: JobType::CreateServer,
                    discord_id,
                    data: JobData { server_id: Some(server_id), external_id: None },
                    created_at: now,
                };
                &&& r == Ok::<QueueJob, BotError>(job)
                &&& final(self).users() == (if plan.cost > 0 {
                    old(self).users().insert(discord_id, u.with_coins(u.coins - plan.cost, now))
                } else {
                    old(self).users()
                })
                &&& final(self).servers() == old(self).servers().push(
                    Server::spec_new_at(server_id, discord_id, name, plan.name, plan.resources, now),
                )
                &&& final(queue)@ == old(queue)@.push(job)
            }),
            final(self).coupons() == old(self).coupons(),
            final(self).orders() == old(self).orders(),
    {
        let covers = match self.users.get(&discord_id) {
            Some(u) => u.resources.covers_plan(&plan.resources),
            None => return Err(BotError::UserNotFound),
        };
        if !covers {
            return Err(BotError::InsufficientResources);
        }
        if plan.cost < 0 {
            return Err(BotError::InvalidAmount);
        }
        if self.find_server(server_id).is_some() {
            return Err(BotError::AlreadyExists);
        }
        if now > i64::MAX - DEFAULT_LIFETIME_DAYS * SECONDS_PER_DAY {
            return Err(BotError::Overflow);
        }
        if plan.cost > 0 {
            match self.debit(discord_id, plan.cost, now) {
                Ok(_) => {},
                Err(e) => return Err(e),
            }
        } else {
            assert(self.users().contains_key(discord_id));
        }
        let server = Server::new_at(server_id, discord_id, name, plan.name, plan.resources, now);
        let _ = self.create_server(server);
        let job = QueueJob::new_at(
            job_id,
            JobType::CreateServer,
            discord_id,
            JobData { server_id: Some(server_id), external_id: None },
            now,
        );
        queue.enqueue(job);
        Ok(job)
    }

    /// Removes the record at `i`.
    fn remove_server(&mut self, i: usize) -> (r: Server)
        requires
            old(self).wf(),
            i < old(self).servers().len(),
        ensures
            final(self).wf(),
            r == old(self).servers()[i as int],
            final(self).servers() == old(self).servers().remove(i as int),
            final(self).users() == old(self).users(),
            final(self).coupons() == old(self).coupons(),
            final(self).orders() == old(self).orders(),
    {
        let r = self.servers.remove(i);
        assert forall|a: int, b: int|
            0 <= a < self.servers@.len() && 0 <= b < self.servers@.len() && #[trigger] self.servers@[a].id
                == #[trigger] self.servers@[b].id implies a == b by {
            let oa = if a < i { a } else { a + 1 };
            let ob = if b < i { b } else { b + 1 };
            assert(old(self).servers@[oa].id == self.servers@[a].id);
            assert(old(self).servers@[ob].id == self.servers@[b].id);
        }
        assert forall|a: int| 0 <= a < self.servers@.len() implies #[trigger] self.servers@[a].wf() by {
            let oa = if a < i { a } else { a + 1 };
            assert(old(self).servers@[oa] == self.servers@[a]);
        }
        r
    }

    /// Deletes the server `id` of `discord_id`: the record goes at once, and
    /// a job to remove the panel's instance is enqueued after it. Returns
    /// that job.
    pub fn delete_server_by_id(
        &mut self,
        queue: &mut QueueService,
        discord_id: u64,
        id: u128,
        job_id: u128,
        now: i64,
    ) -> (r: Result<QueueJob, BotError>)
        requires
            old(self).wf(),
        ensures
            final(self).wf(),
            server_index(old(self).servers(), id) == -1 ==> r == Err::<QueueJob, BotError>(
                BotError::ServerNotFound,
            ),
            server_index(old(self).servers(), id) >= 0 && old(self).servers()[server_index(
                old(self).servers(),
                id,
            )].discord_id != discord_id ==> r == Err::<QueueJob, BotError>(
                BotError::PermissionDenied,
            ),
            r is Err ==> final(self).servers() == old(self).servers() && final(queue)@ == old(queue)@,
            server_index(old(self).servers(), id) >= 0 && old(self).servers()[server_index(
                old(self).servers(),
                id,
            )].discord_id == discord_id ==> ({
                let i = server_index(old(self).servers(), id);
                let job = QueueJob {
                    id: job_id,
                    job_type: JobType::DeleteServer,
                    discord_id,
                    data: JobData {
                        server_id: Some(id),
                        external_id: old(self).servers()[i].pterodactyl_id,
                    },
                    created_at: now,
                };
                &&& r == Ok::<QueueJob, BotError>(job)
                &&& final(self).servers() == old(self).servers().remove(i)
                &&& final(queue)@ == old(queue)@.push(job)
            }),
            final(self).users() == old(self).users(),
            final(self).coupons() == old(self).coupons(),
            final(self).orders() == old(self).orders(),
    {
        let i = match self.find_server(id) {
            Some(i) => i,
            None => return Err(BotError::ServerNotFound),
        };
        if self.servers[i].discord_id != discord_id {
            return Err(BotError::PermissionDenied);
        }
        let gone = self.remove_server(i);
        let job = QueueJob::new_at(
            job_id,
            JobType::DeleteServer,
            discord_id,
            JobData { server_id: Some(id), external_id: gone.pterodactyl_id },
            now,
        );
        queue.enqueue(job);
        Ok(job)
    }

    /// `delete_server_by_id` for the server whose identifier `server_id`
    /// spells; `InvalidInput` where it spells none.
    pub fn delete_server(
        &mut self,
        queue: &mut QueueService,
        discord_id: u64,
        server_id: &str,
        job_id: u128,
        now: i64,
    ) -> (r: Result<QueueJob, BotError>)
        requires
            old(self).wf(),
        ensures
            final(self).wf(),
            parsed_uuid(server_id@) is None ==> (r matches Err(BotError::InvalidInput(_)))
                && *final(self) == *old(self) && final(queue)@ == old(queue)@,
            parsed_uuid(server_id@) is Some ==> ({
                let id = parsed_uuid(server_id@)->Some_0;
                let i = server_index(old(self).servers(), id);
                &&& i == -1 ==> r == Err::<QueueJob, BotError>(BotError::ServerNotFound)
                &&& i >= 0 && old(self).servers()[i].discord_id != discord_id ==> r == Err::<
                    QueueJob,
                    BotError,
                >(BotError::PermissionDenied)
                &&& i >= 0 && old(self).servers()[i].discord_id == discord_id ==> ({
                    let job = QueueJob {
                        id: job_id,
                        job_type: JobType::DeleteServer,
                        discord_id,
                        data: JobData {
                            server_id: Some(id),
                            external_id: old(self).servers()[i].pterodactyl_id,
                        },
                        created_at: now,
                    };
                    &&& r == Ok::<QueueJob, BotError>(job)
                    &&& final(self).servers() == old(self).servers().remove(i)
                    &&& final(queue)@ == old(queue)@.push(job)
                })
            }),
            r is Err ==> final(self).servers() == old(self).servers() && final(queue)@ == old(queue)@,
            final(self).users() == old(self).users(),
            final(self).coupons() == old(self).coupons(),
            final(self).orders() == old(self).orders(),
    {
        match parse_uuid(server_id) {
            Some(id) => self.delete_server_by_id(queue, discord_id, id, job_id, now),
            None => Err(BotError::InvalidInput("Invalid server ID".to_string())),
        }
    }

    // ----- coupons

    /// Where the coupon `code` stands, if anywhere.
    fn find_coupon(&self, code: &String) -> (r: Option<usize>)
        requires
            coupons_wf(self.coupons()),
        ensures
            match r {
                Some(i) => i < self.coupons().len() && self.coupons()[i as int].code == code@
                    && coupon_index(self.coupons(), code@) == i,
                None => coupon_index(self.coupons(), code@) == -1,
            },
    {
        let mut i: usize = 0;
        while i < self.coupons.len()
            invariant
                0 <= i <= self.coupons@.len(),
                coupons_wf(self.coupons()),
                forall|j: int| 0 <= j < i ==> #[trigger] self.coupons()[j].code != code@,
            decreases self.coupons@.len() - i,
        {
            if self.coupons[i].code == *code {
                proof { lemma_coupon_index(self.coupons(), i as int); }
                return Some(i);
            }
            i = i + 1;
        }
        None
    }

    /// The coupon `code`.
    pub fn get_coupon(&self, code: &String) -> (r: Option<&Coupon>)
        requires
            self.wf(),
        ensures
            match r {
                Some(c) => coupon_index(self.coupons(), code@) >= 0 && c@ == self.coupons()[coupon_index(
                    self.coupons(),
                    code@,
                )],
                None => coupon_index(self.coupons(), code@) == -1,
            },
    {
        match self.find_coupon(code) {
            Some(i) => Some(&self.coupons[i]),
            None => None,
        }
    }

    /// Stores a new coupon; refused where the code is taken, and where the
    /// grant would take coins or resources away.
    pub fn create_coupon(&mut self, coupon: Coupon) -> (r: Result<(), BotError>)
        requires
            old(self).wf(),
            coupon@.wf(),
        ensures
            final(self).wf(),
            coupon_index(old(self).coupons(), coupon@.code) >= 0 ==> r == Err::<(), BotError>(
                BotError::CouponAlreadyExists,
            ),
            coupon_index(old(self).coupons(), coupon@.code) == -1 && !grant_nonneg(coupon@) ==> r
                == Err::<(), BotError>(BotError::InvalidAmount),
            r is Err ==> final(self).coupons() == old(self).coupons(),
            coupon_index(old(self).coupons(), coupon@.code) == -1 && grant_nonneg(coupon@) ==> r is Ok
                && final(self).coupons() == old(self).coupons().push(coupon@),
            final(self).users() == old(self).users(),
            final(self).servers() == old(self).servers(),
            final(self).orders() == old(self).orders(),
    {
        if self.find_coupon(&coupon.code).is_some() {
            return Err(BotError::CouponAlreadyExists);
        }
        let nonneg = coupon.coins >= 0 && match coupon.resources {
            Some(r) => r.ram >= 0 && r.cpu >= 0 && r.disk >= 0 && r.databases >= 0
                && r.allocations >= 0 && r.backups >= 0,
            None => true,
        };
        if !nonneg {
            return Err(BotError::InvalidAmount);
        }
        let ghost c = coupon@;
        self.coupons.push(coupon);
        assert(self.coupons() =~= old(self).coupons().push(c));
        Ok(())
    }

    /// Revokes the coupon `code`. Grants already applied stay applied.
    pub fn delete_coupon(&mut self, code: &String) -> (r: Result<(), BotError>)
        requires
            old(self).wf(),
        ensures
            final(self).wf(),
            coupon_index(old(self).coupons(), code@) == -1 ==> r == Err::<(), BotError>(
                BotError::CouponNotFound,
            ) && final(self).coupons() == old(self).coupons(),
            coupon_index(old(self).coupons(), code@) >= 0 ==> r is Ok && final(self).coupons()
                == old(self).coupons().remove(coupon_index(old(self).coupons(), code@)),
            final(self).users() == old(self).users(),
            final(self).servers() == old(self).servers(),
            final(self).orders() == old(self).orders(),
    {
        let i = match self.find_coupon(code) {
            Some(i) => i,
            None => return Err(BotError::CouponNotFound),
        };
        let _ = self.coupons.remove(i);
        assert(self.coupons() =~= old(self).coupons().remove(i as int));
        assert forall|a: int, b: int|
            0 <= a < self.coupons().len() && 0 <= b < self.coupons().len() && #[trigger] self.coupons()[a].code
                == #[trigger] self.coupons()[b].code implies a == b by {
            let oa = if a < i { a } else { a + 1 };
            let ob = if b < i { b } else { b + 1 };
            assert(old(self).coupons()[oa] == self.coupons()[a]);
            assert(old(self).coupons()[ob] == self.coupons()[b]);
        }
        assert forall|a: int| 0 <= a < self.coupons().len() implies #[trigger] self.coupons()[a].wf()
            && grant_nonneg(self.coupons()[a]) by {
            let oa = if a < i { a } else { a + 1 };
            assert(old(self).coupons()[oa] == self.coupons()[a]);
            assert(old(self).coupons()[oa].wf() && grant_nonneg(old(self).coupons()[oa]));
        }
        Ok(())
    }

    /// Redeems `code` for `discord_id`: the coupon's checks, its record of
    /// use and the grant to the account happen as one step, so one account
    /// never redeems a code twice and a limited code is never redeemed past
    /// its limit.
    pub fn redeem_coupon(&mut self, discord_id: u64, code: &String, now: i64) -> (r: Result<
        Grant,
        BotError,
    >)
        requires
            old(self).wf(),
        ensures
            final(self).wf(),
            (r, final(self).users(), final(self).coupons()) == spec_redeem(
                old(self).users(),
                old(self).coupons(),
                discord_id,
                code@,
                now,
            ),
            final(self).servers() == old(self).servers(),
            final(self).orders() == old(self).orders(),
    {
        if !self.users.contains_key(&discord_id) {
            return Err(BotError::UserNotFound);
        }
        let i = match self.find_coupon(code) {
            Some(i) => i,
            None => return Err(BotError::CouponNotFound),
        };
        match self.coupons[i].check_at(discord_id, now) {
            Some(e) => return Err(e),
            None => {},
        }
        let mut u = match self.users.remove(&discord_id) {
            Some(u) => u,
            None => {
                assert(false);
                return Err(BotError::UserNotFound);
            },
        };
        assert(old(self).coupons()[i as int].wf());
        assert(grant_nonneg(old(self).coupons()[i as int]));
        assert(old(self).coupons()[i as int] == self.coupons@[i as int]@);
        let coins = self.coupons[i].coins;
        let grant_res = self.coupons[i].resources;
        let new_res = match grant_res {
            Some(d) => u.resources.checked_add(&d),
            None => Some(u.resources),
        };
        if u.coins > i64::MAX - coins || new_res.is_none() {
            self.users.insert(discord_id, u);
            assert(self.users@ =~= old(self).users@);
            return Err(BotError::Overflow);
        }
        u.coins = u.coins + coins;
        u.resources = new_res.unwrap();
        u.updated_at = now;
        self.users.insert(discord_id, u);
        assert(self.users@ =~= old(self).users@.insert(discord_id, u));
        let mut c = self.coupons.remove(i);
        let g = c.redeem_at(discord_id, now);
        self.coupons.insert(i, c);
        assert(self.coupons@ =~= old(self).coupons@.update(i as int, c));
        assert(self.coupons() =~= old(self).coupons().update(i as int, c@));
        assert forall|a: int, b: int|
            0 <= a < self.coupons().len() && 0 <= b < self.coupons().len() && #[trigger] self.coupons()[a].code
                == #[trigger] self.coupons()[b].code implies a == b by {
            assert(old(self).coupons()[a].code == self.coupons()[a].code);
            assert(old(self).coupons()[b].code == self.coupons()[b].code);
        }
        assert forall|a: int| 0 <= a < self.coupons().len() implies #[trigger] self.coupons()[a].wf()
            && grant_nonneg(self.coupons()[a]) by {
            if a != i {
                assert(old(self).coupons()[a] == self.coupons()[a]);
            }
        }
        assert(users_wf(self.users()));
        g
    }

    // ----- orders

    /// Where the order of checkout session `session_id` stands, if anywhere.
    fn find_order(&self, session_id: &String) -> (r: Option<usize>)
        requires
            orders_wf(self.orders()),
        ensures
            match r {
                Some(i) => i < self.orders().len() && self.orders()[i as int].stripe_session_id@
                    == session_id@ && order_index(self.orders(), session_id@) == i,
                None => order_index(self.orders(), session_id@) == -1,
            },
    {
        let mut i: usize = 0;
        while i < self.orders.len()
            invariant
                0 <= i <= self.orders@.len(),
                orders_wf(self.orders()),
                forall|j: int| 0 <= j < i ==> #[trigger] self.orders@[j].stripe_session_id@ != session_id@,
            decreases self.orders@.len() - i,
        {
            if self.orders[i].stripe_session_id == *session_id {
                proof { lemma_order_index(self.orders(), i as int); }
                return Some(i);
            }
            i = i + 1;
        }
        None
    }

    /// Stores a new order; refused where its checkout session has one.
    pub fn create_order(&mut self, order: Order) -> (r: Result<(), BotError>)
        requires
            old(self).wf(),
        ensures
            final(self).wf(),
            order_index(old(self).orders(), order.stripe_session_id@) >= 0 ==> r == Err::<
                (),
                BotError,
            >(BotError::AlreadyExists) && final(self).orders() == old(self).orders(),
            order_index(old(self).orders(), order.stripe_session_id@) == -1 ==> r is Ok
                && final(self).orders() == old(self).orders().push(order),
            final(self).users() == old(self).users(),
            final(self).servers() == old(self).servers(),
            final(self).coupons() == old(self).coupons(),
    {
        if self.find_order(&order.stripe_session_id).is_some() {
            return Err(BotError::AlreadyExists);
        }
        let ghost key = order.stripe_session_id@;
        self.orders.push(order);
        assert forall|a: int, b: int|
            0 <= a < self.orders@.len() && 0 <= b < self.orders@.len() && #[trigger] self.orders@[a].stripe_session_id@
                == #[trigger] self.orders@[b].stripe_session_id@ implies a == b by {
            if a < old(self).orders@.len() && b == old(self).orders@.len() {
                assert(old(self).orders@[a].stripe_session_id@ == key);
            }
            if b < old(self).orders@.len() && a == old(self).orders@.len() {
                assert(old(self).orders@[b].stripe_session_id@ == key);
            }
        }
        Ok(())
    }

    /// The order of checkout session `session_id`.
    pub fn get_order_by_session(&self, session_id: &String) -> (r: Option<&Order>)
        requires
            self.wf(),
        ensures
            match r {
                Some(o) => order_index(self.orders(), session_id@) >= 0 && *o == self.orders()[order_index(
                    self.orders(),
                    session_id@,
                )],
                None => order_index(self.orders(), session_id@) == -1,
            },
    {
        match self.find_order(session_id) {
            Some(i) => Some(&self.orders[i]),
            None => None,
        }
    }

    /// Handles a "checkout completed" event for `session_id`: credits the
    /// order's coins to its account and marks it completed, once. Returns
    /// whether coins were credited; a repeated event credits nothing.
    pub fn complete_checkout(&mut self, session_id: &String, now: i64) -> (r: Result<bool, BotError>)
        requires
            old(self).wf(),
        ensures
            final(self).wf(),
            order_index(old(self).orders(), session_id@) == -1 ==> r == Err::<bool, BotError>(
                BotError::OrderNotFound,
            ),
            r is Err || r == Ok::<bool, BotError>(false) ==> final(self).users() == old(self).users()
                && final(self).orders() == old(self).orders(),
            order_index(old(self).orders(), session_id@) >= 0 ==> ({
                let i = order_index(old(self).orders(), session_id@);
                let o = old(self).orders()[i];
                let c = spec_credit(old(self).users(), o.discord_id, o.coins, now);
                &&& o.status != OrderStatus::Pending ==> r == Ok::<bool, BotError>(false)
                &&& o.status == OrderStatus::Pending && c.0 is Err ==> r == Err::<bool, BotError>(
                    c.0->Err_0,
                )
                &&& o.status == OrderStatus::Pending && c.0 is Ok ==> r == Ok::<bool, BotError>(true)
                    && final(self).users() == c.1 && final(self).orders() == old(self).orders().update(
                    i,
                    Order { status: OrderStatus::Completed, completed_at: Some(now), ..o },
                )
            }),
            final(self).servers() == old(self).servers(),
            final(self).coupons() == old(self).coupons(),
    {
        let i = match self.find_order(session_id) {
            Some(i) => i,
            None => return Err(BotError::OrderNotFound),
        };
        if self.orders[i].status != OrderStatus::Pending {
            return Ok(false);
        }
        let account = self.orders[i].discord_id;
        let coins = self.orders[i].coins;
        match self.credit(account, coins, now) {
            Ok(_) => {},
            Err(e) => return Err(e),
        }
        let mut o = self.orders.remove(i);
        o.complete_at(now);
        self.orders.insert(i, o);
        assert(self.orders@ =~= old(self).orders@.update(i as int, o));
        assert forall|a: int, b: int|
            0 <= a < self.orders@.len() && 0 <= b < self.orders@.len() && #[trigger] self.orders@[a].stripe_session_id@
                == #[trigger] self.orders@[b].stripe_session_id@ implies a == b by {
            assert(old(self).orders@[a].stripe_session_id == self.orders@[a].stripe_session_id);
            assert(old(self).orders@[b].stripe_session_id == self.orders@[b].stripe_session_id);
        }
        Ok(true)
    }

    // ----- provisioning and lifecycle

    /// Records what the panel answered to the creation of server `id`. On
    /// success the pending server gets the panel's identifier and runs. On
    /// failure nothing changes: the server stays pending and its cost is not
    /// refunded. Returns whether a server was updated; a duplicate answer
    /// for a server no longer pending updates nothing.
    pub fn record_provisioning(&mut self, id: u128, outcome: Result<i64, BotError>, now: i64) -> (r:
        Result<bool, BotError>)
        requires
            old(self).wf(),
        ensures
            final(self).wf(),
            outcome is Err ==> r == Err::<bool, BotError>(outcome->Err_0),
            outcome is Ok && server_index(old(self).servers(), id) == -1 ==> r == Err::<
                bool,
                BotError,
            >(BotError::ServerNotFound),
            r is Err || r == Ok::<bool, BotError>(false) ==> final(self).servers() == old(self).servers(),
            outcome is Ok && server_index(old(self).servers(), id) >= 0 ==> ({
                let pid = outcome->Ok_0;
                let i = server_index(old(self).servers(), id);
                let s = old(self).servers()[i];
                &&& s.status != ServerStatus::Creating ==> r == Ok::<bool, BotError>(false)
                &&& s.status == ServerStatus::Creating ==> r == Ok::<bool, BotError>(true)
                    && final(self).servers() == old(self).servers().update(
                    i,
                    Server {
                        pterodactyl_id: Some(pid),
                        status: ServerStatus::Running,
                        updated_at: now,
                        ..s
                    },
                )
            }),
            final(self).users() == old(self).users(),
            final(self).coupons() == old(self).coupons(),
            final(self).orders() == old(self).orders(),
    {
        let pid = match outcome {
            Ok(pid) => pid,
            Err(e) => return Err(e),
        };
        let i = match self.find_server(id) {
            Some(i) => i,
            None => return Err(BotError::ServerNotFound),
        };
        let mut s = self.servers[i].snapshot();
        assert(self.servers@[i as int].wf());
        if !s.mark_running(pid, now) {
            return Ok(false);
        }
        self.replace_server(i, s);
        Ok(true)
    }

    /// Moves server `id` to `to` as the lifecycle allows; `cancellation`
    /// marks the explicit abandonment of a pending creation, the only way a
    /// pending server is deleted. A pending server enters `Running` only
    /// through `record_provisioning`.
    pub fn set_server_status(&mut self, id: u128, to: ServerStatus, cancellation: bool, now: i64) -> (r:
        Result<(), BotError>)
        requires
            old(self).wf(),
        ensures
            final(self).wf(),
            server_index(old(self).servers(), id) == -1 ==> r == Err::<(), BotError>(
                BotError::ServerNotFound,
            ),
            r is Err ==> final(self).servers() == old(self).servers(),
            server_index(old(self).servers(), id) >= 0 ==> ({
                let i = server_index(old(self).servers(), id);
                let s = old(self).servers()[i];
                let allowed = transition_allowed(s.status, to, cancellation) && !(s.status
                    == ServerStatus::Creating && to == ServerStatus::Running);
                &&& !allowed ==> r == Err::<(), BotError>(BotError::InvalidTransition)
                &&& allowed ==> r is Ok && final(self).servers() == old(self).servers().update(
                    i,
                    Server { status: to, updated_at: now, ..s },
                )
            }),
            final(self).users() == old(self).users(),
            final(self).coupons() == old(self).coupons(),
            final(self).orders() == old(self).orders(),
    {
        let i = match self.find_server(id) {
            Some(i) => i,
            None => return Err(BotError::ServerNotFound),
        };
        let mut s = self.servers[i].snapshot();
        assert(self.servers@[i as int].wf());
        if !s.transition(to, cancellation, now) {
            return Err(BotError::InvalidTransition);
        }
        self.replace_server(i, s);
        Ok(())
    }

    /// Abandons the pending creation of server `id` by its owner
    /// `discord_id`: the record stays, marked `Deleted`.
    pub fn cancel_server_creation(&mut self, discord_id: u64, id: u128, now: i64) -> (r: Result<
        (),
        BotError,
    >)
        requires
            old(self).wf(),
        ensures
            final(self).wf(),
            server_index(old(self).servers(), id) == -1 ==> r == Err::<(), BotError>(
                BotError::ServerNotFound,
            ),
            r is Err ==> final(self).servers() == old(self).servers(),
            server_index(old(self).servers(), id) >= 0 ==> ({
                let i = server_index(old(self).servers(), id);
                let s = old(self).servers()[i];
                &&& s.discord_id != discord_id ==> r == Err::<(), BotError>(
                    BotError::PermissionDenied,
                )
                &&& s.discord_id == discord_id && s.status != ServerStatus::Creating ==> r == Err::<
                    (),
                    BotError,
                >(BotError::InvalidTransition)
                &&& s.discord_id == discord_id && s.status == ServerStatus::Creating ==> r is Ok
                    && final(self).servers() == old(self).servers().update(
                    i,
                    Server { status: ServerStatus::Deleted, updated_at: now, ..s },
                )
            }),
            final(self).users() == old(self).users(),
            final(self).coupons() == old(self).coupons(),
            final(self).orders() == old(self).orders(),
    {
        let i = match self.find_server(id) {
            Some(i) => i,
            None => return Err(BotError::ServerNotFound),
        };
        if self.servers[i].discord_id != discord_id {
            return Err(BotError::PermissionDenied);
        }
        if self.servers[i].status != ServerStatus::Creating {
            return Err(BotError::InvalidTransition);
        }
        self.set_server_status(id, ServerStatus::Deleted, true, now)
    }

    // ----- purchases and administration

    /// What buying `item` comes to for `discord_id`: `Ok` where the
    /// purchase goes through, else the first reason it is refused.
    pub open spec fn buy_outcome(&self, discord_id: u64, item: StoreItem) -> Result<(), BotError> {
        let u = self.users()[discord_id];
        if !self.users().contains_key(discord_id) {
            Err(BotError::UserNotFound)
        } else if item.price > i64::MAX {
            Err(BotError::Overflow)
        } else if u.coins < item.price {
            Err(BotError::InsufficientCoins { needed: item.price as i64, available: u.coins })
        } else if item.resources is Some && !u.resources.sum_fits(
            item.resources->Some_0.spec_to_resources(),
        ) {
            Err(BotError::Overflow)
        } else {
            Ok(())
        }
    }

    /// The account record after buying `item`.
    pub open spec fn bought(u: User, item: StoreItem, now: i64) -> User {
        User {
            coins: (u.coins - item.price) as i64,
            resources: match item.resources {
                Some(r) => u.resources.spec_add(r.spec_to_resources()),
                None => u.resources,
            },
            updated_at: now,
            ..u
        }
    }

    /// Buys the enabled store item `item_id` for `discord_id`: its price is
    /// debited and its resources granted together, or nothing happens.
    pub fn buy_store_item(
        &mut self,
        store: &StoreConfig,
        discord_id: u64,
        item_id: &String,
        now: i64,
    ) -> (r: Result<(), BotError>)
        requires
            old(self).wf(),
        ensures
            final(self).wf(),
            spec_find_item(store.items@, item_id@) is None ==> r == Err::<(), BotError>(
                BotError::ItemNotFound,
            ),
            spec_find_item(store.items@, item_id@) is Some ==> r == old(self).buy_outcome(
                discord_id,
                store.items@[spec_find_item(store.items@, item_id@)->Some_0],
            ),
            r is Err ==> final(self).users() == old(self).users(),
            r is Ok ==> ({
                let item = store.items@[spec_find_item(store.items@, item_id@)->Some_0];
                final(self).users() == old(self).users().insert(
                    discord_id,
                    Database::bought(old(self).users()[discord_id], item, now),
                )
            }),
            final(self).servers() == old(self).servers(),
            final(self).coupons() == old(self).coupons(),
            final(self).orders() == old(self).orders(),
    {
        let k = match store.find_item(item_id) {
            Some(k) => k,
            None => return Err(BotError::ItemNotFound),
        };
        let item = &store.items[k];
        if !self.users.contains_key(&discord_id) {
            return Err(BotError::UserNotFound);
        }
        if item.price > i64::MAX as u64 {
            return Err(BotError::Overflow);
        }
        let price = item.price as i64;
        let mut u = match self.users.remove(&discord_id) {
            Some(u) => u,
            None => {
                assert(false);
                return Err(BotError::UserNotFound);
            },
        };
        if u.coins < price {
            let available = u.coins;
            self.users.insert(discord_id, u);
            assert(self.users@ =~= old(self).users@);
            return Err(BotError::InsufficientCoins { needed: price, available });
        }
        let new_res = match item.resources {
            Some(r) => u.resources.checked_add(&r.to_resources()),
            None => Some(u.resources),
        };
        match new_res {
            Some(res) => {
                u.coins = u.coins - price;
                u.resources = res;
                u.updated_at = now;
                self.users.insert(discord_id, u);
                assert(self.users@ =~= old(self).users@.insert(discord_id, u));
                Ok(())
            },
            None => {
                self.users.insert(discord_id, u);
                assert(self.users@ =~= old(self).users@);
                Err(BotError::Overflow)
            },
        }
    }

    /// An administrator's change to the balance of `discord_id`, whose
    /// record is created first where it is missing: `Replace` sets the
    /// balance, `Add` credits and `Remove` debits. Returns the new balance.
    pub fn admin_coins(&mut self, action: AdminCoinsAction, discord_id: u64, amount: i64, now: i64) -> (r:
        Result<i64, BotError>)
        requires
            old(self).wf(),
        ensures
            final(self).wf(),
            ({
                let created = if old(self).users().contains_key(discord_id) {
                    old(self).users()
                } else {
                    old(self).users().insert(discord_id, User::new_at_spec(discord_id, now))
                };
                match action {
                    AdminCoinsAction::Replace => if amount < 0 {
                        r == Err::<i64, BotError>(BotError::InvalidAmount) && final(self).users()
                            == created
                    } else {
                        r == Ok::<i64, BotError>(amount) && final(self).users() == created.insert(
                            discord_id,
                            created[discord_id].with_coins(amount as int, now),
                        )
                    },
                    AdminCoinsAction::Add => (r, final(self).users()) == spec_credit(
                        created,
                        discord_id,
                        amount,
                        now,
                    ),
                    AdminCoinsAction::Remove => (r, final(self).users()) == spec_debit(
                        created,
                        discord_id,
                        amount,
                        now,
                    ),
                }
            }),
            final(self).servers() == old(self).servers(),
            final(self).coupons() == old(self).coupons(),
            final(self).orders() == old(self).orders(),
    {
        let _ = self.get_or_create_user(discord_id, now);
        match action {
            AdminCoinsAction::Replace => {
                if amount < 0 {
                    return Err(BotError::InvalidAmount);
                }
                let mut u = match self.users.remove(&discord_id) {
                    Some(u) => u,
                    None => {
                        assert(false);
                        return Err(BotError::UserNotFound);
                    },
                };
                u.coins = amount;
                u.updated_at = now;
                self.users.insert(discord_id, u);
                Ok(amount)
            },
            AdminCoinsAction::Add => self.credit(discord_id, amount, now),
            AdminCoinsAction::Remove => self.debit(discord_id, amount, now),
        }
    }
}

/// What an administrator does to a balance.
#[derive(Debug, Clone, Copy, PartialEq, Eq, Structural)]
pub enum AdminCoinsAction {
    Replace,
    Add,
    Remove,
}

/// The position of the order of checkout session `session_id` in `s`, or -1.
pub open spec fn order_index(s: Seq<Order>, session_id: Seq<char>) -> int {
    if exists|i: int| 0 <= i < s.len() && s[i].stripe_session_id@ == session_id {
        choose|i: int| 0 <= i < s.len() && s[i].stripe_session_id@ == session_id
    } else {
        -1
    }
}

proof fn lemma_order_index(s: Seq<Order>, i: int)
    requires
        orders_wf(s),
        0 <= i < s.len(),
    ensures
        order_index(s, s[i].stripe_session_id@) == i,
{
    let j = order_index(s, s[i].stripe_session_id@);
    assert(0 <= j < s.len() && s[j].stripe_session_id@ == s[i].stripe_session_id@);
}

/// What a redemption of `code` by `discord_id` at `now` comes to: the grant,
/// or the first reason it is refused.
pub open spec fn redeem_result(
    users: Map<u64, User>,
    coupons: Seq<CouponView>,
    discord_id: u64,
    code: Seq<char>,
    now: i64,
) -> Result<Grant, BotError> {
    let i = coupon_index(coupons, code);
    let c = coupons[i];
    let u = users[discord_id];
    if !users.contains_key(discord_id) {
        Err(BotError::UserNotFound)
    } else if i == -1 {
        Err(BotError::CouponNotFound)
    } else if c.rejection(discord_id, now) is Some {
        Err(c.rejection(discord_id, now)->Some_0)
    } else if u.coins + c.coins > i64::MAX || (c.resources is Some && !u.resources.sum_fits(
        c.resources->Some_0,
    )) {
        Err(BotError::Overflow)
    } else {
        Ok(c.grant())
    }
}

/// The account record after a grant.
pub open spec fn granted(u: User, g: Grant, now: i64) -> User {
    User {
        coins: (u.coins + g.coins) as i64,
        resources: match g.resources {
            Some(d) => u.resources.spec_add(d),
            None => u.resources,
        },
        updated_at: now,
        ..u
    }
}

/// A redemption: its result, the accounts and the coupons after it. A
/// refusal changes nothing; a grant marks the coupon used by the account and
/// adds the grant to its record, together.
pub open spec fn spec_redeem(
    users: Map<u64, User>,
    coupons: Seq<CouponView>,
    discord_id: u64,
    code: Seq<char>,
    now: i64,
) -> (Result<Grant, BotError>, Map<u64, User>, Seq<CouponView>) {
    match redeem_result(users, coupons, discord_id, code, now) {
        Err(e) => (Err(e), users, coupons),
        Ok(g) => {
            let i = coupon_index(coupons, code);
            (
                Ok(g),
                users.insert(discord_id, granted(users[discord_id], g, now)),
                coupons.update(i, coupons[i].used_once_by(discord_id)),
            )
        },
    }
}

/// One account redeeming one code twice against the store: once the first
/// attempt has granted, the second never does, and while the coupon has not
/// expired it is refused as already used.
pub proof fn lemma_store_redeems_once(
    users: Map<u64, User>,
    coupons: Seq<CouponView>,
    discord_id: u64,
    code: Seq<char>,
    first: i64,
    second: i64,
)
    requires
        users_wf(users),
        coupons_wf(coupons),
    ensures
        ({
            let (r1, u1, c1) = spec_redeem(users, coupons, discord_id, code, first);
            let (r2, u2, c2) = spec_redeem(u1, c1, discord_id, code, second);
            let i = coupon_index(coupons, code);
            &&& r1 is Ok ==> r2 is Err && u2 == u1 && c2 == c1
            &&& r1 is Ok && !coupons[i].is_expired_at(second) ==> r2 == Err::<Grant, BotError>(
                BotError::CouponAlreadyUsed,
            )
        }),
{
    let (r1, u1, c1) = spec_redeem(users, coupons, discord_id, code, first);
    if r1 is Ok {
        let i = coupon_index(coupons, code);
        lemma_coupon_index(coupons, i);
        assert(0 <= i < coupons.len());
        let c = coupons[i];
        assert(c.wf() && grant_nonneg(c));
        assert(!c.used_by.contains(discord_id));
        assert(c.used_by.insert(discord_id).len() == c.used_by.len() + 1);
        assert(c1[i].wf());
        assert(c1[i].code == code);
        assert(coupons_wf(c1)) by {
            assert forall|a: int, b: int|
                0 <= a < c1.len() && 0 <= b < c1.len() && #[trigger] c1[a].code == #[trigger] c1[b].code
                    implies a == b by {
                assert(coupons[a].code == c1[a].code);
                assert(coupons[b].code == c1[b].code);
            }
            assert forall|a: int| 0 <= a < c1.len() implies #[trigger] c1[a].wf() && grant_nonneg(
                c1[a],
            ) by {
                if a != i {
                    assert(c1[a] == coupons[a]);
                }
            }
        }
        lemma_coupon_index(c1, i);
        assert(c1[i].used_by.contains(discord_id));
    }
}

/// Redemptions of `code` by `accounts` in turn, all at `now`: their results,
/// the accounts and the coupons after them.
pub open spec fn redeem_each(
    users: Map<u64, User>,
    coupons: Seq<CouponView>,
    accounts: Seq<u64>,
    code: Seq<char>,
    now: i64,
) -> (Seq<Result<Grant, BotError>>, Map<u64, User>, Seq<CouponView>)
    decreases accounts.len(),
{
    if accounts.len() == 0 {
        (Seq::empty(), users, coupons)
    } else {
        let (rs, u1, c1) = redeem_each(users, coupons, accounts.drop_last(), code, now);
        let (r, u2, c2) = spec_redeem(u1, c1, accounts.last(), code, now);
        (rs.push(r), u2, c2)
    }
}

/// Every account in `accounts` exists and can take the coupon's grant
/// without its balance or resources leaving their range.
pub open spec fn accounts_can_take(users: Map<u64, User>, accounts: Seq<u64>, c: CouponView) -> bool {
    forall|k: int|
        0 <= k < accounts.len() ==> {
            let u = users[#[trigger] accounts[k]];
            &&& users.contains_key(accounts[k])
            &&& u.coins + c.coins <= i64::MAX
            &&& (c.resources is Some ==> u.resources.sum_fits(c.resources->Some_0))
        }
}

/// A stored coupon limited to `n` uses that nobody has redeemed yet,
/// redeemed in turn by distinct accounts before it expires: exactly the
/// first `n` redemptions grant, every later one is refused as limit
/// reached, and the coupon ends with `min(n, accounts)` uses.
pub proof fn lemma_store_limited_uses(
    users: Map<u64, User>,
    coupons: Seq<CouponView>,
    accounts: Seq<u64>,
    code: Seq<char>,
    now: i64,
    n: i64,
)
    requires
        users_wf(users),
        coupons_wf(coupons),
        coupon_index(coupons, code) >= 0,
        coupons[coupon_index(coupons, code)].used_count == 0,
        coupons[coupon_index(coupons, code)].max_uses == Some(n),
        n >= 0,
        !coupons[coupon_index(coupons, code)].is_expired_at(now),
        accounts.no_duplicates(),
        accounts_can_take(users, accounts, coupons[coupon_index(coupons, code)]),
    ensures
        ({
            let c = coupons[coupon_index(coupons, code)];
            let (rs, u, cs) = redeem_each(users, coupons, accounts, code, now);
            &&& rs.len() == accounts.len()
            &&& forall|k: int|
                0 <= k < accounts.len() ==> #[trigger] rs[k] == (if k < n {
                    Ok::<Grant, BotError>(c.grant())
                } else {
                    Err::<Grant, BotError>(BotError::CouponLimitReached)
                })
            &&& coupon_index(cs, code) == coupon_index(coupons, code)
            &&& cs[coupon_index(coupons, code)].used_count == (if accounts.len() < n {
                accounts.len() as int
            } else {
                n as int
            })
        }),
{
    lemma_redeem_each(users, coupons, accounts, code, now, n);
}

proof fn lemma_redeem_each(
    users: Map<u64, User>,
    coupons: Seq<CouponView>,
    accounts: Seq<u64>,
    code: Seq<char>,
    now: i64,
    n: i64,
)
    requires
        users_wf(users),
        coupons_wf(coupons),
        coupon_index(coupons, code) >= 0,
        coupons[coupon_index(coupons, code)].used_count == 0,
        coupons[coupon_index(coupons, code)].max_uses == Some(n),
        n >= 0,
        !coupons[coupon_index(coupons, code)].is_expired_at(now),
        accounts.no_duplicates(),
        accounts_can_take(users, accounts, coupons[coupon_index(coupons, code)]),
    ensures
        ({
            let i = coupon_index(coupons, code);
            let c = coupons[i];
            let (rs, u, cs) = redeem_each(users, coupons, accounts, code, now);
            &&& rs.len() == accounts.len()
            &&& forall|k: int|
                0 <= k < accounts.len() ==> #[trigger] rs[k] == (if k < n {
                    Ok::<Grant, BotError>(c.grant())
                } else {
                    Err::<Grant, BotError>(BotError::CouponLimitReached)
                })
            &&& users_wf(u)
            &&& coupons_wf(cs)
            &&& cs.len() == coupons.len()
            &&& coupon_index(cs, code) == i
            &&& cs[i].code == code
            &&& cs[i].wf()
            &&& cs[i].grant() == c.grant()
            &&& cs[i].max_uses == c.max_uses
            &&& cs[i].expires_at == c.expires_at
            &&& cs[i].used_count == (if accounts.len() < n {
                accounts.len() as int
            } else {
                n as int
            })
            &&& forall|x: u64| #[trigger] cs[i].used_by.contains(x) ==> accounts.contains(x)
            &&& forall|x: u64|
                #![trigger u.contains_key(x)]
                #![trigger u[x]]
                !accounts.contains(x) ==> u.contains_key(x) == users.contains_key(x) && u[x]
                    == users[x]
        }),
    decreases accounts.len(),
{
    let i = coupon_index(coupons, code);
    lemma_coupon_index_found(coupons, code);
    let c = coupons[i];
    if accounts.len() == 0 {
        lemma_coupons_wf_at(coupons, i);
        assert(c.used_by.len() == 0);
        assert forall|x: u64| #[trigger] c.used_by.contains(x) implies accounts.contains(x) by {
            assert(c.used_by.remove(x).len() < c.used_by.len());
        }
        lemma_coupon_index(coupons, i);
        let (rs, u, cs) = redeem_each(users, coupons, accounts, code, now);
        assert(u == users && cs == coupons && rs.len() == 0);
        return;
    }
    let prefix = accounts.drop_last();
    let a = accounts.last();
    assert(prefix.no_duplicates());
    assert(accounts_can_take(users, prefix, c)) by {
        assert forall|k: int| 0 <= k < prefix.len() implies #[trigger] prefix[k] == accounts[k] by {}
    }
    lemma_redeem_each(users, coupons, prefix, code, now, n);
    let (rs0, u1, c1) = redeem_each(users, coupons, prefix, code, now);
    let (r, u2, c2) = spec_redeem(u1, c1, a, code, now);
    assert(!prefix.contains(a)) by {
        if prefix.contains(a) {
            let j = choose|j: int| 0 <= j < prefix.len() && prefix[j] == a;
            assert(accounts[j] == accounts[accounts.len() - 1]);
        }
    }
    assert(accounts[accounts.len() - 1] == a);
    assert(u1.contains_key(a) && u1[a] == users[a]);
    assert(!c1[i].used_by.contains(a));
    assert(coupons_wf(c1) && c1.len() == coupons.len() && 0 <= i < c1.len());
    let ci = c1[i];
    assert(grant_nonneg(c1[i]));
    if prefix.len() < n {
        assert(ci.rejection(a, now) is None);
        assert(r == Ok::<Grant, BotError>(c.grant()));
        assert(c2 == c1.update(i, ci.used_once_by(a)));
        assert(ci.used_by.insert(a).len() == ci.used_by.len() + 1);
        assert(c2[i].wf());
        assert(coupons_wf(c2)) by {
            assert forall|p: int, q: int|
                0 <= p < c2.len() && 0 <= q < c2.len() && #[trigger] c2[p].code == #[trigger] c2[q].code
                    implies p == q by {
                assert(c1[p].code == c2[p].code);
                assert(c1[q].code == c2[q].code);
            }
            assert forall|p: int| 0 <= p < c2.len() implies #[trigger] c2[p].wf() && grant_nonneg(
                c2[p],
            ) by {
                if p != i {
                    assert(c2[p] == c1[p]);
                    lemma_coupons_wf_at(c1, p);
                }
            }
        }
        lemma_coupon_index(c2, i);
        assert forall|x: u64| #[trigger] c2[i].used_by.contains(x) implies accounts.contains(x) by {
            if x != a {
                assert(ci.used_by.contains(x));
                assert(prefix.contains(x));
                let j = choose|j: int| 0 <= j < prefix.len() && prefix[j] == x;
                assert(accounts[j] == x);
            }
        }
        assert(users_wf(u2));
    } else {
        assert(ci.used_count == n);
        assert(r == Err::<Grant, BotError>(BotError::CouponLimitReached));
        assert forall|x: u64| #[trigger] c2[i].used_by.contains(x) implies accounts.contains(x) by {
            let j = choose|j: int| 0 <= j < prefix.len() && prefix[j] == x;
            assert(accounts[j] == x);
        }
        assert(u2 == u1 && c2 == c1);
    }
    let (rs, u, cs) = redeem_each(users, coupons, accounts, code, now);
    assert(u == u2 && cs == c2 && rs == rs0.push(r));
    assert forall|k: int| 0 <= k < accounts.len() implies #[trigger] rs[k] == (if k < n {
        Ok::<Grant, BotError>(c.grant())
    } else {
        Err::<Grant, BotError>(BotError::CouponLimitReached)
    }) by {
        if k < prefix.len() {
            assert(rs[k] == rs0[k]);
        }
    }
    assert(forall|x: u64| #[trigger] cs[i].used_by.contains(x) ==> accounts.contains(x));
    assert forall|x: u64| !accounts.contains(x) implies u.contains_key(x) == users.contains_key(x)
        && u[x] == users[x] by {
        if x == a {
            assert(accounts[accounts.len() - 1] == a);
            assert(accounts.contains(a));
        }
        if prefix.contains(x) {
            let j = choose|j: int| 0 <= j < prefix.len() && prefix[j] == x;
            assert(accounts[j] == x);
        }
        assert(!prefix.contains(x));
        assert(u1.contains_key(x) == users.contains_key(x) && u1[x] == users[x]);
        if r is Ok {
            assert(u2 == u1.insert(a, granted(u1[a], r->Ok_0, now)));
        } else {
            assert(u2 == u1);
        }
    }
}

proof fn lemma_coupons_wf_at(s: Seq<CouponView>, p: int)
    requires
        coupons_wf(s),
        0 <= p < s.len(),
    ensures
        s[p].wf() && grant_nonneg(s[p]),
{
}

proof fn lemma_coupon_index_found(s: Seq<CouponView>, code: Seq<char>)
    requires
        coupon_index(s, code) >= 0,
    ensures
        0 <= coupon_index(s, code) < s.len(),
        s[coupon_index(s, code)].code == code,
{
}

/// A grant that adds coins and resources and takes nothing away.
pub open spec fn grant_nonneg(c: CouponView) -> bool {
    &&& c.coins >= 0
    &&& (c.resources matches Some(r) ==> r.is_nonneg())
}

/// The position of the coupon `code` in `s`, or -1.
pub open spec fn coupon_index(s: Seq<CouponView>, code: Seq<char>) -> int {
    if exists|i: int| 0 <= i < s.len() && s[i].code == code {
        choose|i: int| 0 <= i < s.len() && s[i].code == code
    } else {
        -1
    }
}

proof fn lemma_coupon_index(s: Seq<CouponView>, i: int)
    requires
        coupons_wf(s),
        0 <= i < s.len(),
    ensures
        coupon_index(s, s[i].code) == i,
{
    let j = coupon_index(s, s[i].code);
    assert(0 <= j < s.len() && s[j].code == s[i].code);
}

/// The price of a renewal: one coin a day.
pub open spec fn renewal_cost(days: u32) -> int {
    days as int
}

/// The position of the server `id` in `s`, or -1.
pub open spec fn server_index(s: Seq<Server>, id: u128) -> int {
    if exists|i: int| 0 <= i < s.len() && s[i].id == id {
        choose|i: int| 0 <= i < s.len() && s[i].id == id
    } else {
        -1
    }
}

proof fn lemma_server_index(s: Seq<Server>, i: int)
    requires
        servers_wf(s),
        0 <= i < s.len(),
    ensures
        server_index(s, s[i].id) == i,
{
    let j = server_index(s, s[i].id);
    assert(0 <= j < s.len() && s[j].id == s[i].id);
}

/// Server identifiers are unique and every record is well formed.
pub open spec fn servers_wf(s: Seq<Server>) -> bool {
    &&& forall|i: int, j: int| 0 <= i < s.len() && 0 <= j < s.len() && #[trigger] s[i].id
        == #[trigger] s[j].id ==> i == j
    &&& forall|i: int| 0 <= i < s.len() ==> #[trigger] s[i].wf()
}

/// Coupon codes are unique, every coupon is well formed, and no grant takes
/// anything away.
pub open spec fn coupons_wf(s: Seq<CouponView>) -> bool {
    &&& forall|i: int, j: int| 0 <= i < s.len() && 0 <= j < s.len() && #[trigger] s[i].code
        == #[trigger] s[j].code ==> i == j
    &&& forall|i: int| 0 <= i < s.len() ==> #[trigger] s[i].wf() && grant_nonneg(s[i])
}

/// Checkout session identifiers are unique.
pub open spec fn orders_wf(s: Seq<Order>) -> bool {
    forall|i: int, j: int| 0 <= i < s.len() && 0 <= j < s.len() && #[trigger] s[i].stripe_session_id@
        == #[trigger] s[j].stripe_session_id@ ==> i == j
}

} // verus!
