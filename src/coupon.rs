//! Redeemable coupons: a grant of coins and resources, usable once per account,
//! optionally limited in total uses and in time.
use vstd::prelude::*;
use std::collections::HashSet;
use crate::clock::now_timestamp;
use crate::errors::BotError;
use crate::resources::Resources;

verus! {

broadcast use vstd::std_specs::hash::group_hash_axioms;

#[derive(Debug)]
pub struct Coupon {
    pub code: String,
    pub coins: i64,
    pub resources: Option<Resources>,
    pub max_uses: Option<i64>,
    pub used_count: i64,
    pub used_by: HashSet<u64>,
    pub expires_at: Option<i64>,
    pub created_at: i64,
    pub created_by: u64,
}

/// What a successful redemption hands to the ledger.
#[derive(Debug, Clone, Copy, PartialEq, Eq, Structural)]
pub struct Grant {
    pub coins: i64,
    pub resources: Option<Resources>,
}

/// A coupon as mathematical values.
pub struct CouponView {
    pub code: Seq<char>,
    pub coins: i64,
    pub resources: Option<Resources>,
    pub max_uses: Option<i64>,
    pub used_count: int,
    pub used_by: Set<u64>,
    pub expires_at: Option<i64>,
    pub created_at: i64,
    pub created_by: u64,
}

impl View for Coupon {
    type V = CouponView;

    open spec fn view(&self) -> CouponView {
        CouponView {
            code: self.code@,
            coins: self.coins,
            resources: self.resources,
            max_uses: self.max_uses,
            used_count: self.used_count as int,
            used_by: self.used_by@,
            expires_at: self.expires_at,
            created_at: self.created_at,
            created_by: self.created_by,
        }
    }
}

impl CouponView {
    /// The count of redemptions matches the set of redeeming accounts, and
    /// never passes the limit.
    pub open spec fn wf(self) -> bool {
        &&& self.used_by.finite()
        &&& self.used_count == self.used_by.len()
        &&& self.used_count <= i64::MAX
        &&& (self.max_uses matches Some(m) ==> self.used_count == 0 || self.used_count <= m)
    }

    pub open spec fn is_expired_at(self, now: i64) -> bool {
        self.expires_at matches Some(e) && now > e
    }

    /// No use is left. The count is an `i64`, so it also ends at its maximum.
    pub open spec fn limit_reached(self) -> bool {
        ||| (self.max_uses matches Some(m) && self.used_count >= m)
        ||| self.used_count >= i64::MAX
    }

    /// Why `user_id` cannot redeem at `now`, checked in this order; `None`
    /// where it can.
    pub open spec fn rejection(self, user_id: u64, now: i64) -> Option<BotError> {
        if self.is_expired_at(now) {
            Some(BotError::CouponExpired)
        } else if self.used_by.contains(user_id) {
            Some(BotError::CouponAlreadyUsed)
        } else if self.limit_reached() {
            Some(BotError::CouponLimitReached)
        } else {
            None
        }
    }

    /// The coupon after a redemption by `user_id`.
    pub open spec fn used_once_by(self, user_id: u64) -> CouponView {
        CouponView {
            used_by: self.used_by.insert(user_id),
            used_count: self.used_count + 1,
            ..self
        }
    }

    pub open spec fn grant(self) -> Grant {
        Grant { coins: self.coins, resources: self.resources }
    }

    /// The result of a redemption attempt and the coupon after it.
    pub open spec fn redeem(self, user_id: u64, now: i64) -> (Result<Grant, BotError>, CouponView) {
        match self.rejection(user_id, now) {
            Some(e) => (Err(e), self),
            None => (Ok(self.grant()), self.used_once_by(user_id)),
        }
    }
}


/// The results of redemption attempts by `users` in turn, all at `now`, and
/// the coupon after them.
pub open spec fn redeem_all(c: CouponView, users: Seq<u64>, now: i64) -> (
    Seq<Result<Grant, BotError>>,
    CouponView,
)
    decreases users.len(),
{
    if users.len() == 0 {
        (Seq::empty(), c)
    } else {
        let (rs, before) = redeem_all(c, users.drop_last(), now);
        let (r, after) = before.redeem(users.last(), now);
        (rs.push(r), after)
    }
}

/// One account redeeming one code twice: once the first attempt has
/// succeeded, no later attempt succeeds, and while the coupon has not expired
/// the second is rejected as already used. Where the account may redeem at
/// both times, exactly one of the two attempts grants.
pub proof fn lemma_redeem_once_per_user(c: CouponView, user_id: u64, first: i64, second: i64)
    requires
        c.wf(),
    ensures
        ({
            let (r1, c1) = c.redeem(user_id, first);
            let (r2, c2) = c1.redeem(user_id, second);
            &&& r1 is Ok ==> r2 is Err
            &&& r1 is Ok && !c.is_expired_at(second) ==> r2 == Err::<Grant, BotError>(
                BotError::CouponAlreadyUsed,
            )
            &&& c.rejection(user_id, first).is_none() && c.rejection(user_id, second).is_none()
                ==> r1 == Ok::<Grant, BotError>(c.grant()) && r2 == Err::<Grant, BotError>(
                BotError::CouponAlreadyUsed,
            )
        }),
{
}

/// A coupon limited to `n` uses that nobody has redeemed yet, redeemed in
/// turn by distinct accounts before it expires: exactly the first `n`
/// attempts grant, and every later one is rejected as limit reached.
pub proof fn lemma_limited_uses(c: CouponView, users: Seq<u64>, now: i64, n: i64)
    requires
        c.wf(),
        c.used_count == 0,
        c.max_uses == Some(n),
        n >= 0,
        !c.is_expired_at(now),
        users.no_duplicates(),
    ensures
        ({
            let (rs, after) = redeem_all(c, users, now);
            &&& rs.len() == users.len()
            &&& forall|i: int|
                0 <= i < users.len() ==> #[trigger] rs[i] == (if i < n {
                    Ok::<Grant, BotError>(c.grant())
                } else {
                    Err::<Grant, BotError>(BotError::CouponLimitReached)
                })
            &&& after.used_count == (if users.len() < n { users.len() as int } else { n as int })
            &&& after.wf()
        }),
    decreases users.len(),
{
    let (rs, after) = redeem_all(c, users, now);
    if users.len() > 0 {
        let prefix = users.drop_last();
        assert(prefix.no_duplicates());
        lemma_limited_uses(c, prefix, now, n);
        lemma_redeem_all_keeps(c, prefix, now);
        let (rs0, before) = redeem_all(c, prefix, now);
        let u = users.last();
        assert(!prefix.contains(u)) by {
            if prefix.contains(u) {
                let j = choose|j: int| 0 <= j < prefix.len() && prefix[j] == u;
                assert(users[j] == users[users.len() - 1]);
            }
        }
        assert(!before.used_by.contains(u));
        assert forall|i: int| 0 <= i < users.len() implies #[trigger] rs[i] == (if i < n {
            Ok::<Grant, BotError>(c.grant())
        } else {
            Err::<Grant, BotError>(BotError::CouponLimitReached)
        }) by {
            if i < prefix.len() {
                assert(rs[i] == rs0[i]);
            }
        }
    } else {
        assert(c.used_by.len() == 0);
    }
}

/// Redemption attempts change only the redeeming set and count, and every
/// account in the set afterwards was in it before or attempted.
proof fn lemma_redeem_all_keeps(c: CouponView, users: Seq<u64>, now: i64)
    requires
        c.wf(),
    ensures
        ({
            let (rs, after) = redeem_all(c, users, now);
            &&& rs.len() == users.len()
            &&& after.wf()
            &&& after.grant() == c.grant()
            &&& after.max_uses == c.max_uses
            &&& after.expires_at == c.expires_at
            &&& forall|u: u64| #[trigger] after.used_by.contains(u) ==> c.used_by.contains(u)
                || users.contains(u)
        }),
    decreases users.len(),
{
    if users.len() > 0 {
        let prefix = users.drop_last();
        lemma_redeem_all_keeps(c, prefix, now);
        let (rs0, before) = redeem_all(c, prefix, now);
        let (rs, after) = redeem_all(c, users, now);
        assert forall|u: u64| #[trigger] after.used_by.contains(u) implies c.used_by.contains(u)
            || users.contains(u) by {
            if before.used_by.contains(u) {
                if prefix.contains(u) {
                    let j = choose|j: int| 0 <= j < prefix.len() && prefix[j] == u;
                    assert(users[j] == u);
                }
            } else {
                assert(users[users.len() - 1] == u);
            }
        }
    }
}

impl Coupon {
    /// A coupon created now that nobody has used.
    pub fn new(
        code: String,
        coins: i64,
        resources: Option<Resources>,
        max_uses: Option<i64>,
        expires_at: Option<i64>,
        created_by: u64,
    ) -> (r: Coupon)
        ensures
            r@.code == code@,
            r@.coins == coins,
            r@.resources == resources,
            r@.max_uses == max_uses,
            r@.used_count == 0,
            r@.used_by == Set::<u64>::empty(),
            r@.expires_at == expires_at,
            r@.created_by == created_by,
            r@.wf(),
    {
        let now = now_timestamp();
        Coupon::new_at(code, coins, resources, max_uses, expires_at, created_by, now)
    }

    /// `new` with the creation time given.
    pub fn new_at(
        code: String,
        coins: i64,
        resources: Option<Resources>,
        max_uses: Option<i64>,
        expires_at: Option<i64>,
        created_by: u64,
        now: i64,
    ) -> (r: Coupon)
        ensures
            r@ == (CouponView {
                code: code@,
                coins,
                resources,
                max_uses,
                used_count: 0,
                used_by: Set::empty(),
                expires_at,
                created_at: now,
                created_by,
            }),
            r@.wf(),
    {
        Coupon {
            code,
            coins,
            resources,
            max_uses,
            used_count: 0,
            used_by: HashSet::new(),
            expires_at,
            created_at: now,
            created_by,
        }
    }

    /// Whether `user_id` may redeem the coupon at `now`.
    pub fn can_be_used_at(&self, user_id: u64, now: i64) -> (r: bool)
        ensures
            r == self@.rejection(user_id, now).is_none(),
    {
        self.check_at(user_id, now).is_none()
    }

    /// Whether `user_id` may redeem the coupon now.
    pub fn can_be_used(&self, user_id: u64) -> (r: bool)
        ensures
            exists|now: i64| r == self@.rejection(user_id, now).is_none(),
    {
        let now = now_timestamp();
        self.can_be_used_at(user_id, now)
    }

    /// Why `user_id` may not redeem the coupon at `now`, if it may not.
    pub fn check_at(&self, user_id: u64, now: i64) -> (r: Option<BotError>)
        ensures
            r == self@.rejection(user_id, now),
    {
        if let Some(expires_at) = self.expires_at {
            if now > expires_at {
                return Some(BotError::CouponExpired);
            }
        }
        if self.used_by.contains(&user_id) {
            return Some(BotError::CouponAlreadyUsed);
        }
        if let Some(max_uses) = self.max_uses {
            if self.used_count >= max_uses {
                return Some(BotError::CouponLimitReached);
            }
        }
        if self.used_count == i64::MAX {
            return Some(BotError::CouponLimitReached);
        }
        None
    }

    /// Redeems the coupon for `user_id` at `now`: the checks and the update
    /// of the redeeming set and count happen as one step.
    pub fn redeem_at(&mut self, user_id: u64, now: i64) -> (r: Result<Grant, BotError>)
        requires
            old(self)@.wf(),
        ensures
            (r, final(self)@) == old(self)@.redeem(user_id, now),
            final(self)@.wf(),
    {
        match self.check_at(user_id, now) {
            Some(e) => Err(e),
            None => {
                self.used_by.insert(user_id);
                self.used_count = self.used_count + 1;
                Ok(Grant { coins: self.coins, resources: self.resources })
            },
        }
    }

    /// Marks the coupon used by `user_id` at `now` if it may be; reports
    /// whether it was.
    pub fn use_coupon_at(&mut self, user_id: u64, now: i64) -> (r: bool)
        requires
            old(self)@.wf(),
        ensures
            r == old(self)@.rejection(user_id, now).is_none(),
            final(self)@ == old(self)@.redeem(user_id, now).1,
            final(self)@.wf(),
    {
        self.redeem_at(user_id, now).is_ok()
    }

    /// Marks the coupon used by `user_id` now if it may be; reports whether
    /// it was.
    pub fn use_coupon(&mut self, user_id: u64) -> (r: bool)
        requires
            old(self)@.wf(),
        ensures
            exists|now: i64|
                r == old(self)@.rejection(user_id, now).is_none() && final(self)@ == old(
                    self,
                )@.redeem(user_id, now).1,
            final(self)@.wf(),
    {
        let now = now_timestamp();
        self.use_coupon_at(user_id, now)
    }
}

} // verus!
