//! The reasons an operation is rejected.
use vstd::prelude::*;

verus! {

/// Every rejected operation names its specific reason.
#[derive(Debug, Clone, PartialEq, Eq)]
pub enum BotError {
    /// The checkout provider refused or is unavailable.
    Stripe(String),
    /// The provisioning panel refused the request.
    Pterodactyl(String),
    /// The account was never created.
    UserNotFound,
    /// A debit asked for more than the balance.
    InsufficientCoins { needed: i64, available: i64 },
    ServerNotFound,
    CouponNotFound,
    CouponExpired,
    CouponAlreadyUsed,
    CouponLimitReached,
    CouponAlreadyExists,
    /// The caller does not own the record.
    PermissionDenied,
    /// An amount that must be positive is not.
    InvalidAmount,
    /// A transfer names the same account on both sides.
    SelfTransfer,
    /// A balance, quota or date would leave the range of its integer type.
    Overflow,
    /// The account's resources do not cover the plan.
    InsufficientResources,
    /// A record with this key exists already.
    AlreadyExists,
    OrderNotFound,
    /// No enabled store item has this identifier.
    ItemNotFound,
    /// The server's lifecycle does not allow the change of state.
    InvalidTransition,
    /// Text that does not parse, such as a malformed server identifier.
    InvalidInput(String),
}

pub type BotResult<T> = Result<T, BotError>;

} // verus!
