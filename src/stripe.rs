//! The checkout provider. Checkout is switched off in this build: every
//! request is refused, naming the provider.
use vstd::prelude::*;
use crate::config::Config;
use crate::errors::BotError;

verus! {

#[derive(Debug, Clone, Copy)]
pub struct StripeService {
    enabled: bool,
}

impl StripeService {
    pub fn new(config: &Config) -> (r: StripeService)
        ensures
            !r.is_enabled(),
    {
        StripeService { enabled: false }
    }

    pub closed spec fn is_enabled(&self) -> bool {
        self.enabled
    }

    /// Opens a checkout for `coins` coins at `amount_cents`; refused while
    /// checkout is switched off.
    pub fn create_checkout_session(&self, amount_cents: i64, coins: i64, discord_id: u64) -> (r:
        Result<(), BotError>)
        ensures
            r matches Err(BotError::Stripe(m)) && m@ == "Stripe service temporarily disabled"@,
    {
        Err(BotError::Stripe("Stripe service temporarily disabled".to_string()))
    }

    /// Looks up a checkout session; refused while checkout is switched off.
    pub fn get_session(&self, session_id: &str) -> (r: Result<(), BotError>)
        ensures
            r matches Err(BotError::Stripe(m)) && m@ == "Stripe service temporarily disabled"@,
    {
        Err(BotError::Stripe("Stripe service temporarily disabled".to_string()))
    }
}

} // verus!
