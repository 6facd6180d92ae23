//! Per-user virtual-economy ledger with coupon redemption, coin transfers,
//! a FIFO provisioning job queue and the lifecycle of hosted servers.
use vstd::prelude::*;

pub mod clock;
pub mod config;
pub mod coupon;
pub mod db;
pub mod errors;
pub mod ledger;
pub mod order;
pub mod pterodactyl;
pub mod queue;
pub mod resources;
pub mod server;
pub mod stripe;
pub mod user;
pub mod worker;

verus! {

} // verus!
