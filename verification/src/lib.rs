//! A verified staking ledger: users lock value (native currency or a peg
//! token) into tiered commitment plans, accrue time-proportional rewards,
//! and withdraw principal plus rewards subject to lock expiry, early-exit
//! penalties, and platform-wide pause and admin controls.
//!
//! The library is the pure core of the system: the arithmetic engine, the
//! tier registry, the platform ledger, the per-user position store, and the
//! instruction handlers that tie them together into atomic state
//! transitions. Every handler is a function from plain values to plain
//! values; the settlement substrate that actually moves funds, checks
//! signatures and persists accounts calls into this core and performs the
//! transfers the handlers decide on.

pub mod admin;
pub mod calculations;
pub mod claim;
pub mod constants;
pub mod deposit;
pub mod errors;
pub mod events;
pub mod force_withdraw;
pub mod props;
pub mod states;
pub mod withdraw;
