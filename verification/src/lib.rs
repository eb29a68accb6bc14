//! A token launchpad with a linear bonding-curve price schedule.
//!
//! A `Launch` records one token sale: its creator, the mint it controls,
//! display metadata, the supply minted so far, and the curve parameter.
//! `initialize_launch` creates a launch record (at most one per creator),
//! and `buy_tokens` sells tokens: it prices the purchase with the linear
//! curve, moves payment from the buyer to a vault, and mints tokens to the
//! buyer. The host runtime that dispatches instructions supplies atomicity:
//! here every failure path is checked before any state is written, so a
//! failed operation changes nothing.

pub mod account;
pub mod error;
pub mod launch;
pub mod pricing;
pub mod registry;
