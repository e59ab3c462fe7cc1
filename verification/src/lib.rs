//! Core logic of a Solana copy-trading Telegram bot: address validation,
//! subscriber and monitor bookkeeping, command decisions, retry backoff
//! and wallet key handling, each with a proved contract.
use vstd::prelude::*;

pub mod bot;
pub mod config;
pub mod helpers;
pub mod monitor;
pub mod telegram;
pub mod trade;
pub mod wallet;

verus! {

} // verus!
