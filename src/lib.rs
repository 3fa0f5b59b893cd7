//! Custody-and-settlement kernel for two-party wagers, tipping, ticketed
//! events and recurring subscriptions.
//!
//! The shared pieces are the account identities and custody derivation
//! (`address`), the fee split (`settlement`), the all-or-nothing transfer
//! executor (`ledger`), the instance store (`registry`) and the error
//! taxonomy (`workflow`); each workflow kind has its own state machine.

pub mod address;
pub mod settlement;
pub mod ledger;
pub mod registry;
pub mod workflow;
pub mod korus_game_escrow;
pub mod korus_games;
pub mod korus_tipping;
pub mod korus_events;
pub mod korus_subscription;
