//! An escrow marketplace in front of a token registry: an owner lists an
//! asset at an ask price, bidders leave standing bids, and a bid that crosses
//! the ask, or that the owner accepts, is settled by handing the asset over
//! and releasing the bid's funds to the seller.
//!
//! `market` is the state machine in mathematical terms. `host`, `ledger` and
//! `registry` are the boundary to the host's store and to the registry
//! contract, whose behaviour is stated and not proved. `rules` holds the
//! decisions on plain values, `contract` the operations, and `laws` what
//! follows from the operations' contracts.

pub mod state;
pub mod error;
pub mod msg;
pub mod market;
pub mod host;
pub mod ledger;
pub mod registry;
pub mod rules;
pub mod contract;
pub mod laws;
