//! Staking and reward accounting.
//!
//! Users lock a stake asset into pools; rewards accrue per pool through a
//! reward-per-share accumulator driven by a global emission rate and a
//! per-pool multiplier. Every operation is a total function on the records it
//! touches: it either commits all of its changes or rejects the request and
//! leaves every record as it was.

pub mod clock;
pub mod errors;
pub mod keys;
pub mod state;
pub mod utils;
pub mod events;
pub mod transfer;
pub mod instructions;
pub mod ledger;
pub mod game;
