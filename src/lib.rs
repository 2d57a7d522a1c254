//! A two-party token escrow: an initializer locks token A in a custody account
//! and names the amount of token B wanted in return; a taker completes the trade.
//!
//! The processing logic works on plain account snapshots and hands back the
//! token-service calls and the settlement that the host must carry out.

use vstd::prelude::*;

pub mod error;
pub mod instruction;
pub mod processor;
pub mod state;
pub mod token;
