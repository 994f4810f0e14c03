//! A scholarship fund as a CosmWasm contract: an administrator registers
//! and approves students, and each approved student claims the fixed payout
//! once.
//!
//! `contract` holds the handlers, `store` the boundary to the host's
//! storage, `model` the state machine that the handlers are proved to
//! follow, and `laws` what holds of that state machine.

pub mod contract;
pub mod error;
pub mod laws;
pub mod model;
pub mod msg;
pub mod response;
pub mod state;
pub mod store;
