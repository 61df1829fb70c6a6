//! Access control and reward handling for a multi-owner auction house
//! contract: a persisted set of owner addresses gates every privileged
//! operation (membership changes and reward-account operations), while
//! read-only queries report open auctions and outstanding reward balances.

pub mod balance;
pub mod contract;
pub mod error;
pub mod exec;
pub mod msg;
pub mod query;
pub mod state;
