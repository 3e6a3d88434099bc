//! A two-party escrow swap program: a creator locks tokens in a program-owned
//! custody account and may later cancel the offer to recover them.
//!
//! The account checks and state transitions are verified here; running the
//! resulting effects against the ledger is left to the host glue.
pub mod address;
pub mod error;
pub mod instruction;
pub mod ledger;
pub mod processor;
pub mod state;
pub mod token;
