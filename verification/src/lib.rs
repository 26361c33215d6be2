//! A ledger on a chain's key-value store: a counter with an owner, an admin
//! with a list of barred addresses, and games of rock, paper, scissors between
//! pairs of addresses, kept by pair and indexed by opponent.
//!
//! `chain` holds everything that is taken on trust: the handles of the chain,
//! what the store holds behind them, and the calls into the storage and
//! controller crates. The rest is verified against it.

use vstd::prelude::*;

pub mod chain;
pub mod contract;
pub mod error;
pub mod games;
pub mod keys;
pub mod laws;
pub mod ledger;
pub mod msg;
pub mod outcome;
pub mod rules;
pub mod state;
pub mod text;
