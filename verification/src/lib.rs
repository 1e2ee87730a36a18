//! Account validation and settlement for a two-party token escrow.
//!
//! A maker locks an amount of one token in a vault that only the program can
//! move and names the amount of a second token wanted in return. A taker
//! settles the offer in one step or not at all. This crate holds the rules:
//! which accounts are admitted, how the stored offer is read, and which calls
//! to the token services a settlement consists of. Accounts come in as plain
//! values and the calls go out as plain values for the host to carry out. The
//! one question that the crate puts to the runtime itself is the search for
//! the address of an associated token account.

pub mod account;
pub mod error;
pub mod instructions;
pub mod pubkey;
pub mod service;
pub mod state;
