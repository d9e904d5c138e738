//! Economic and governance rules of the Nexus token protocol.
//!
//! Every operation is a function from plain values to plain values: the
//! caller supplies the current time and the balances it has read, and moves
//! the tokens that an operation tells it to move.

pub mod dao;
pub mod economics;
pub mod governance;
pub mod pubkey;
pub mod registry;
pub mod token;
pub mod utility;
