//! Lifecycle controller for value transfers over a one-way, asynchronously
//! acknowledged delivery channel.
//!
//! A sender hands an amount of a fungible asset to the contract, the transfer
//! is later confirmed with an assigned sequence number, and at some further
//! point the channel reports success, failure, or timeout.  The controller
//! reconciles these temporally separated events into a consistent ledger,
//! forwards settled value to an external claimant, and guarantees that every
//! failure path leaves the original owner able to recover their funds exactly
//! once.
//!
//! Host concerns (message dispatch, durable storage injection, wire encoding
//! of the transport payloads) live outside this crate; the controller works on
//! plain values and returns the requests it wants dispatched.

pub mod decimal;
pub mod state;
pub mod consts;
pub mod error;
pub mod msg;
pub mod proto;
pub mod assignment;
pub mod generic;
pub mod execute;
pub mod ibc_lifecycle;
pub mod contract;
pub mod laws;

pub use error::ContractError;
