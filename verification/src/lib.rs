//! An escrow-based marketplace for non-fungible tokens: sellers deposit an
//! item into custody, the marketplace lists it at a price, and a buyer
//! atomically exchanges payment for a custody transfer.  A platform fee is
//! deducted on every sale and forwarded to a configurable fee recipient;
//! aggregate sale volume is tracked per collection.
//!
//! The settlement engine is a pure state machine: every operation maps the
//! current state, the caller and the attached funds to a new state and a list
//! of outbound [`msg::Effect`] commands, or to a [`error::ContractError`].
//! The host environment performs the commands and persists the state; it is
//! expected to apply each operation atomically.

pub mod contract;
pub mod decimal;
pub mod error;
pub mod laws;
pub mod msg;
pub mod state;
