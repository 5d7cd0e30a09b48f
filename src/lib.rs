//! Route-table mutation and link/address/route inspection for an `ip`-style
//! network configuration command.

pub mod numerals;
pub mod net;
pub mod table;
pub mod mutate;
pub mod inspect;
pub mod args;
pub mod command;
pub mod laws;
