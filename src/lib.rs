//! Command/response protocol layer for a battery fuel-gauge chip on a
//! two-wire register bus: register reads, the subcommand channel, the
//! 32-bit flag word and the data-flash block transfer.
//!
//! The library never touches the bus itself. Each operation hands out the
//! next bus transaction to perform and takes back what the bus returned.

use vstd::prelude::*;

pub mod catalog;
pub mod error;
pub mod bus;
pub mod register;
pub mod flash;
pub mod flash_read;
pub mod flash_write;
pub mod session;

verus! {

} // verus!
