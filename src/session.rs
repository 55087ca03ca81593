//! The gauge session: the one device on the bus and its fixed address.

use vstd::prelude::*;
use crate::bus::{Transaction, Tx, reply_view};
use crate::catalog::{CMD_CNTL, SUB_CMD_DEVICE_TYPE};
use crate::error::{Error, TransportError};
use crate::register::{control_request, decode_word, decoded_word};

verus! {

/// A gauge at a fixed 7-bit bus address, set when the session is made.
pub struct BqXxx {
    addr: u8,
}

impl BqXxx {
    /// The address the session was made with.
    pub closed spec fn address(&self) -> u8 {
        self.addr
    }

    /// A session with the gauge at `addr`.
    pub fn new(addr: u8) -> (r: BqXxx)
        ensures
            r.address() == addr,
    {
        BqXxx { addr }
    }

    /// The gauge's bus address.
    pub fn addr(&self) -> (r: u8)
        ensures
            r == self.address(),
    {
        self.addr
    }

    /// The transaction that asks for the device type: the device-type subcommand.
    pub fn dev_type_request(&self) -> (t: Transaction)
        ensures
            t@ == Tx::WriteRead(seq![CMD_CNTL, 1u8, 0u8], 2),
    {
        control_request(SUB_CMD_DEVICE_TYPE)
    }

    /// The device type from the reply to `dev_type_request`; a bus failure or
    /// a short reply is passed on as an error.
    pub fn dev_type(&self, reply: Result<Vec<u8>, TransportError>) -> (r: Result<u16, Error>)
        ensures
            r == decoded_word(reply_view(reply)),
    {
        decode_word(reply)
    }
}

} // verus!
