//! One bus transaction to perform, and its mathematical view.

use vstd::prelude::*;
use crate::error::TransportError;

verus! {

/// A transaction for the transport to perform on the gauge's address.
#[derive(PartialEq, Eq, Debug)]
pub enum Transaction {
    /// Write these bytes; nothing is read back.
    Write(Vec<u8>),
    /// Write these bytes, then read back this many bytes.
    WriteRead(Vec<u8>, usize),
}

/// The view of a transaction.
pub enum Tx {
    Write(Seq<u8>),
    WriteRead(Seq<u8>, nat),
}

impl View for Transaction {
    type V = Tx;

    open spec fn view(&self) -> Tx {
        match self {
            Transaction::Write(b) => Tx::Write(b@),
            Transaction::WriteRead(b, n) => Tx::WriteRead(b@, *n as nat),
        }
    }
}

/// The view of what the transport handed back: the bytes it read, or its error.
pub open spec fn reply_view(r: Result<Vec<u8>, TransportError>) -> Result<Seq<u8>, TransportError> {
    match r {
        Ok(b) => Ok(b@),
        Err(e) => Err(e),
    }
}

} // verus!
