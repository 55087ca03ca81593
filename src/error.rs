//! What the bus reports, and what the gauge layer reports.

use vstd::prelude::*;

verus! {

/// A bus failure other than a timeout.
#[derive(PartialEq, Eq, Structural, Clone, Copy, Debug)]
pub enum BusFault {
    Bus,
    Arbitration,
    Nack,
    Crc,
    Overrun,
    ZeroLengthTransfer,
    /// The bus moved fewer bytes than the protocol step needed.
    ShortTransfer,
}

/// What the transport hands back when a transaction fails.
#[derive(PartialEq, Eq, Structural, Clone, Copy, Debug)]
pub enum TransportError {
    Timeout,
    Other(BusFault),
}

/// The failures of a gauge operation.
#[derive(PartialEq, Eq, Structural, Clone, Copy, Debug)]
pub enum Error {
    /// The bus did not answer in time.
    Timeout,
    /// Any other bus fault, short transfers included.
    Bus(BusFault),
    /// A data-flash block's checksum did not match its payload.
    ChecksumMismatch,
    /// A data-flash transfer longer than the block index can address.
    TransferTooLong,
}

pub open spec fn error_of(e: TransportError) -> Error {
    match e {
        TransportError::Timeout => Error::Timeout,
        TransportError::Other(f) => Error::Bus(f),
    }
}

/// Maps a transport failure to the gauge's error, keeping a timeout a timeout.
pub fn from_transport(e: TransportError) -> (r: Error)
    ensures
        r == error_of(e),
{
    match e {
        TransportError::Timeout => Error::Timeout,
        TransportError::Other(f) => Error::Bus(f),
    }
}

/// A timeout and any other bus fault never map to the same error.
pub proof fn lemma_timeout_distinct(f: BusFault)
    ensures
        error_of(TransportError::Timeout) == Error::Timeout,
        error_of(TransportError::Other(f)) != Error::Timeout,
        error_of(TransportError::Other(f)) == Error::Bus(f),
{
}

} // verus!
