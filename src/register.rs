//! Register reads, the subcommand channel and the 32-bit flag word.

use vstd::prelude::*;
use crate::bus::{Transaction, Tx, reply_view};
use crate::catalog::{CMD_CNTL, CMD_FLAGS, CMD_FLAGSB};
use crate::error::{BusFault, Error, TransportError, error_of, from_transport};

verus! {

/// The little-endian 16-bit value of the bytes `[lo, hi]`.
pub open spec fn word_of(lo: u8, hi: u8) -> u16 {
    (hi as int * 256 + lo as int) as u16
}

/// What a 16-bit register read yields for a reply of the transport.
pub open spec fn decoded_word(reply: Result<Seq<u8>, TransportError>) -> Result<u16, Error> {
    match reply {
        Err(e) => Err(error_of(e)),
        Ok(b) => if b.len() == 2 {
            Ok(word_of(b[0], b[1]))
        } else {
            Err(Error::Bus(BusFault::ShortTransfer))
        },
    }
}

/// What an 8-bit register read yields for a reply of the transport.
pub open spec fn decoded_byte(reply: Result<Seq<u8>, TransportError>) -> Result<u8, Error> {
    match reply {
        Err(e) => Err(error_of(e)),
        Ok(b) => if b.len() == 1 {
            Ok(b[0])
        } else {
            Err(Error::Bus(BusFault::ShortTransfer))
        },
    }
}

/// The 32-bit flag word: the secondary register high, the primary low.
pub open spec fn flags_value(primary: u16, secondary: u16) -> u32 {
    (secondary as int * 65536 + primary as int) as u32
}

/// The transaction that reads a 16-bit register: its address, then two bytes.
pub fn word_request(cmd: u8) -> (t: Transaction)
    ensures
        t@ == Tx::WriteRead(seq![cmd], 2),
{
    let v: Vec<u8> = vec![cmd];
    proof {
        assert(v@ =~= seq![cmd]);
    }
    Transaction::WriteRead(v, 2)
}

/// The transaction that reads an 8-bit register: its address, then one byte.
pub fn byte_request(cmd: u8) -> (t: Transaction)
    ensures
        t@ == Tx::WriteRead(seq![cmd], 1),
{
    let v: Vec<u8> = vec![cmd];
    proof {
        assert(v@ =~= seq![cmd]);
    }
    Transaction::WriteRead(v, 1)
}

/// The transaction of a subcommand call: the control register, the subcommand
/// low byte, then its high byte; two bytes come back.
pub fn control_request(sub: u16) -> (t: Transaction)
    ensures
        t@ == Tx::WriteRead(seq![CMD_CNTL, (sub % 256) as u8, (sub / 256) as u8], 2),
{
    let lo: u8 = (sub % 256) as u8;
    let hi: u8 = (sub / 256) as u8;
    let v: Vec<u8> = vec![CMD_CNTL, lo, hi];
    proof {
        assert(v@ =~= seq![CMD_CNTL, (sub % 256) as u8, (sub / 256) as u8]);
    }
    Transaction::WriteRead(v, 2)
}

/// Composes `[lo, hi]` into `hi * 256 + lo`.
pub fn compose_word(lo: u8, hi: u8) -> (r: u16)
    ensures
        r == word_of(lo, hi),
        r as int == hi as int * 256 + lo as int,
{
    (hi as u16) * 256 + (lo as u16)
}

/// The result of a 16-bit register read or subcommand call, from the reply.
pub fn decode_word(reply: Result<Vec<u8>, TransportError>) -> (r: Result<u16, Error>)
    ensures
        r == decoded_word(reply_view(reply)),
{
    match reply {
        Err(e) => Err(from_transport(e)),
        Ok(b) => {
            if b.len() == 2 {
                Ok(compose_word(b[0], b[1]))
            } else {
                Err(Error::Bus(BusFault::ShortTransfer))
            }
        },
    }
}

/// The result of an 8-bit register read, from the reply.
pub fn decode_byte(reply: Result<Vec<u8>, TransportError>) -> (r: Result<u8, Error>)
    ensures
        r == decoded_byte(reply_view(reply)),
{
    match reply {
        Err(e) => Err(from_transport(e)),
        Ok(b) => {
            if b.len() == 1 {
                Ok(b[0])
            } else {
                Err(Error::Bus(BusFault::ShortTransfer))
            }
        },
    }
}

/// Composes the flag word from its two 16-bit halves.
pub fn compose_flags(primary: u16, secondary: u16) -> (r: u32)
    ensures
        r == flags_value(primary, secondary),
        r as int == secondary as int * 65536 + primary as int,
{
    (secondary as u32) * 65536 + (primary as u32)
}

/// For every register read, the reply `[lo, hi]` yields `hi * 256 + lo`.
pub proof fn lemma_word_round_trip(lo: u8, hi: u8)
    ensures
        decoded_word(Ok(seq![lo, hi])) == Ok::<u16, Error>(word_of(lo, hi)),
        word_of(lo, hi) as int == hi as int * 256 + lo as int,
{
}

/// A subcommand goes out as `[sub & 0xFF, sub >> 8]`, whatever its value.
pub proof fn lemma_control_split(sub: u16)
    ensures
        (sub % 256) as u8 == (sub & 0xFF) as u8,
        (sub / 256) as u8 == (sub >> 8) as u8,
{
    assert((sub % 256) as u8 == (sub & 0xFF) as u8) by (bit_vector);
    assert((sub / 256) as u8 == (sub >> 8) as u8) by (bit_vector);
}

/// The flag word is `(secondary << 16) | primary`.
pub proof fn lemma_flags_compose(primary: u16, secondary: u16)
    ensures
        flags_value(primary, secondary) == ((secondary as u32) << 16u32) | (primary as u32),
{
    let s = secondary as u32;
    let p = primary as u32;
    assert(s * 65536 + p == (s << 16u32) | p) by (bit_vector)
        requires
            s < 65536,
            p < 65536,
    ;
}

/// Where a flag-word read stands.
#[derive(PartialEq, Eq, Structural, Clone, Copy, Debug)]
pub enum FlagsRead {
    /// The primary (low) register is being read.
    Primary,
    /// The primary register gave this value; the secondary is being read.
    Secondary(u16),
}

/// What a flag-word read does next.
#[derive(PartialEq, Eq, Debug)]
pub enum FlagsStep {
    /// Perform this transaction and hand its reply to `flags_next` with this state.
    Transfer(FlagsRead, Transaction),
    /// The read is over.
    Done(Result<u32, Error>),
}

/// Starts a flag-word read: the primary register comes first.
pub fn flags_start() -> (r: (FlagsRead, Transaction))
    ensures
        r.0 == FlagsRead::Primary,
        r.1@ == Tx::WriteRead(seq![CMD_FLAGS], 2),
{
    (FlagsRead::Primary, word_request(CMD_FLAGS))
}

/// Takes the reply to the last transaction of a flag-word read. Any failure
/// ends the read with that error and no value; after two good reads the value
/// is the composed word.
pub fn flags_next(state: FlagsRead, reply: Result<Vec<u8>, TransportError>) -> (r: FlagsStep)
    ensures
        match (state, decoded_word(reply_view(reply))) {
            (_, Err(e)) => r == FlagsStep::Done(Err(e)),
            (FlagsRead::Primary, Ok(p)) => r matches FlagsStep::Transfer(s, t) && s
                == FlagsRead::Secondary(p) && t@ == Tx::WriteRead(seq![CMD_FLAGSB], 2),
            (FlagsRead::Secondary(p), Ok(s)) => r == FlagsStep::Done(Ok(flags_value(p, s))),
        },
{
    let w = decode_word(reply);
    match w {
        Err(e) => FlagsStep::Done(Err(e)),
        Ok(v) => match state {
            FlagsRead::Primary => FlagsStep::Transfer(FlagsRead::Secondary(v), word_request(CMD_FLAGSB)),
            FlagsRead::Secondary(p) => FlagsStep::Done(Ok(compose_flags(p, v))),
        },
    }
}

} // verus!
