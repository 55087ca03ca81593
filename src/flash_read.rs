//! Reading a data-flash class, block by block.

use vstd::prelude::*;
use crate::bus::{Transaction, Tx, reply_view};
use crate::catalog::{CMD_A_DF, CMD_DFDCKS};
use crate::error::{BusFault, Error, TransportError, error_of, from_transport};
use crate::flash::{
    MAX_FLASH_LEN, Phase, block_checksum, block_frame, block_select, checksum_of,
    chunk_len, chunk_length, class_frame, class_select, window_read,
};

verus! {

/// The view of a class read in progress.
pub struct ReadModel {
    pub class: u8,
    /// Bytes asked for.
    pub len: nat,
    /// Payload of the blocks read and checked so far.
    pub data: Seq<u8>,
    /// Index of the block in transfer.
    pub block: nat,
    /// Retries spent on this block.
    pub attempt: nat,
    /// Retries allowed per block.
    pub max_retries: nat,
    pub phase: Phase,
    /// Payload of this block, once read.
    pub payload: Seq<u8>,
}

/// The view of what a class read does next.
pub enum ReadAction {
    Transfer(Tx),
    Finished(Result<(), Error>),
}

/// What a class read does next.
#[derive(PartialEq, Eq, Debug)]
pub enum ReadStep {
    /// Perform this transaction and hand its reply to `advance`.
    Transfer(Transaction),
    /// The read is over; on success `data` holds the class bytes.
    Finished(Result<(), Error>),
}

impl View for ReadStep {
    type V = ReadAction;

    open spec fn view(&self) -> ReadAction {
        match self {
            ReadStep::Transfer(t) => ReadAction::Transfer(t@),
            ReadStep::Finished(r) => ReadAction::Finished(*r),
        }
    }
}

/// The state after a block's checksum proved good: its payload is kept and
/// the next block starts from class selection.
pub open spec fn block_accepted(m: ReadModel) -> ReadModel {
    ReadModel {
        data: m.data + m.payload,
        block: m.block + 1,
        attempt: 0,
        phase: Phase::SelectClass,
        payload: Seq::empty(),
        ..m
    }
}

/// The state after a checksum mismatch with retries left: the same block
/// starts over from class selection; blocks already read stay as they are.
pub open spec fn block_retried(m: ReadModel) -> ReadModel {
    ReadModel { attempt: m.attempt + 1, phase: Phase::SelectClass, payload: Seq::empty(), ..m }
}

/// One step of a class read: the state and action that follow a reply.
pub open spec fn read_next(m: ReadModel, reply: Result<Seq<u8>, TransportError>) -> (ReadModel, ReadAction) {
    match reply {
        Err(e) => (m, ReadAction::Finished(Err(error_of(e)))),
        Ok(b) => match m.phase {
            Phase::SelectClass => (
                ReadModel { phase: Phase::SelectBlock, ..m },
                ReadAction::Transfer(Tx::Write(block_frame(m.block))),
            ),
            Phase::SelectBlock => (
                ReadModel { phase: Phase::Payload, ..m },
                ReadAction::Transfer(Tx::WriteRead(seq![CMD_A_DF], chunk_len(m.len, m.block))),
            ),
            Phase::Payload => if b.len() == chunk_len(m.len, m.block) {
                (
                    ReadModel { phase: Phase::Checksum, payload: b, ..m },
                    ReadAction::Transfer(Tx::WriteRead(seq![CMD_DFDCKS], 1)),
                )
            } else {
                (m, ReadAction::Finished(Err(Error::Bus(BusFault::ShortTransfer))))
            },
            Phase::Checksum => if b.len() != 1 {
                (m, ReadAction::Finished(Err(Error::Bus(BusFault::ShortTransfer))))
            } else if b[0] == checksum_of(m.payload) {
                let n = block_accepted(m);
                if n.data.len() == m.len {
                    (n, ReadAction::Finished(Ok(())))
                } else {
                    (n, ReadAction::Transfer(Tx::Write(class_frame(m.class))))
                }
            } else if m.attempt < m.max_retries {
                (block_retried(m), ReadAction::Transfer(Tx::Write(class_frame(m.class))))
            } else {
                (m, ReadAction::Finished(Err(Error::ChecksumMismatch)))
            },
        },
    }
}

/// A checksum mismatch with retries left starts the same block over and keeps
/// the blocks already read; a correct checksum on that retry then accepts the
/// block. With no retries left the mismatch ends the read.
pub proof fn lemma_retry(m: ReadModel, bad: u8, p: Seq<u8>)
    requires
        read_in_progress(m),
        m.phase == Phase::Checksum,
        bad != checksum_of(m.payload),
        p.len() == chunk_len(m.len, m.block),
    ensures
        m.attempt == m.max_retries ==> read_next(m, Ok(seq![bad])).1 == ReadAction::Finished(
            Err(Error::ChecksumMismatch),
        ),
        m.attempt < m.max_retries ==> ({
            let m1 = read_next(m, Ok(seq![bad]));
            let m2 = read_next(m1.0, Ok(Seq::empty()));
            let m3 = read_next(m2.0, Ok(Seq::empty()));
            let m4 = read_next(m3.0, Ok(p));
            let m5 = read_next(m4.0, Ok(seq![checksum_of(p)]));
            &&& m1.0.data == m.data
            &&& m1.0.block == m.block
            &&& m1.1 == ReadAction::Transfer(Tx::Write(class_frame(m.class)))
            &&& m2.1 == ReadAction::Transfer(Tx::Write(block_frame(m.block)))
            &&& m3.1 == ReadAction::Transfer(Tx::WriteRead(seq![CMD_A_DF], p.len()))
            &&& m5.0.data == m.data + p
            &&& m5.0.block == m.block + 1
            &&& m5.1 != ReadAction::Finished(Err(Error::ChecksumMismatch))
        }),
{
    let s = seq![bad];
    assert(s[0] == bad);
    let c = seq![checksum_of(p)];
    assert(c[0] == checksum_of(p));
}

/// A transport timeout at any step ends the read with `Timeout`, and any
/// other transport fault ends it with that fault, never with `Timeout`.
pub proof fn lemma_read_timeout(m: ReadModel, f: BusFault)
    ensures
        read_next(m, Err(TransportError::Timeout)).1 == ReadAction::Finished(Err(Error::Timeout)),
        read_next(m, Err(TransportError::Other(f))).1 == ReadAction::Finished(Err(Error::Bus(f))),
{
}

/// A read ends in success only on a good checksum of its last block, and
/// then holds exactly the bytes asked for: the blocks before it and that
/// block's payload.
pub proof fn lemma_read_complete(m: ReadModel, reply: Result<Seq<u8>, TransportError>)
    requires
        read_in_progress(m),
        read_next(m, reply).1 == ReadAction::Finished(Ok(())),
    ensures
        m.phase == Phase::Checksum,
        reply matches Ok(b) && b.len() == 1 && b[0] == checksum_of(m.payload),
        read_next(m, reply).0.data == m.data + m.payload,
        read_next(m, reply).0.data.len() == m.len,
{
}

/// A read of one data-flash class into a buffer of a given length.
pub struct FlashRead {
    pub class: u8,
    pub len: usize,
    pub data: Vec<u8>,
    pub block: usize,
    pub attempt: u8,
    pub max_retries: u8,
    pub phase: Phase,
    pub payload: Vec<u8>,
}

impl View for FlashRead {
    type V = ReadModel;

    open spec fn view(&self) -> ReadModel {
        ReadModel {
            class: self.class,
            len: self.len as nat,
            data: self.data@,
            block: self.block as nat,
            attempt: self.attempt as nat,
            max_retries: self.max_retries as nat,
            phase: self.phase,
            payload: self.payload@,
        }
    }
}

/// A read in progress: the blocks done are whole, the one in transfer exists.
pub open spec fn read_in_progress(m: ReadModel) -> bool {
    &&& m.len <= MAX_FLASH_LEN
    &&& m.data.len() == 32 * m.block
    &&& m.data.len() < m.len
    &&& m.attempt <= m.max_retries
    &&& m.phase == Phase::Checksum ==> m.payload.len() == chunk_len(m.len, m.block)
}

impl FlashRead {
    /// Starts reading `len` bytes of class `class` from block 0, trying each
    /// block again up to `max_retries` times after a checksum mismatch. The
    /// first step selects the class; an empty read is over at once, and one
    /// longer than `MAX_FLASH_LEN` fails at once.
    pub fn new(class: u8, len: usize, max_retries: u8) -> (r: (FlashRead, ReadStep))
        ensures
            r.0@ == (ReadModel {
                class,
                len: len as nat,
                data: Seq::empty(),
                block: 0,
                attempt: 0,
                max_retries: max_retries as nat,
                phase: Phase::SelectClass,
                payload: Seq::empty(),
            }),
            len > MAX_FLASH_LEN ==> r.1@ == ReadAction::Finished(Err(Error::TransferTooLong)),
            len == 0 ==> r.1@ == ReadAction::Finished(Ok(())),
            0 < len <= MAX_FLASH_LEN ==> r.1@ == ReadAction::Transfer(Tx::Write(class_frame(class))),
            0 < len <= MAX_FLASH_LEN ==> read_in_progress(r.0@),
    {
        let s = FlashRead {
            class,
            len,
            data: Vec::new(),
            block: 0,
            attempt: 0,
            max_retries,
            phase: Phase::SelectClass,
            payload: Vec::new(),
        };
        if len > MAX_FLASH_LEN {
            (s, ReadStep::Finished(Err(Error::TransferTooLong)))
        } else if len == 0 {
            (s, ReadStep::Finished(Ok(())))
        } else {
            (s, ReadStep::Transfer(class_select(class)))
        }
    }

    /// The bytes read so far: after a successful finish, the whole class.
    pub fn data(&self) -> (r: &Vec<u8>)
        ensures
            r@ == self@.data,
    {
        &self.data
    }

    /// Takes the reply to the last transaction and gives the next step.
    pub fn advance(&mut self, reply: Result<Vec<u8>, TransportError>) -> (r: ReadStep)
        requires
            read_in_progress(old(self)@),
        ensures
            (final(self)@, r@) == read_next(old(self)@, reply_view(reply)),
            r is Transfer ==> read_in_progress(final(self)@),
    {
        let b = match reply {
            Err(e) => {
                return ReadStep::Finished(Err(from_transport(e)));
            },
            Ok(b) => b,
        };
        match self.phase {
            Phase::SelectClass => {
                self.phase = Phase::SelectBlock;
                ReadStep::Transfer(block_select(self.block))
            },
            Phase::SelectBlock => {
                self.phase = Phase::Payload;
                let n = chunk_length(self.len, self.block);
                ReadStep::Transfer(window_read(CMD_A_DF, n))
            },
            Phase::Payload => {
                let n = chunk_length(self.len, self.block);
                if b.len() == n {
                    self.phase = Phase::Checksum;
                    self.payload = b;
                    ReadStep::Transfer(window_read(CMD_DFDCKS, 1))
                } else {
                    ReadStep::Finished(Err(Error::Bus(BusFault::ShortTransfer)))
                }
            },
            Phase::Checksum => {
                if b.len() != 1 {
                    ReadStep::Finished(Err(Error::Bus(BusFault::ShortTransfer)))
                } else if b[0] == block_checksum(self.payload.as_slice()) {
                    self.data.append(&mut self.payload);
                    self.block = self.block + 1;
                    self.attempt = 0;
                    self.phase = Phase::SelectClass;
                    if self.data.len() == self.len {
                        ReadStep::Finished(Ok(()))
                    } else {
                        ReadStep::Transfer(class_select(self.class))
                    }
                } else if self.attempt < self.max_retries {
                    self.attempt = self.attempt + 1;
                    self.phase = Phase::SelectClass;
                    self.payload = Vec::new();
                    ReadStep::Transfer(class_select(self.class))
                } else {
                    ReadStep::Finished(Err(Error::ChecksumMismatch))
                }
            },
        }
    }
}

} // verus!
