//! Writing a data-flash class, block by block. After each block's checksum
//! is written the device is given time to commit it, then the checksum is
//! read back.

use vstd::prelude::*;
use crate::bus::{Transaction, Tx, reply_view};
use crate::catalog::{CMD_A_DF, CMD_DFDCKS};
use crate::error::{BusFault, Error, TransportError, error_of, from_transport};
use crate::flash::{
    MAX_FLASH_LEN, Phase, block_checksum, block_frame, block_select, byte_sum,
    checksum_of, chunk_len, chunk_length, class_frame, class_select, window_read,
};
use crate::flash_read::{ReadModel, block_accepted, read_in_progress, read_next};

verus! {

/// The protocol step a block write is at.
#[derive(PartialEq, Eq, Structural, Clone, Copy, Debug)]
pub enum WritePhase {
    SelectClass,
    SelectBlock,
    Payload,
    Checksum,
    /// Waiting for the device to commit the block.
    Settle,
    Verify,
}

/// The view of a class write in progress.
pub struct WriteModel {
    pub class: u8,
    /// The bytes to write.
    pub src: Seq<u8>,
    /// Index of the block in transfer.
    pub block: nat,
    /// Retries spent on this block.
    pub attempt: nat,
    /// Retries allowed per block.
    pub max_retries: nat,
    pub phase: WritePhase,
}

/// The payload of block `block` of the bytes `src`.
pub open spec fn chunk_of(src: Seq<u8>, block: nat) -> Seq<u8> {
    src.subrange(32 * block as int, (32 * block + chunk_len(src.len(), block)) as int)
}

/// The view of what a class write does next.
pub enum WriteAction {
    Transfer(Tx),
    Settle,
    Finished(Result<(), Error>),
}

/// What a class write does next.
#[derive(PartialEq, Eq, Debug)]
pub enum WriteStep {
    /// Perform this transaction and hand its reply to `advance`.
    Transfer(Transaction),
    /// Wait the settle delay, then hand `advance` an empty reply, or a
    /// timeout if the device stayed busy past the bound.
    Settle,
    /// The write is over.
    Finished(Result<(), Error>),
}

impl View for WriteStep {
    type V = WriteAction;

    open spec fn view(&self) -> WriteAction {
        match self {
            WriteStep::Transfer(t) => WriteAction::Transfer(t@),
            WriteStep::Settle => WriteAction::Settle,
            WriteStep::Finished(r) => WriteAction::Finished(*r),
        }
    }
}

/// One step of a class write: the state and action that follow a reply.
pub open spec fn write_next(m: WriteModel, reply: Result<Seq<u8>, TransportError>) -> (WriteModel, WriteAction) {
    let chunk = chunk_of(m.src, m.block);
    match reply {
        Err(e) => (m, WriteAction::Finished(Err(error_of(e)))),
        Ok(b) => match m.phase {
            WritePhase::SelectClass => (
                WriteModel { phase: WritePhase::SelectBlock, ..m },
                WriteAction::Transfer(Tx::Write(block_frame(m.block))),
            ),
            WritePhase::SelectBlock => (
                WriteModel { phase: WritePhase::Payload, ..m },
                WriteAction::Transfer(Tx::Write(seq![CMD_A_DF] + chunk)),
            ),
            WritePhase::Payload => (
                WriteModel { phase: WritePhase::Checksum, ..m },
                WriteAction::Transfer(Tx::Write(seq![CMD_DFDCKS, checksum_of(chunk)])),
            ),
            WritePhase::Checksum => (WriteModel { phase: WritePhase::Settle, ..m }, WriteAction::Settle),
            WritePhase::Settle => (
                WriteModel { phase: WritePhase::Verify, ..m },
                WriteAction::Transfer(Tx::WriteRead(seq![CMD_DFDCKS], 1)),
            ),
            WritePhase::Verify => if b.len() != 1 {
                (m, WriteAction::Finished(Err(Error::Bus(BusFault::ShortTransfer))))
            } else if b[0] == checksum_of(chunk) {
                let n = WriteModel {
                    block: m.block + 1,
                    attempt: 0,
                    phase: WritePhase::SelectClass,
                    ..m
                };
                if 32 * n.block >= m.src.len() {
                    (n, WriteAction::Finished(Ok(())))
                } else {
                    (n, WriteAction::Transfer(Tx::Write(class_frame(m.class))))
                }
            } else if m.attempt < m.max_retries {
                (
                    WriteModel { attempt: m.attempt + 1, phase: WritePhase::SelectClass, ..m },
                    WriteAction::Transfer(Tx::Write(class_frame(m.class))),
                )
            } else {
                (m, WriteAction::Finished(Err(Error::ChecksumMismatch)))
            },
        },
    }
}

/// The checksum a write sends for a block is `0xFF` minus the block's byte
/// sum modulo 256, and a read that gets back the same bytes accepts that
/// checksum.
pub proof fn lemma_checksum_round_trip(w: WriteModel, r: ReadModel)
    requires
        write_in_progress(w),
        w.phase == WritePhase::Payload,
        read_in_progress(r),
        r.phase == Phase::Checksum,
        r.payload == chunk_of(w.src, w.block),
    ensures
        ({
            let c = checksum_of(chunk_of(w.src, w.block));
            &&& c as int == 255 - byte_sum(chunk_of(w.src, w.block)) % 256
            &&& write_next(w, Ok(Seq::empty())).1 == WriteAction::Transfer(
                Tx::Write(seq![CMD_DFDCKS, c]),
            )
            &&& read_next(r, Ok(seq![c])).0 == block_accepted(r)
        }),
{
    let c = seq![checksum_of(chunk_of(w.src, w.block))];
    assert(c[0] == checksum_of(chunk_of(w.src, w.block)));
}

/// A transport timeout at any step ends the write with `Timeout`, and any
/// other transport fault ends it with that fault.
pub proof fn lemma_write_timeout(m: WriteModel, f: BusFault)
    ensures
        write_next(m, Err(TransportError::Timeout)).1 == WriteAction::Finished(Err(Error::Timeout)),
        write_next(m, Err(TransportError::Other(f))).1 == WriteAction::Finished(
            Err(Error::Bus(f)),
        ),
{
}

/// A write in progress: the block in transfer holds at least one byte.
pub open spec fn write_in_progress(m: WriteModel) -> bool {
    &&& m.src.len() <= MAX_FLASH_LEN
    &&& 32 * m.block < m.src.len()
    &&& m.attempt <= m.max_retries
}

/// A write of one data-flash class from a buffer.
pub struct FlashWrite {
    pub class: u8,
    pub src: Vec<u8>,
    pub block: usize,
    pub attempt: u8,
    pub max_retries: u8,
    pub phase: WritePhase,
}

impl View for FlashWrite {
    type V = WriteModel;

    open spec fn view(&self) -> WriteModel {
        WriteModel {
            class: self.class,
            src: self.src@,
            block: self.block as nat,
            attempt: self.attempt as nat,
            max_retries: self.max_retries as nat,
            phase: self.phase,
        }
    }
}

/// The bytes `src[start..start + n]`.
fn copy_range(src: &Vec<u8>, start: usize, n: usize) -> (r: Vec<u8>)
    requires
        start + n <= src@.len(),
    ensures
        r@ == src@.subrange(start as int, start + n),
{
    let mut r: Vec<u8> = Vec::new();
    let mut i: usize = 0;
    let len: usize = src.len();
    while i < n
        invariant
            len == src@.len(),
            start + n <= src@.len(),
            i <= n,
            r@ == src@.subrange(start as int, start + i),
        decreases n - i,
    {
        let k: usize = start + i;
        r.push(src[k]);
        i = i + 1;
        assert(r@ =~= src@.subrange(start as int, start + i));
    }
    r
}

impl FlashWrite {
    /// Starts writing `src` to class `class` from block 0, trying each block
    /// again up to `max_retries` times after a failed read-back. The first
    /// step selects the class; an empty write is over at once, and one longer
    /// than `MAX_FLASH_LEN` fails at once.
    pub fn new(class: u8, src: Vec<u8>, max_retries: u8) -> (r: (FlashWrite, WriteStep))
        ensures
            r.0@ == (WriteModel {
                class,
                src: src@,
                block: 0,
                attempt: 0,
                max_retries: max_retries as nat,
                phase: WritePhase::SelectClass,
            }),
            src@.len() > MAX_FLASH_LEN ==> r.1@ == WriteAction::Finished(
                Err(Error::TransferTooLong),
            ),
            src@.len() == 0 ==> r.1@ == WriteAction::Finished(Ok(())),
            0 < src@.len() <= MAX_FLASH_LEN ==> r.1@ == WriteAction::Transfer(
                Tx::Write(class_frame(class)),
            ),
            0 < src@.len() <= MAX_FLASH_LEN ==> write_in_progress(r.0@),
    {
        let n = src.len();
        let s = FlashWrite {
            class,
            src,
            block: 0,
            attempt: 0,
            max_retries,
            phase: WritePhase::SelectClass,
        };
        if n > MAX_FLASH_LEN {
            (s, WriteStep::Finished(Err(Error::TransferTooLong)))
        } else if n == 0 {
            (s, WriteStep::Finished(Ok(())))
        } else {
            (s, WriteStep::Transfer(class_select(class)))
        }
    }

    /// Takes the reply to the last transaction and gives the next step.
    pub fn advance(&mut self, reply: Result<Vec<u8>, TransportError>) -> (r: WriteStep)
        requires
            write_in_progress(old(self)@),
        ensures
            (final(self)@, r@) == write_next(old(self)@, reply_view(reply)),
            !(r is Finished) ==> write_in_progress(final(self)@),
    {
        let b = match reply {
            Err(e) => {
                return WriteStep::Finished(Err(from_transport(e)));
            },
            Ok(b) => b,
        };
        let ghost chunk = chunk_of(self.src@, self.block as nat);
        match self.phase {
            WritePhase::SelectClass => {
                self.phase = WritePhase::SelectBlock;
                WriteStep::Transfer(block_select(self.block))
            },
            WritePhase::SelectBlock => {
                self.phase = WritePhase::Payload;
                let n = chunk_length(self.src.len(), self.block);
                let mut c = copy_range(&self.src, 32 * self.block, n);
                let mut f: Vec<u8> = vec![CMD_A_DF];
                f.append(&mut c);
                proof {
                    assert(f@ =~= seq![CMD_A_DF] + chunk);
                }
                WriteStep::Transfer(Transaction::Write(f))
            },
            WritePhase::Payload => {
                self.phase = WritePhase::Checksum;
                let n = chunk_length(self.src.len(), self.block);
                let c = copy_range(&self.src, 32 * self.block, n);
                let cks = block_checksum(c.as_slice());
                let f: Vec<u8> = vec![CMD_DFDCKS, cks];
                proof {
                    assert(f@ =~= seq![CMD_DFDCKS, checksum_of(chunk)]);
                }
                WriteStep::Transfer(Transaction::Write(f))
            },
            WritePhase::Checksum => {
                self.phase = WritePhase::Settle;
                WriteStep::Settle
            },
            WritePhase::Settle => {
                self.phase = WritePhase::Verify;
                WriteStep::Transfer(window_read(CMD_DFDCKS, 1))
            },
            WritePhase::Verify => {
                let n = chunk_length(self.src.len(), self.block);
                let c = copy_range(&self.src, 32 * self.block, n);
                if b.len() != 1 {
                    WriteStep::Finished(Err(Error::Bus(BusFault::ShortTransfer)))
                } else if b[0] == block_checksum(c.as_slice()) {
                    self.block = self.block + 1;
                    self.attempt = 0;
                    self.phase = WritePhase::SelectClass;
                    if 32 * self.block >= self.src.len() {
                        WriteStep::Finished(Ok(()))
                    } else {
                        WriteStep::Transfer(class_select(self.class))
                    }
                } else if self.attempt < self.max_retries {
                    self.attempt = self.attempt + 1;
                    self.phase = WritePhase::SelectClass;
                    WriteStep::Transfer(class_select(self.class))
                } else {
                    WriteStep::Finished(Err(Error::ChecksumMismatch))
                }
            },
        }
    }
}

} // verus!
