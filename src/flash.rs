//! The data-flash block transfer: a class is read or written in 32-byte
//! blocks, each selected by class and block index and guarded by a
//! complemented 8-bit checksum.

use vstd::prelude::*;
use vstd::arithmetic::div_mod::lemma_add_mod_noop;
use crate::bus::{Transaction, Tx};
use crate::catalog::{CMD_DFBLK, CMD_DFCLS};

verus! {

/// Payload bytes of one data-flash block.
pub const BLOCK_SIZE: usize = 32;

/// The recommended retry limit: how many times a block is tried again after
/// a checksum mismatch.
pub const DEFAULT_RETRIES: u8 = 2;

/// The longest transfer: the block index is one byte on the wire.
pub const MAX_FLASH_LEN: usize = 8192;

/// The sum of the bytes, as a natural number.
pub open spec fn byte_sum(s: Seq<u8>) -> nat
    decreases s.len(),
{
    if s.len() == 0 {
        0
    } else {
        byte_sum(s.drop_last()) + s.last() as nat
    }
}

/// The checksum of a block's payload: `0xFF` minus the byte sum modulo 256.
pub open spec fn checksum_of(s: Seq<u8>) -> u8 {
    (255 - byte_sum(s) % 256) as u8
}

/// How many blocks a transfer of `len` bytes touches.
pub open spec fn block_count(len: nat) -> nat {
    (len + 31) / 32
}

/// How many payload bytes block `block` of a transfer of `len` bytes carries.
pub open spec fn chunk_len(len: nat, block: nat) -> nat {
    if len >= 32 * block + 32 {
        32
    } else if len >= 32 * block {
        (len - 32 * block) as nat
    } else {
        0
    }
}

/// A transfer of `len` bytes is cut into `ceil(len / 32)` blocks: every
/// block but the last carries 32 bytes, the last carries the rest, and no
/// block past them carries any.
pub proof fn lemma_chunks_cover(len: nat, block: nat)
    ensures
        block_count(len) * 32 >= len,
        len > 0 ==> (block_count(len) - 1) * 32 < len,
        block + 1 < block_count(len) ==> chunk_len(len, block) == 32,
        block + 1 == block_count(len) ==> chunk_len(len, block) == len - 32 * block,
        block + 1 == block_count(len) ==> 0 < chunk_len(len, block) <= 32,
        block >= block_count(len) ==> chunk_len(len, block) == 0,
{
}

/// The frame that selects a data-flash class.
pub open spec fn class_frame(class: u8) -> Seq<u8> {
    seq![CMD_DFCLS, class]
}

/// The frame that selects a block index.
pub open spec fn block_frame(block: nat) -> Seq<u8> {
    seq![CMD_DFBLK, block as u8]
}

/// The checksum of the bytes: `0xFF - (sum mod 256)`.
pub fn block_checksum(data: &[u8]) -> (r: u8)
    ensures
        r == checksum_of(data@),
        r as int == 255 - byte_sum(data@) % 256,
{
    let mut acc: u8 = 0;
    let mut i: usize = 0;
    while i < data.len()
        invariant
            i <= data@.len(),
            acc as nat == byte_sum(data@.take(i as int)) % 256,
        decreases data@.len() - i,
    {
        let d: u8 = data[i];
        proof {
            let t = data@.take(i as int + 1);
            assert(t.drop_last() =~= data@.take(i as int));
            assert(t.last() == d);
            lemma_add_mod_noop(byte_sum(data@.take(i as int)) as int, d as int, 256);
            assert(d as int % 256 == d as int);
        }
        acc = ((acc as u16 + d as u16) % 256) as u8;
        i = i + 1;
    }
    assert(data@.take(data@.len() as int) =~= data@);
    255 - acc
}

/// Whether `cks` is the checksum of the payload.
pub fn checksum_matches(payload: &[u8], cks: u8) -> (r: bool)
    ensures
        r == (cks == checksum_of(payload@)),
{
    block_checksum(payload) == cks
}

/// The payload length of block `block` of a transfer of `len` bytes.
pub fn chunk_length(len: usize, block: usize) -> (r: usize)
    requires
        32 * block <= len,
    ensures
        r as nat == chunk_len(len as nat, block as nat),
        r <= BLOCK_SIZE,
{
    let rest: usize = len - 32 * block;
    if rest > BLOCK_SIZE {
        BLOCK_SIZE
    } else {
        rest
    }
}

pub(crate) fn class_select(class: u8) -> (t: Transaction)
    ensures
        t@ == Tx::Write(class_frame(class)),
{
    let v: Vec<u8> = vec![CMD_DFCLS, class];
    proof {
        assert(v@ =~= class_frame(class));
    }
    Transaction::Write(v)
}

pub(crate) fn block_select(block: usize) -> (t: Transaction)
    requires
        block < 256,
    ensures
        t@ == Tx::Write(block_frame(block as nat)),
{
    let v: Vec<u8> = vec![CMD_DFBLK, block as u8];
    proof {
        assert(v@ =~= block_frame(block as nat));
    }
    Transaction::Write(v)
}

pub(crate) fn window_read(reg: u8, n: usize) -> (t: Transaction)
    ensures
        t@ == Tx::WriteRead(seq![reg], n as nat),
{
    let v: Vec<u8> = vec![reg];
    proof {
        assert(v@ =~= seq![reg]);
    }
    Transaction::WriteRead(v, n)
}

/// The protocol step a block transfer is at: the reply expected next is the
/// one to the transaction of this step.
#[derive(PartialEq, Eq, Structural, Clone, Copy, Debug)]
pub enum Phase {
    SelectClass,
    SelectBlock,
    Payload,
    Checksum,
}

} // verus!
