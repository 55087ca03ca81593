use akkupack_ng::bus::Transaction;
use akkupack_ng::error::{BusFault, Error, TransportError};
use akkupack_ng::flash::{block_checksum, checksum_matches, chunk_length, DEFAULT_RETRIES, MAX_FLASH_LEN};
use akkupack_ng::flash_read::{FlashRead, ReadStep};
use akkupack_ng::flash_write::{FlashWrite, WriteStep};

fn write(bytes: Vec<u8>) -> ReadStep {
    ReadStep::Transfer(Transaction::Write(bytes))
}

fn write_read(bytes: Vec<u8>, n: usize) -> ReadStep {
    ReadStep::Transfer(Transaction::WriteRead(bytes, n))
}

fn ok() -> Result<Vec<u8>, TransportError> {
    Ok(vec![])
}

#[test]
fn checksum_is_complement_of_byte_sum() {
    assert_eq!(block_checksum(&[1, 2, 3]), 0xf9);
    assert_eq!(block_checksum(&[]), 0xff);
    assert_eq!(block_checksum(&[0xff, 0x02]), 0xfe);
    assert_eq!(block_checksum(&[0xff]), 0x00);
    assert!(checksum_matches(&[1, 2, 3], 0xf9));
    assert!(!checksum_matches(&[1, 2, 3], 0xfa));
}

#[test]
fn chunk_lengths_of_fifty_bytes() {
    assert_eq!(chunk_length(50, 0), 32);
    assert_eq!(chunk_length(50, 1), 18);
    assert_eq!(chunk_length(64, 1), 32);
    assert_eq!(chunk_length(7, 0), 7);
}

#[test]
fn read_of_fifty_bytes_takes_two_blocks() {
    let all: Vec<u8> = (0u8..50).collect();
    let (mut r, first) = FlashRead::new(0x52, 50, DEFAULT_RETRIES);
    assert_eq!(first, write(vec![0x3e, 0x52]));
    assert_eq!(r.advance(ok()), write(vec![0x3f, 0]));
    assert_eq!(r.advance(ok()), write_read(vec![0x40], 32));
    assert_eq!(r.advance(Ok(all[..32].to_vec())), write_read(vec![0x60], 1));
    assert_eq!(r.advance(Ok(vec![0x0f])), write(vec![0x3e, 0x52]));
    assert_eq!(r.advance(ok()), write(vec![0x3f, 1]));
    assert_eq!(r.advance(ok()), write_read(vec![0x40], 18));
    assert_eq!(r.advance(Ok(all[32..].to_vec())), write_read(vec![0x60], 1));
    assert_eq!(block_checksum(&all[32..]), 38);
    assert_eq!(r.advance(Ok(vec![38])), ReadStep::Finished(Ok(())));
    assert_eq!(r.data(), &all);
}

#[test]
fn read_rejects_a_full_block_for_a_short_tail() {
    let (mut r, _) = FlashRead::new(0x52, 50, DEFAULT_RETRIES);
    r.advance(ok());
    r.advance(ok());
    r.advance(Ok(vec![0; 32]));
    r.advance(Ok(vec![0xff]));
    r.advance(ok());
    assert_eq!(r.advance(ok()), write_read(vec![0x40], 18));
    assert_eq!(
        r.advance(Ok(vec![0; 32])),
        ReadStep::Finished(Err(Error::Bus(BusFault::ShortTransfer)))
    );
}

#[test]
fn empty_read_is_over_at_once() {
    let (r, first) = FlashRead::new(0x40, 0, DEFAULT_RETRIES);
    assert_eq!(first, ReadStep::Finished(Ok(())));
    assert!(r.data().is_empty());
}

#[test]
fn checksum_mismatch_then_good_retry_succeeds() {
    let (mut r, _) = FlashRead::new(0x52, 4, DEFAULT_RETRIES);
    r.advance(ok());
    r.advance(ok());
    r.advance(Ok(vec![1, 2, 3, 4]));
    assert_eq!(r.advance(Ok(vec![0])), write(vec![0x3e, 0x52]));
    assert_eq!(r.advance(ok()), write(vec![0x3f, 0]));
    assert_eq!(r.advance(ok()), write_read(vec![0x40], 4));
    assert_eq!(r.advance(Ok(vec![1, 2, 3, 4])), write_read(vec![0x60], 1));
    assert_eq!(r.advance(Ok(vec![245])), ReadStep::Finished(Ok(())));
    assert_eq!(r.data(), &vec![1, 2, 3, 4]);
}

#[test]
fn retry_keeps_completed_blocks() {
    let block0: Vec<u8> = vec![1; 32];
    let (mut r, _) = FlashRead::new(0x52, 40, DEFAULT_RETRIES);
    r.advance(ok());
    r.advance(ok());
    r.advance(Ok(block0.clone()));
    assert_eq!(r.advance(Ok(vec![block_checksum(&block0)])), write(vec![0x3e, 0x52]));
    r.advance(ok());
    r.advance(ok());
    r.advance(Ok(vec![2; 8]));
    assert_eq!(r.advance(Ok(vec![0])), write(vec![0x3e, 0x52]));
    assert_eq!(r.advance(ok()), write(vec![0x3f, 1]));
    assert_eq!(r.advance(ok()), write_read(vec![0x40], 8));
    r.advance(Ok(vec![2; 8]));
    assert_eq!(r.advance(Ok(vec![block_checksum(&[2; 8])])), ReadStep::Finished(Ok(())));
    let mut expected = block0.clone();
    expected.extend_from_slice(&[2; 8]);
    assert_eq!(r.data(), &expected);
}

#[test]
fn checksum_mismatch_past_retry_limit_fails() {
    let (mut r, _) = FlashRead::new(0x52, 4, DEFAULT_RETRIES);
    for attempt in 0..3 {
        r.advance(ok());
        r.advance(ok());
        r.advance(Ok(vec![1, 2, 3, 4]));
        let step = r.advance(Ok(vec![0]));
        if attempt < 2 {
            assert_eq!(step, write(vec![0x3e, 0x52]));
        } else {
            assert_eq!(step, ReadStep::Finished(Err(Error::ChecksumMismatch)));
        }
    }
}

#[test]
fn read_timeout_surfaces_as_timeout() {
    let (mut r, _) = FlashRead::new(0x52, 4, DEFAULT_RETRIES);
    r.advance(ok());
    assert_eq!(r.advance(Err(TransportError::Timeout)), ReadStep::Finished(Err(Error::Timeout)));
    let (mut r2, _) = FlashRead::new(0x52, 4, DEFAULT_RETRIES);
    assert_eq!(
        r2.advance(Err(TransportError::Other(BusFault::Bus))),
        ReadStep::Finished(Err(Error::Bus(BusFault::Bus)))
    );
}

#[test]
fn write_of_one_short_block() {
    let (mut w, first) = FlashWrite::new(0x52, vec![1, 2, 3, 4], DEFAULT_RETRIES);
    assert_eq!(first, WriteStep::Transfer(Transaction::Write(vec![0x3e, 0x52])));
    assert_eq!(w.advance(ok()), WriteStep::Transfer(Transaction::Write(vec![0x3f, 0])));
    assert_eq!(w.advance(ok()), WriteStep::Transfer(Transaction::Write(vec![0x40, 1, 2, 3, 4])));
    assert_eq!(w.advance(ok()), WriteStep::Transfer(Transaction::Write(vec![0x60, 245])));
    assert_eq!(w.advance(ok()), WriteStep::Settle);
    assert_eq!(w.advance(ok()), WriteStep::Transfer(Transaction::WriteRead(vec![0x60], 1)));
    assert_eq!(w.advance(Ok(vec![245])), WriteStep::Finished(Ok(())));
}

#[test]
fn write_of_fifty_bytes_takes_two_blocks() {
    let all: Vec<u8> = (0u8..50).collect();
    let (mut w, _) = FlashWrite::new(0x52, all.clone(), DEFAULT_RETRIES);
    w.advance(ok());
    let mut frame0 = vec![0x40];
    frame0.extend_from_slice(&all[..32]);
    assert_eq!(w.advance(ok()), WriteStep::Transfer(Transaction::Write(frame0)));
    assert_eq!(w.advance(ok()), WriteStep::Transfer(Transaction::Write(vec![0x60, 0x0f])));
    assert_eq!(w.advance(ok()), WriteStep::Settle);
    w.advance(ok());
    assert_eq!(w.advance(Ok(vec![0x0f])), WriteStep::Transfer(Transaction::Write(vec![0x3e, 0x52])));
    assert_eq!(w.advance(ok()), WriteStep::Transfer(Transaction::Write(vec![0x3f, 1])));
    let mut frame1 = vec![0x40];
    frame1.extend_from_slice(&all[32..]);
    assert_eq!(w.advance(ok()), WriteStep::Transfer(Transaction::Write(frame1)));
    assert_eq!(w.advance(ok()), WriteStep::Transfer(Transaction::Write(vec![0x60, 38])));
    assert_eq!(w.advance(ok()), WriteStep::Settle);
    w.advance(ok());
    assert_eq!(w.advance(Ok(vec![38])), WriteStep::Finished(Ok(())));
}

#[test]
fn written_checksum_validates_on_read_back() {
    let block: Vec<u8> = vec![0x90, 0x80, 0x7f, 0x01, 0x33];
    let (mut w, _) = FlashWrite::new(0x30, block.clone(), DEFAULT_RETRIES);
    w.advance(ok());
    w.advance(ok());
    let cks = match w.advance(ok()) {
        WriteStep::Transfer(Transaction::Write(f)) => f[1],
        other => panic!("unexpected step {:?}", other),
    };
    let (mut r, _) = FlashRead::new(0x30, block.len(), DEFAULT_RETRIES);
    r.advance(ok());
    r.advance(ok());
    r.advance(Ok(block.clone()));
    assert_eq!(r.advance(Ok(vec![cks])), ReadStep::Finished(Ok(())));
}

#[test]
fn write_verify_mismatch_retries_then_fails() {
    let (mut w, _) = FlashWrite::new(0x52, vec![9], DEFAULT_RETRIES);
    for attempt in 0..3 {
        w.advance(ok());
        w.advance(ok());
        w.advance(ok());
        w.advance(ok());
        w.advance(ok());
        let step = w.advance(Ok(vec![0]));
        if attempt < 2 {
            assert_eq!(step, WriteStep::Transfer(Transaction::Write(vec![0x3e, 0x52])));
        } else {
            assert_eq!(step, WriteStep::Finished(Err(Error::ChecksumMismatch)));
        }
    }
}

#[test]
fn overlong_transfers_fail_at_once() {
    let (_, first) = FlashRead::new(0x52, MAX_FLASH_LEN + 1, DEFAULT_RETRIES);
    assert_eq!(first, ReadStep::Finished(Err(Error::TransferTooLong)));
    let (_, first) = FlashWrite::new(0x52, vec![0; MAX_FLASH_LEN + 1], DEFAULT_RETRIES);
    assert_eq!(first, WriteStep::Finished(Err(Error::TransferTooLong)));
    let (_, first) = FlashRead::new(0x52, MAX_FLASH_LEN, DEFAULT_RETRIES);
    assert_eq!(first, write(vec![0x3e, 0x52]));
}

#[test]
fn retry_limit_is_configurable() {
    let (mut r, _) = FlashRead::new(0x52, 4, 0);
    r.advance(ok());
    r.advance(ok());
    r.advance(Ok(vec![1, 2, 3, 4]));
    assert_eq!(r.advance(Ok(vec![0])), ReadStep::Finished(Err(Error::ChecksumMismatch)));
    let (mut r, _) = FlashRead::new(0x52, 4, 5);
    for _ in 0..5 {
        r.advance(ok());
        r.advance(ok());
        r.advance(Ok(vec![1, 2, 3, 4]));
        assert_eq!(r.advance(Ok(vec![0])), write(vec![0x3e, 0x52]));
    }
    r.advance(ok());
    r.advance(ok());
    r.advance(Ok(vec![1, 2, 3, 4]));
    assert_eq!(r.advance(Ok(vec![0])), ReadStep::Finished(Err(Error::ChecksumMismatch)));
}

#[test]
fn write_settle_timeout_surfaces_as_timeout() {
    let (mut w, _) = FlashWrite::new(0x52, vec![9], DEFAULT_RETRIES);
    w.advance(ok());
    w.advance(ok());
    w.advance(ok());
    assert_eq!(w.advance(ok()), WriteStep::Settle);
    assert_eq!(w.advance(Err(TransportError::Timeout)), WriteStep::Finished(Err(Error::Timeout)));
}
