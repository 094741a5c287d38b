use iq_dump::protocol::{ResponseHeader, SessionError};
use iq_dump::transfer::{Transfer, TransferStatus, BUFFER_LEN};

#[test]
fn transfer_completes_with_announced_size() {
    let mut t = Transfer::start(&ResponseHeader { is_error: false, file_size: 100_000 }).unwrap();
    let mut received: u64 = 0;
    loop {
        let n = t.read_len(BUFFER_LEN);
        assert!(n <= BUFFER_LEN);
        let st = t.record(n);
        received += n as u64;
        if st != TransferStatus::InProgress {
            assert_eq!(st, TransferStatus::Complete);
            break;
        }
    }
    assert_eq!(received, 100_000);
    assert_eq!(t.remaining(), 0);
}

#[test]
fn first_read_is_capped_by_buffer() {
    let t = Transfer::new(100_000);
    assert_eq!(t.read_len(BUFFER_LEN), 65536);
    let t = Transfer::new(10);
    assert_eq!(t.read_len(BUFFER_LEN), 10);
}

#[test]
fn peer_closing_halfway_is_incomplete() {
    let mut t = Transfer::new(1000);
    assert_eq!(t.record(500), TransferStatus::InProgress);
    assert_eq!(t.remaining(), 500);
    assert_eq!(t.record(0), TransferStatus::Incomplete);
    assert_eq!(t.status(), TransferStatus::Incomplete);
}

#[test]
fn empty_file_is_complete_at_once() {
    let t = Transfer::new(0);
    assert_eq!(t.status(), TransferStatus::Complete);
}

#[test]
fn device_error_on_copy() {
    let r = Transfer::start(&ResponseHeader { is_error: true, file_size: 7 });
    assert!(matches!(r, Err(SessionError::Device)));
}
