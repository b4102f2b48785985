use hmf::error::RecordError;
use hmf::record::{decode_record_len, record_decode, record_encode, MAX_RECORD_LEN};
use std::io::Cursor;

#[test]
fn encoding_too_large_payload_fails() {
    let payload = vec![0u8; 2_000_000];
    match record_encode(&payload) {
        Err(RecordError::TooLarge { len, max }) => {
            assert_eq!(len, 2_000_000);
            assert_eq!(max, 1_048_576);
        },
        other => panic!("unexpected {:?}", other.map(|v| v.len())),
    }
}

#[test]
fn largest_payload_is_accepted() {
    let payload = vec![7u8; MAX_RECORD_LEN];
    let frame = record_encode(&payload).unwrap();
    assert_eq!(&frame[0..4], &[0, 0x10, 0, 0]);
    assert_eq!(frame.len(), MAX_RECORD_LEN + 4);
}

#[test]
fn one_byte_over_the_limit_is_refused() {
    let payload = vec![0u8; MAX_RECORD_LEN + 1];
    assert!(matches!(
        record_encode(&payload),
        Err(RecordError::TooLarge { len, max }) if len == MAX_RECORD_LEN + 1 && max == MAX_RECORD_LEN
    ));
}

#[test]
fn empty_payload_frames_to_zero_prefix() {
    let frame = record_encode(&[]).unwrap();
    assert_eq!(frame, vec![0, 0, 0, 0]);
    let mut cur = Cursor::new(frame);
    assert_eq!(record_decode(&mut cur, MAX_RECORD_LEN).unwrap(), Vec::<u8>::new());
}

#[test]
fn ten_bytes_round_trip() {
    let payload: Vec<u8> = (0u8..10).collect();
    let frame = record_encode(&payload).unwrap();
    assert_eq!(&frame[0..4], &[0, 0, 0, 10]);
    let mut cur = Cursor::new(frame);
    let back = record_decode(&mut cur, MAX_RECORD_LEN).unwrap();
    assert_eq!(back, payload);
}

#[test]
fn prefix_only_is_truncated() {
    let mut cur = Cursor::new(vec![0u8, 0, 0, 100]);
    match record_decode(&mut cur, MAX_RECORD_LEN) {
        Err(RecordError::Truncated { expected, got }) => {
            assert_eq!(expected, 100);
            assert_eq!(got, 0);
        },
        other => panic!("unexpected {:?}", other),
    }
}

#[test]
fn empty_stream_is_io_eof() {
    let mut cur = Cursor::new(Vec::<u8>::new());
    match record_decode(&mut cur, MAX_RECORD_LEN) {
        Err(RecordError::Io(e)) => assert_eq!(e.kind(), std::io::ErrorKind::UnexpectedEof),
        other => panic!("unexpected {:?}", other),
    }
}

#[test]
fn decode_rejects_length_over_max() {
    let mut cur = Cursor::new(vec![0u8, 0, 1, 0, 1, 2, 3]);
    match record_decode(&mut cur, 100) {
        Err(RecordError::TooLarge { len, max }) => {
            assert_eq!(len, 256);
            assert_eq!(max, 100);
        },
        other => panic!("unexpected {:?}", other),
    }
}

#[test]
fn prefix_is_big_endian() {
    assert_eq!(decode_record_len(&[1, 2, 3, 4], usize::MAX).unwrap(), 0x01020304);
    assert!(decode_record_len(&[0, 0, 0, 5], 4).is_err());
}

#[test]
fn short_prefix_is_io_eof() {
    let mut cur = Cursor::new(vec![0u8, 0]);
    match record_decode(&mut cur, MAX_RECORD_LEN) {
        Err(RecordError::Io(e)) => assert_eq!(e.kind(), std::io::ErrorKind::UnexpectedEof),
        other => panic!("unexpected {:?}", other),
    }
}
