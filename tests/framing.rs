use pidgeon::error::Error;
use pidgeon::wire::{decode_frame, decode_header, encode_frame, encode_header, payload_len, MAX_FRAME};

#[test]
fn header_is_big_endian() {
    assert_eq!(encode_header(0x0102_0304), vec![1, 2, 3, 4]);
    assert_eq!(encode_header(5), vec![0, 0, 0, 5]);
    assert_eq!(decode_header(&[0, 0, 1, 0]), 256);
    assert_eq!(decode_header(&[0xff, 0xff, 0xff, 0xff]), u32::MAX);
}

#[test]
fn frame_carries_length_then_payload() {
    let f = encode_frame(b"hello").unwrap();
    assert_eq!(f, vec![0, 0, 0, 5, b'h', b'e', b'l', b'l', b'o']);
}

#[test]
fn empty_payload_round_trips() {
    let f = encode_frame(&[]).unwrap();
    assert_eq!(f, vec![0, 0, 0, 0]);
    assert_eq!(decode_frame(&f), Ok(vec![]));
}

#[test]
fn payload_round_trips() {
    let payload: Vec<u8> = (0..1000u32).map(|i| (i % 251) as u8).collect();
    let f = encode_frame(&payload).unwrap();
    assert_eq!(f.len(), payload.len() + 4);
    assert_eq!(decode_frame(&f), Ok(payload));
}

#[test]
fn largest_accepted_payload_round_trips() {
    let payload = vec![7u8; MAX_FRAME - 1];
    let f = encode_frame(&payload).unwrap();
    assert_eq!(decode_frame(&f), Ok(payload));
}

#[test]
fn trailing_bytes_are_left_alone() {
    let mut f = encode_frame(b"ab").unwrap();
    f.extend_from_slice(&[9, 9, 9]);
    assert_eq!(decode_frame(&f), Ok(b"ab".to_vec()));
}

#[test]
fn oversized_header_is_refused() {
    assert_eq!(MAX_FRAME, 262144);
    assert_eq!(payload_len(&[0, 4, 0, 0]), Err(Error::Oversized(262144)));
    assert_eq!(payload_len(&[0, 3, 0xff, 0xff]), Ok(262143));
    assert_eq!(decode_frame(&[0, 4, 0, 0]), Err(Error::Oversized(262144)));
    assert_eq!(decode_frame(&[0xff, 0xff, 0xff, 0xff, 1]), Err(Error::Oversized(u32::MAX)));
}

#[test]
fn truncated_frame_reports_closed_connection() {
    assert_eq!(decode_frame(&[0, 0]), Err(Error::ConnectionClosed));
    assert_eq!(decode_frame(&[0, 0, 0, 3, 1, 2]), Err(Error::ConnectionClosed));
}
