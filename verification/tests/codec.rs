use unicom::codec::{
    check_handshake_tag, classify_head_read, decode_frame, decode_header, encode_frame,
    encode_handshake, encode_header, frame_from_parts, kind_of_tag, tag_of_kind, write_chunk_end,
    BodyReader, Frame, FrameKind, CHUNK_LEN, HEADER_LEN,
};
use unicom::error::UnicomErrorKind;

fn payload_of_len(n: usize) -> Vec<u8> {
    let mut v = Vec::with_capacity(n);
    let mut i: usize = 0;
    while i < n {
        v.push((i % 251) as u8);
        i += 1;
    }
    v
}

fn round_trip(kind: FrameKind, id: u64, n: usize) {
    let payload = payload_of_len(n);
    let frame = Frame { kind, id, payload: payload.clone() };
    let bytes = encode_frame(&frame);
    assert_eq!(bytes.len(), HEADER_LEN + n);
    let back = decode_frame(&bytes).expect("decode failed");
    assert!(matches!(back.kind, k if k == kind));
    assert_eq!(back.id, id);
    assert_eq!(back.payload, payload);
}

#[test]
fn round_trip_payload_sizes() {
    for n in [0usize, 1, 1023, 1024, 1025, 1_000_000] {
        round_trip(FrameKind::Response, 7, n);
    }
}

#[test]
fn round_trip_kinds() {
    round_trip(FrameKind::Error, 1, 10);
    round_trip(FrameKind::Request, u64::MAX, 100);
    round_trip(FrameKind::Response, 0, 3);
    round_trip(FrameKind::Quit, 0, 0);
}

#[test]
fn header_layout_little_endian() {
    let h = encode_header(2, 0x0102030405060708, 0x0A0B0C0D);
    assert_eq!(h.len(), 13);
    assert_eq!(h[0], 2);
    assert_eq!(&h[1..9], &[0x08, 0x07, 0x06, 0x05, 0x04, 0x03, 0x02, 0x01]);
    assert_eq!(&h[9..13], &[0x0D, 0x0C, 0x0B, 0x0A]);
    let (tag, id, len) = decode_header(&h);
    assert_eq!(tag, 2);
    assert_eq!(id, 0x0102030405060708);
    assert_eq!(len, 0x0A0B0C0D);
}

#[test]
fn kind_tag_mapping() {
    assert_eq!(tag_of_kind(FrameKind::Error), 0);
    assert_eq!(tag_of_kind(FrameKind::Request), 1);
    assert_eq!(tag_of_kind(FrameKind::Response), 2);
    assert_eq!(tag_of_kind(FrameKind::Quit), 4);
    assert!(matches!(kind_of_tag(0), Some(FrameKind::Error)));
    assert!(matches!(kind_of_tag(1), Some(FrameKind::Request)));
    assert!(matches!(kind_of_tag(2), Some(FrameKind::Response)));
    assert!(matches!(kind_of_tag(4), Some(FrameKind::Quit)));
    assert!(kind_of_tag(3).is_none());
    assert!(kind_of_tag(0x42).is_none());
    assert!(kind_of_tag(0xFF).is_none());
}

#[test]
fn reserved_tag_fails_to_decode() {
    let e = frame_from_parts(3, 5, Vec::new()).expect_err("tag 3 is reserved");
    assert!(matches!(e.kind, UnicomErrorKind::DataInvalid));
    let e = frame_from_parts(0x42, 0, Vec::new()).expect_err("handshake tag in steady state");
    assert!(matches!(e.kind, UnicomErrorKind::DataInvalid));
    let e = frame_from_parts(9, 0, Vec::new()).expect_err("unknown tag");
    assert!(matches!(e.kind, UnicomErrorKind::DataInvalid));
}

#[test]
fn handshake_frame_layout() {
    let payload = b"{\"name\":\"n1\"}".to_vec();
    let bytes = encode_handshake(&payload);
    assert_eq!(bytes[0], 0x42);
    assert_eq!(&bytes[1..9], &[0u8; 8]);
    assert_eq!(bytes.len(), HEADER_LEN + payload.len());
    assert_eq!(&bytes[13..], &payload[..]);
}

#[test]
fn body_reader_chunking() {
    let mut r = BodyReader::new(1025);
    assert!(!r.complete());
    assert_eq!(r.request_len(), CHUNK_LEN);
    let chunk = payload_of_len(1024);
    let done = r.push_chunk(&chunk).expect("nonempty chunk");
    assert!(!done);
    assert_eq!(r.request_len(), 1);
    let done = r.push_chunk(&[9]).expect("last byte");
    assert!(done);
    assert!(r.complete());
    assert_eq!(r.data.len(), 1025);
    assert_eq!(r.data[1024], 9);
}

#[test]
fn body_reader_empty_read_is_lost_connection() {
    let mut r = BodyReader::new(4);
    let e = r.push_chunk(&[]).expect_err("zero-length read");
    assert!(matches!(e.kind, UnicomErrorKind::LostConnection));
    assert_eq!(r.data.len(), 0);
}

#[test]
fn short_header_reads_are_classified() {
    classify_head_read(13).expect("full header");
    let e = classify_head_read(0).expect_err("clean close");
    assert!(matches!(e.kind, UnicomErrorKind::LostConnection));
    let e = classify_head_read(7).expect_err("torn header");
    assert!(matches!(e.kind, UnicomErrorKind::DataInvalid));
}

#[test]
fn handshake_tag_is_checked() {
    check_handshake_tag(0x42).expect("handshake tag");
    let e = check_handshake_tag(1).expect_err("steady-state tag leads");
    assert!(matches!(e.kind, UnicomErrorKind::ParseError));
}

#[test]
fn write_chunking_bounds() {
    assert_eq!(write_chunk_end(3000, 0), 1024);
    assert_eq!(write_chunk_end(3000, 1024), 2048);
    assert_eq!(write_chunk_end(3000, 2048), 3000);
    assert_eq!(write_chunk_end(10, 0), 10);
}
