use rust_am_clients::framing::{decode_frame, encode_frame, encode_message, frame_size, strip_frame_header};

#[test]
fn frame_starts_with_big_endian_length() {
    let f = encode_frame(b"abc");
    assert_eq!(f, vec![0, 0, 0, 3, b'a', b'b', b'c']);
}

#[test]
fn frame_of_empty_payload() {
    assert_eq!(encode_frame(b""), vec![0, 0, 0, 0]);
    assert_eq!(decode_frame(&[0, 0, 0, 0]), Some(vec![]));
}

#[test]
fn frame_size_reads_big_endian() {
    assert_eq!(frame_size(&[0x01, 0x02, 0x03, 0x04]), 0x0102_0304);
    assert_eq!(frame_size(&[0xff, 0xff, 0xff, 0xff, 9]), u32::MAX);
}

#[test]
fn long_payload_length_bytes() {
    let payload = vec![7u8; 300];
    let f = encode_frame(&payload);
    assert_eq!(&f[..4], &[0, 0, 1, 44]);
    assert_eq!(f.len(), 304);
}

#[test]
fn frame_roundtrip() {
    let msg = "{\"TYPE\":\"REQUEST\",\"ACTION\":\"RUN\"} é";
    let f = encode_message(msg);
    assert_eq!(decode_frame(&f), Some(msg.as_bytes().to_vec()));
    assert_eq!(strip_frame_header(&f), Some(msg.as_bytes().to_vec()));
}

#[test]
fn decode_needs_whole_frame() {
    assert_eq!(decode_frame(&[0, 0, 0]), None);
    assert_eq!(decode_frame(&[0, 0, 0, 5, 1, 2]), None);
    assert_eq!(decode_frame(&[0, 0, 0, 2, 1, 2, 3]), Some(vec![1, 2]));
}

#[test]
fn strip_needs_header() {
    assert_eq!(strip_frame_header(&[1, 2]), None);
    assert_eq!(strip_frame_header(&[9, 9, 9, 9, 4, 5]), Some(vec![4, 5]));
}

#[test]
fn decode_ignores_bytes_after_the_frame() {
    let mut f = encode_frame(b"xy");
    f.extend_from_slice(&[1, 2, 3]);
    assert_eq!(decode_frame(&f), Some(b"xy".to_vec()));
}
