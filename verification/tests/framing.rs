use cyrok::connection::{decode_frame_len, encode_frame, FRAME_HEADER_LEN};

#[test]
fn frame_is_length_then_body() {
    let f = encode_frame(b"abc");
    assert_eq!(f, vec![3, 0, 0, 0, 0, 0, 0, 0, b'a', b'b', b'c']);
}

#[test]
fn empty_frame() {
    assert_eq!(encode_frame(b""), vec![0u8; 8]);
}

#[test]
fn long_body_length_little_endian() {
    let body = vec![7u8; 300];
    let f = encode_frame(&body);
    assert_eq!(&f[..8], &[44, 1, 0, 0, 0, 0, 0, 0]);
    assert_eq!(&f[8..], &body[..]);
}

#[test]
fn header_round_trip() {
    for n in [0usize, 1, 255, 256, 65535, 70000] {
        let body = vec![0u8; n];
        let f = encode_frame(&body);
        assert_eq!(decode_frame_len(&f[..FRAME_HEADER_LEN]), n as u64);
    }
}

#[test]
fn decode_large_header() {
    assert_eq!(decode_frame_len(&[0xff; 8]), u64::MAX);
    assert_eq!(decode_frame_len(&[0, 0, 0, 0, 0, 0, 0, 1]), 1u64 << 56);
}
