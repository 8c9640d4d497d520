use p2pchat::codec::{decode_frame, decode_frame_len, encode_frame, frame_header, ReadEventError};

#[test]
fn frame_header_is_big_endian_length() {
    assert_eq!(frame_header(0), vec![0, 0, 0, 0, 0, 0, 0, 0]);
    assert_eq!(frame_header(5), vec![0, 0, 0, 0, 0, 0, 0, 5]);
    assert_eq!(frame_header(0x0102_0304_0506_0708), vec![1, 2, 3, 4, 5, 6, 7, 8]);
    assert_eq!(frame_header(u64::MAX), vec![255; 8]);
}

#[test]
fn encode_frame_prefixes_header() {
    let frame = encode_frame(&[10, 20, 30]);
    assert_eq!(frame, vec![0, 0, 0, 0, 0, 0, 0, 3, 10, 20, 30]);
    assert_eq!(encode_frame(&[]), vec![0u8; 8]);
}

#[test]
fn decode_frame_len_reads_header() {
    assert_eq!(decode_frame_len(&[0, 0, 0, 0, 0, 0, 1, 0]), 256);
    assert_eq!(decode_frame_len(&[1, 2, 3, 4, 5, 6, 7, 8]), 0x0102_0304_0506_0708);
}

#[test]
fn frame_roundtrip_with_trailing_bytes() {
    let payload: Vec<u8> = (0u8..200).collect();
    let mut bytes = encode_frame(&payload);
    bytes.extend_from_slice(&[9, 9, 9]);
    let (decoded, used) = decode_frame(&bytes).unwrap();
    assert_eq!(decoded, payload);
    assert_eq!(used, 208);
}

#[test]
fn decode_frame_needs_whole_frame() {
    assert_eq!(decode_frame(&[0, 0, 0]), None);
    assert_eq!(decode_frame(&[0, 0, 0, 0, 0, 0, 0, 4, 1, 2, 3]), None);
    assert_eq!(decode_frame(&[0, 0, 0, 0, 0, 0, 0, 0]), Some((vec![], 8)));
}

#[test]
fn read_error_messages() {
    let e = ReadEventError::from_io_error(std::io::Error::new(std::io::ErrorKind::Other, "socket closed"));
    assert_eq!(e, ReadEventError::ReadError("socket closed".to_string()));
    assert_eq!(e.message(), "Error reading event: socket closed");
    let p = ReadEventError::PostCardSerializeError("bad tag".to_string());
    assert_eq!(p.message(), "Error while deserializing data: bad tag");
}
