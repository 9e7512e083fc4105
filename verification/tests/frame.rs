use proto_conformance::frame::{header, payload_len, read_frame, write_frame, FrameError};

#[test]
fn header_is_little_endian() {
    let payload = vec![0xabu8; 0x0102];
    let framed = write_frame(&payload).unwrap();
    assert_eq!(&framed[..4], &[0x02, 0x01, 0x00, 0x00]);
    assert_eq!(&framed[4..], &payload[..]);
    assert_eq!(framed.len(), 4 + payload.len());
}

#[test]
fn header_of_a_large_length() {
    let payload = vec![7u8; 1_000_000];
    let framed = write_frame(&payload).unwrap();
    assert_eq!(&framed[..4], &[0x40, 0x42, 0x0f, 0x00]);
}

#[test]
fn payload_len_reads_lowest_byte_first() {
    assert_eq!(payload_len(&[0x78, 0x56, 0x34, 0x12]), Some(0x1234_5678));
    assert_eq!(payload_len(&[0, 0, 0, 0]), Some(0));
    assert_eq!(payload_len(&[0xff, 0xff, 0xff, 0xff]), Some(u32::MAX));
    assert_eq!(payload_len(&[1, 0, 0, 0]), Some(1));
    assert_eq!(payload_len(&[0, 0, 0, 1]), Some(16_777_216));
}

#[test]
fn payload_len_wants_four_bytes() {
    assert_eq!(payload_len(&[]), None);
    assert_eq!(payload_len(&[1, 2, 3]), None);
    assert_eq!(payload_len(&[1, 2, 3, 4, 5]), None);
}

#[test]
fn frame_round_trip() {
    let payloads: Vec<Vec<u8>> = vec![
        vec![],
        vec![0],
        vec![1, 2, 3],
        (0..=255u8).collect(),
        vec![0xff; 70_000],
    ];
    for payload in payloads {
        let framed = write_frame(&payload).unwrap();
        let (back, used) = read_frame(&framed).unwrap();
        assert_eq!(back, payload);
        assert_eq!(used, framed.len());
    }
}

#[test]
fn frame_round_trip_leaves_the_rest() {
    let mut stream = write_frame(&[9, 8, 7]).unwrap();
    stream.extend_from_slice(&write_frame(&[6]).unwrap());
    stream.extend_from_slice(&[5, 5]);
    let (first, used) = read_frame(&stream).unwrap();
    assert_eq!(first, vec![9, 8, 7]);
    assert_eq!(used, 7);
    let (second, used_again) = read_frame(&stream[used..]).unwrap();
    assert_eq!(second, vec![6]);
    assert_eq!(used_again, 5);
    assert_eq!(read_frame(&stream[used + used_again..]), Err(FrameError::StreamClosed));
}

#[test]
fn empty_payload_is_a_bare_header() {
    assert_eq!(write_frame(&[]).unwrap(), vec![0, 0, 0, 0]);
    assert_eq!(read_frame(&[0, 0, 0, 0]), Ok((vec![], 4)));
}

#[test]
fn stream_closed_within_the_header() {
    assert_eq!(read_frame(&[]), Err(FrameError::StreamClosed));
    assert_eq!(read_frame(&[3]), Err(FrameError::StreamClosed));
    assert_eq!(read_frame(&[3, 0, 0]), Err(FrameError::StreamClosed));
}

#[test]
fn stream_truncated_within_the_payload() {
    assert_eq!(read_frame(&[3, 0, 0, 0]), Err(FrameError::Truncated));
    assert_eq!(read_frame(&[3, 0, 0, 0, 1, 2]), Err(FrameError::Truncated));
    assert_eq!(read_frame(&[3, 0, 0, 0, 1, 2, 3]), Ok((vec![1, 2, 3], 7)));
    assert_eq!(read_frame(&[0xff, 0xff, 0xff, 0xff, 1]), Err(FrameError::Truncated));
}

#[test]
fn header_spells_the_length() {
    assert_eq!(header(0), Ok(vec![0, 0, 0, 0]));
    assert_eq!(header(1), Ok(vec![1, 0, 0, 0]));
    assert_eq!(header(0x1234_5678), Ok(vec![0x78, 0x56, 0x34, 0x12]));
    assert_eq!(header(0xffff_ffff), Ok(vec![0xff, 0xff, 0xff, 0xff]));
}

#[test]
fn length_too_long_for_a_header_is_refused() {
    assert_eq!(header(0x1_0000_0000), Err(FrameError::TooLong));
    assert_eq!(header(usize::MAX), Err(FrameError::TooLong));
}

#[test]
fn header_and_payload_len_are_inverse() {
    for len in [0usize, 1, 255, 256, 65_535, 65_536, 16_777_215, 16_777_216, 0xffff_ffff] {
        assert_eq!(payload_len(&header(len).unwrap()), Some(len as u32));
    }
}
