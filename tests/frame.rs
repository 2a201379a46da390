use stund::frame::{decode_frame, encode_frame, Decoded, FrameError, MAX_FRAME_LENGTH};

#[test]
fn encode_prefixes_big_endian_length() {
    let out = encode_frame(&b"abc".to_vec()).unwrap();
    assert_eq!(out, vec![0, 0, 0, 3, b'a', b'b', b'c']);
    let big = vec![7u8; 0x1234];
    let out = encode_frame(&big).unwrap();
    assert_eq!(&out[..4], &[0, 0, 0x12, 0x34]);
    assert_eq!(out.len(), 4 + 0x1234);
}

#[test]
fn encode_empty_payload() {
    assert_eq!(encode_frame(&Vec::new()).unwrap(), vec![0, 0, 0, 0]);
}

#[test]
fn encode_rejects_oversized_payload() {
    let too_big = vec![0u8; MAX_FRAME_LENGTH + 1];
    assert!(matches!(encode_frame(&too_big), Err(FrameError::FrameTooLong)));
    let largest = vec![0u8; MAX_FRAME_LENGTH];
    assert_eq!(encode_frame(&largest).unwrap().len(), MAX_FRAME_LENGTH + 4);
}

#[test]
fn decode_round_trip_keeps_order() {
    let mut buf = encode_frame(&b"first".to_vec()).unwrap();
    buf.extend(encode_frame(&b"second".to_vec()).unwrap());
    match decode_frame(&buf) {
        Ok(Decoded::Frame { payload, consumed }) => {
            assert_eq!(payload, b"first".to_vec());
            assert_eq!(consumed, 9);
            let rest = buf[consumed..].to_vec();
            match decode_frame(&rest) {
                Ok(Decoded::Frame { payload, consumed }) => {
                    assert_eq!(payload, b"second".to_vec());
                    assert_eq!(consumed, rest.len());
                }
                _ => panic!("second frame missing"),
            }
        }
        _ => panic!("first frame missing"),
    }
}

#[test]
fn decode_partial_frame_is_incomplete() {
    let buf = encode_frame(&b"hello".to_vec()).unwrap();
    for k in 0..buf.len() {
        assert!(matches!(decode_frame(&buf[..k].to_vec()), Ok(Decoded::Incomplete)), "length {}", k);
    }
}

#[test]
fn decode_rejects_oversized_header() {
    let buf = vec![0x00, 0x80, 0x00, 0x01, 1, 2, 3];
    assert!(matches!(decode_frame(&buf), Err(FrameError::FrameTooLong)));
}
