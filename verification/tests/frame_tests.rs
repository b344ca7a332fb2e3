use entunnel::error::TransportError;
use entunnel::frame::Decoded;
use entunnel::frame::MAX_FRAME_LEN;
use entunnel::frame::decode_frame;
use entunnel::frame::encode_frame;
use entunnel::frame::end_of_stream;

#[test]
fn encode_exact_bytes() {
    let frame = encode_frame(&[0xAA, 0xBB, 0xCC]).unwrap();
    assert_eq!(frame, vec![0, 0, 0, 3, 0xAA, 0xBB, 0xCC]);
}

#[test]
fn encode_empty_payload() {
    let frame = encode_frame(&[]).unwrap();
    assert_eq!(frame, vec![0, 0, 0, 0]);
}

#[test]
fn round_trip_small() {
    let payload = b"abc".to_vec();
    let frame = encode_frame(&payload).unwrap();
    match decode_frame(&frame) {
        Decoded::Frame { payload: got, consumed } => {
            assert_eq!(got, payload);
            assert_eq!(consumed, 7);
        }
        _ => panic!("expected a whole frame"),
    }
}

#[test]
fn ip_packet_round_trips_as_one_frame() {
    // A 1500-byte IP packet must arrive as a single frame whose payload is
    // byte-identical to the packet.
    let packet: Vec<u8> = (0..1500u32).map(|i| (i % 251) as u8).collect();
    let frame = encode_frame(&packet).unwrap();
    assert_eq!(frame.len(), 1504);
    match decode_frame(&frame) {
        Decoded::Frame { payload, consumed } => {
            assert_eq!(payload, packet);
            assert_eq!(consumed, 1504);
        }
        _ => panic!("expected a whole frame"),
    }
}

#[test]
fn encode_refuses_overlong_payload() {
    let payload = vec![0u8; MAX_FRAME_LEN + 1];
    match encode_frame(&payload) {
        Err(TransportError::FrameTooLong { len }) => assert_eq!(len, MAX_FRAME_LEN + 1),
        _ => panic!("expected FrameTooLong"),
    }
}

#[test]
fn decode_needs_whole_prefix() {
    assert!(matches!(decode_frame(&[]), Decoded::NeedMore));
    assert!(matches!(decode_frame(&[0, 0, 0]), Decoded::NeedMore));
}

#[test]
fn decode_needs_whole_payload() {
    // Prefix announces 4 bytes but only 2 arrived so far.
    assert!(matches!(decode_frame(&[0, 0, 0, 4, 1, 2]), Decoded::NeedMore));
}

#[test]
fn decode_refuses_overlong_frame() {
    // 0x00800001 == MAX_FRAME_LEN + 1.
    match decode_frame(&[0x00, 0x80, 0x00, 0x01]) {
        Decoded::TooLong { len } => assert_eq!(len, MAX_FRAME_LEN + 1),
        _ => panic!("expected TooLong"),
    }
}

#[test]
fn decode_consumes_only_its_frame() {
    let mut bytes = encode_frame(&[9, 8, 7]).unwrap();
    bytes.extend_from_slice(&[0, 0, 0, 1, 42]);
    match decode_frame(&bytes) {
        Decoded::Frame { payload, consumed } => {
            assert_eq!(payload, vec![9, 8, 7]);
            assert_eq!(consumed, 7);
        }
        _ => panic!("expected a whole frame"),
    }
    match decode_frame(&bytes[7..]) {
        Decoded::Frame { payload, consumed } => {
            assert_eq!(payload, vec![42]);
            assert_eq!(consumed, 5);
        }
        _ => panic!("expected the second frame"),
    }
}

#[test]
fn clean_close_between_frames_is_normal_end() {
    assert!(end_of_stream(0).is_ok());
}

#[test]
fn close_inside_a_frame_is_an_error() {
    match end_of_stream(3) {
        Err(TransportError::TruncatedFrame { buffered }) => assert_eq!(buffered, 3),
        _ => panic!("expected TruncatedFrame"),
    }
}

#[test]
fn stream_of_frames_decodes_in_order() {
    let packets: Vec<Vec<u8>> = vec![b"one".to_vec(), b"".to_vec(), vec![0xFF; 1000]];
    let mut stream: Vec<u8> = Vec::new();
    for p in &packets {
        stream.extend_from_slice(&encode_frame(p).unwrap());
    }
    let mut decoded: Vec<Vec<u8>> = Vec::new();
    let mut at = 0usize;
    while at < stream.len() {
        match decode_frame(&stream[at..]) {
            Decoded::Frame { payload, consumed } => {
                decoded.push(payload);
                at += consumed;
            }
            _ => panic!("stream holds whole frames only"),
        }
    }
    assert_eq!(decoded, packets);
}
