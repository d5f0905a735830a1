use mavlink::Message;
use plane_system::pixhawk::frame::{
    decode_v2_frame, encode_v2_frame, find_frame, first_index_of, read_v2_message, FrameSearch,
    MavFrameHeader, MavSequence, MavVersion, MavlinkReceiver, RecvStep, V2Decoded, V2Read,
};
use plane_system::pixhawk::params::{
    command_succeeded, param_id_from_str, param_id_matches, CommandResult,
};

fn heartbeat() -> mavlink::ardupilotmega::MavMessage {
    let mut data = mavlink::common::HEARTBEAT_DATA::default();
    data.custom_mode = 0x01020304;
    data.mavlink_version = 3;
    mavlink::ardupilotmega::MavMessage::common(mavlink::common::MavMessage::HEARTBEAT(data))
}

fn mavlink_v2_bytes(header: MavFrameHeader, msg: &mavlink::ardupilotmega::MavMessage) -> Vec<u8> {
    let mut out = Vec::new();
    mavlink::write_v2_msg(
        &mut out,
        mavlink::MavHeader {
            sequence: header.sequence,
            system_id: header.system_id,
            component_id: header.component_id,
        },
        msg,
    )
    .unwrap();
    out
}

#[test]
fn encoded_frame_matches_mavlink_writer() {
    let header = MavFrameHeader { sequence: 7, system_id: 1, component_id: 1 };
    let msg = heartbeat();
    let ours = encode_v2_frame(header, msg.message_id(), &msg.ser());
    assert_eq!(ours, mavlink_v2_bytes(header, &msg));
    // the checksum bytes are not the payload or the header handed back
    assert_eq!(ours[0], 0xFD);
    assert_eq!(ours.len(), msg.ser().len() + 12);
}

#[test]
fn encoded_frame_layout() {
    let header = MavFrameHeader { sequence: 0x11, system_id: 0x22, component_id: 0x33 };
    let frame = encode_v2_frame(header, 0x00ABCDEF, &[9, 8, 7]);
    assert_eq!(&frame[..13], &[0xFD, 3, 0, 0, 0x11, 0x22, 0x33, 0xEF, 0xCD, 0xAB, 9, 8, 7]);
    assert_eq!(frame.len(), 15);
}

#[test]
fn decoding_a_full_payload_frame_round_trips() {
    let header = MavFrameHeader { sequence: 200, system_id: 3, component_id: 4 };
    let payload: Vec<u8> = (0..255u32).map(|i| (i * 7 % 256) as u8).collect();
    let mut bytes = vec![0x00, 0x42];
    bytes.extend(encode_v2_frame(header, 0, &payload));
    bytes.extend([0xFD, 1]);
    match decode_v2_frame(&bytes) {
        V2Decoded::Frame { header: h, msgid, payload: p, consumed } => {
            assert_eq!(h, header);
            assert_eq!(msgid, 0);
            assert_eq!(p, payload);
            assert_eq!(consumed, 2 + 255 + 12);
        }
        _ => panic!("expected a frame"),
    }
}

#[test]
fn decoding_a_short_payload_frame_written_by_mavlink() {
    let header = MavFrameHeader { sequence: 1, system_id: 2, component_id: 3 };
    let msg = heartbeat();
    let bytes = mavlink_v2_bytes(header, &msg);
    let mut padded = msg.ser();
    padded.resize(255, 0);
    match decode_v2_frame(&bytes) {
        V2Decoded::Frame { header: h, msgid, payload, consumed } => {
            assert_eq!(h, header);
            assert_eq!(msgid, msg.message_id());
            assert_eq!(payload, padded);
            assert_eq!(consumed, bytes.len());
        }
        _ => panic!("expected a frame"),
    }
    match read_v2_message(&bytes) {
        V2Read::Message { header: h, message, consumed } => {
            assert_eq!(h, header);
            assert_eq!(message, msg);
            assert_eq!(consumed, bytes.len());
        }
        _ => panic!("expected a message"),
    }
}

#[test]
fn decoding_round_trips_every_payload_length() {
    let header = MavFrameHeader { sequence: 77, system_id: 8, component_id: 9 };
    for len in [0usize, 1, 9, 100, 254, 255] {
        let payload: Vec<u8> = (0..len).map(|i| (i * 31 % 251) as u8 + 1).collect();
        let mut bytes = encode_v2_frame(header, 0x012345, &payload);
        bytes.extend([0xFD, 0, 0]);
        match decode_v2_frame(&bytes) {
            V2Decoded::Frame { header: h, msgid, payload: p, consumed } => {
                assert_eq!(h, header);
                assert_eq!(msgid, 0x012345);
                assert_eq!(&p[..len], &payload[..]);
                assert!(p[len..].iter().all(|&b| b == 0));
                assert_eq!(p.len(), 255);
                assert_eq!(consumed, len + 12);
            }
            _ => panic!("expected a frame of length {len}"),
        }
    }
}

#[test]
fn decoding_a_corrupted_checksum() {
    let header = MavFrameHeader { sequence: 1, system_id: 1, component_id: 1 };
    let msg = heartbeat();
    let mut bytes = mavlink_v2_bytes(header, &msg);
    let last = bytes.len() - 1;
    bytes[last] ^= 0x01;
    match decode_v2_frame(&bytes) {
        V2Decoded::BadChecksum { consumed } => assert_eq!(consumed, bytes.len()),
        _ => panic!("expected a checksum mismatch"),
    }
    match read_v2_message(&bytes) {
        V2Read::BadChecksum { consumed } => assert_eq!(consumed, bytes.len()),
        _ => panic!("expected a checksum mismatch"),
    }
}

#[test]
fn decoding_needs_whole_frames() {
    assert!(matches!(decode_v2_frame(&[1, 2, 3]), V2Decoded::NeedMore));
    assert!(matches!(decode_v2_frame(&[0xFD, 5, 0, 0]), V2Decoded::NeedMore));
    let header = MavFrameHeader { sequence: 1, system_id: 1, component_id: 1 };
    let frame = encode_v2_frame(header, 0, &[0u8; 255]);
    assert!(matches!(decode_v2_frame(&frame[..frame.len() - 1]), V2Decoded::NeedMore));
    // a signed frame needs its 13 signature bytes as well
    let mut signed = frame.clone();
    signed[2] = 1;
    assert!(matches!(decode_v2_frame(&signed), V2Decoded::NeedMore));
}

#[test]
fn reading_a_full_payload_message() {
    let header = MavFrameHeader { sequence: 5, system_id: 1, component_id: 1 };
    let msg = heartbeat();
    let mut payload = msg.ser();
    payload.resize(255, 0);
    let frame = encode_v2_frame(header, msg.message_id(), &payload);
    match read_v2_message(&frame) {
        V2Read::Message { header: h, message, consumed } => {
            assert_eq!(h, header);
            assert_eq!(message, msg);
            assert_eq!(consumed, frame.len());
        }
        _ => panic!("expected a message"),
    }
}

#[test]
fn find_frame_locates_frames() {
    assert_eq!(find_frame(&[], MavVersion::V2), FrameSearch::NeedMore);
    assert_eq!(find_frame(&[1, 2, 0xFD, 0], MavVersion::V2), FrameSearch::NeedMore);
    let header = MavFrameHeader { sequence: 1, system_id: 1, component_id: 1 };
    let mut bytes = vec![9, 9];
    bytes.extend(encode_v2_frame(header, 0, &[1, 2, 3]));
    bytes.push(0);
    assert_eq!(find_frame(&bytes, MavVersion::V2), FrameSearch::Frame { start: 2, end: 17 });
    // a v1 frame has 8 bytes besides its payload
    assert_eq!(
        find_frame(&[0xFE, 2, 0, 0, 0, 0, 1, 2, 0, 0], MavVersion::V1),
        FrameSearch::Frame { start: 0, end: 10 }
    );
    assert_eq!(first_index_of(&[1, 2, 3, 2], 2), Some(1));
    assert_eq!(first_index_of(&[1, 2, 3], 4), None);
}

#[test]
fn receiver_takes_messages_out_of_the_stream() {
    let header = MavFrameHeader { sequence: 9, system_id: 1, component_id: 1 };
    let msg = heartbeat();
    let bytes = mavlink_v2_bytes(header, &msg);
    let mut rx = MavlinkReceiver::new(MavVersion::V2);
    rx.feed(&bytes[..5]);
    assert!(matches!(rx.next_message(), RecvStep::NeedMore));
    rx.feed(&bytes[5..]);
    rx.feed(&bytes);
    match rx.next_message() {
        RecvStep::Message { header: h, message } => {
            assert_eq!(h, header);
            assert_eq!(message, msg);
        }
        _ => panic!("expected a message"),
    }
    match rx.next_message() {
        RecvStep::Message { message, .. } => assert_eq!(message, msg),
        _ => panic!("expected a second message"),
    }
    assert!(matches!(rx.next_message(), RecvStep::NeedMore));
}

#[test]
fn receiver_skips_corrupted_frames() {
    let header = MavFrameHeader { sequence: 9, system_id: 1, component_id: 1 };
    let msg = heartbeat();
    let mut bad = mavlink_v2_bytes(header, &msg);
    let last = bad.len() - 1;
    bad[last] ^= 0xFF;
    let good = mavlink_v2_bytes(header, &msg);
    let mut rx = MavlinkReceiver::new(MavVersion::V2);
    rx.feed(&bad);
    rx.feed(&good);
    assert!(matches!(rx.next_message(), RecvStep::SkippedBadFrame));
    loop {
        match rx.next_message() {
            RecvStep::SkippedBadFrame => continue,
            RecvStep::Message { message, .. } => {
                assert_eq!(message, msg);
                break;
            }
            _ => panic!("expected the good message"),
        }
    }
}

#[test]
fn sequence_numbers_wrap() {
    let mut seq = MavSequence::new();
    for expected in 0..=255u8 {
        assert_eq!(seq.take(), expected);
    }
    assert_eq!(seq.take(), 0);
}

#[test]
fn param_ids_are_padded_with_nul() {
    let id = param_id_from_str("CAM_DURATION");
    let mut expected = ['\0'; 16];
    for (i, c) in "CAM_DURATION".chars().enumerate() {
        expected[i] = c;
    }
    assert_eq!(id, expected);
    assert_eq!(param_id_from_str("")[0], '\0');
    let full = param_id_from_str("ABCDEFGHIJKLMNOP");
    assert_eq!(full[15], 'P');
    // characters go to their UTF-8 byte positions
    let wide = param_id_from_str("éa");
    assert_eq!(wide[0], 'é');
    assert_eq!(wide[1], '\0');
    assert_eq!(wide[2], 'a');
    assert!(param_id_matches(&id, &expected));
    assert!(!param_id_matches(&id, &full));
}

#[test]
fn command_results() {
    assert!(command_succeeded(CommandResult::Accepted));
    assert!(command_succeeded(CommandResult::InProgress));
    assert!(!command_succeeded(CommandResult::Denied));
    assert!(!command_succeeded(CommandResult::Failed));
}
