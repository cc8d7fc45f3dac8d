use base64::Engine;

use rusty_pipe::accept_captured;
use rusty_pipe::accept_delivery;
use rusty_pipe::decode;
use rusty_pipe::encode;
use rusty_pipe::next_injection;
use rusty_pipe::next_publish_payload;
use rusty_pipe::should_forward;
use rusty_pipe::BackhaulClientBuilder;
use rusty_pipe::Direction;
use rusty_pipe::ForwardDecision;
use rusty_pipe::Frame;
use rusty_pipe::FrameQueue;
use rusty_pipe::MalformedPayloadError;
use rusty_pipe::NodeIdentity;

/// A frame: 4-byte interface prefix, destination field, source field, and a
/// couple of payload bytes.
fn frame_bytes(dest: [u8; 6], src: [u8; 6]) -> Vec<u8> {
    let mut bytes = vec![0x00, 0x01, 0x02, 0x03];
    bytes.extend_from_slice(&dest);
    bytes.extend_from_slice(&src);
    bytes.extend_from_slice(&[0xDE, 0xAD]);
    bytes
}

fn frame_of(dest: [u8; 6], src: [u8; 6]) -> Frame {
    Frame::from_bytes(frame_bytes(dest, src)).unwrap()
}

#[test]
fn round_trip_restores_the_frame() {
    let bytes = frame_bytes([0xFF; 6], [0xAA; 6]);
    let frame = Frame::from_bytes(bytes.clone()).unwrap();
    let payload = encode(&frame);
    let back = decode(&payload).unwrap();
    assert_eq!(back.as_bytes(), &bytes);
}

#[test]
fn encode_produces_standard_base64() {
    let frame = Frame::from_bytes(vec![0u8; 16]).unwrap();
    assert_eq!(encode(&frame), "AAAAAAAAAAAAAAAAAAAAAA==");
}

#[test]
fn decode_rejects_text_that_is_not_base64() {
    assert_eq!(
        decode("%%%%").unwrap_err(),
        MalformedPayloadError::NotTransportText
    );
}

#[test]
fn decode_rejects_an_undersized_frame() {
    let payload = base64::engine::general_purpose::STANDARD.encode([0u8; 10]);
    assert_eq!(
        decode(&payload).unwrap_err(),
        MalformedPayloadError::UndersizedFrame
    );
}

#[test]
fn undersized_capture_never_reaches_the_queue() {
    let own = NodeIdentity::new([0xAA; 6]);
    let mut queue = FrameQueue::new();
    let short = vec![0u8; 15];
    assert!(Frame::from_bytes(short.clone()).is_err());
    assert!(accept_captured(&mut queue, short, &own).is_err());
    assert!(next_publish_payload(&mut queue).is_none());
}

#[test]
fn destination_self_suppression() {
    let own = NodeIdentity::new([0xAA; 6]);
    let frame = frame_of([0xAA; 6], [0xBB; 6]);
    assert!(!should_forward(&frame, &own, Direction::LocalToBackhaul));
    assert!(should_forward(&frame, &own, Direction::BackhaulToLocal));
}

#[test]
fn source_self_suppression() {
    let own = NodeIdentity::new([0xAA; 6]);
    let frame = frame_of([0xBB; 6], [0xAA; 6]);
    assert!(!should_forward(&frame, &own, Direction::BackhaulToLocal));
    assert!(should_forward(&frame, &own, Direction::LocalToBackhaul));
}

#[test]
fn fifo_preservation_across_a_queue() {
    let own = NodeIdentity::new([0xAA; 6]);
    let f1 = frame_bytes([0x01; 6], [0xBB; 6]);
    let f2 = frame_bytes([0x02; 6], [0xBB; 6]);
    let f3 = frame_bytes([0x03; 6], [0xBB; 6]);
    let mut queue = FrameQueue::new();
    for f in [&f1, &f2, &f3] {
        let decision = accept_captured(&mut queue, f.clone(), &own).unwrap();
        assert_eq!(decision, ForwardDecision::Forwarded);
    }
    let engine = &base64::engine::general_purpose::STANDARD;
    assert_eq!(next_publish_payload(&mut queue), Some(engine.encode(&f1)));
    assert_eq!(next_publish_payload(&mut queue), Some(engine.encode(&f2)));
    assert_eq!(next_publish_payload(&mut queue), Some(engine.encode(&f3)));
    assert_eq!(next_publish_payload(&mut queue), None);
}

#[test]
fn scenario_broadcast_forward() {
    let own = NodeIdentity::new([0xAA; 6]);
    let bytes = frame_bytes([0xFF; 6], [0xAA; 6]);
    let mut queue = FrameQueue::new();
    let decision = accept_captured(&mut queue, bytes.clone(), &own).unwrap();
    assert_eq!(decision, ForwardDecision::Forwarded);
    let payload = next_publish_payload(&mut queue).unwrap();
    assert_eq!(
        payload,
        base64::engine::general_purpose::STANDARD.encode(&bytes)
    );
    assert!(next_publish_payload(&mut queue).is_none());
}

#[test]
fn scenario_self_loop_suppression() {
    let own = NodeIdentity::new([0xAA; 6]);
    let payload = encode(&frame_of([0xFF; 6], [0xAA; 6]));
    let mut queue = FrameQueue::new();
    let decision = accept_delivery(&mut queue, &payload, &own).unwrap();
    assert_eq!(decision, ForwardDecision::Suppressed);
    assert!(next_injection(&mut queue).is_none());
}

#[test]
fn scenario_cross_node_delivery() {
    let own = NodeIdentity::new([0xAA; 6]);
    let bytes = frame_bytes([0xFF; 6], [0xBB; 6]);
    let payload = encode(&Frame::from_bytes(bytes.clone()).unwrap());
    let mut queue = FrameQueue::new();
    let decision = accept_delivery(&mut queue, &payload, &own).unwrap();
    assert_eq!(decision, ForwardDecision::Forwarded);
    assert_eq!(next_injection(&mut queue), Some(bytes));
}

#[test]
fn scenario_malformed_payload_is_dropped_and_the_loop_goes_on() {
    let own = NodeIdentity::new([0xAA; 6]);
    let mut queue = FrameQueue::new();
    assert_eq!(
        accept_delivery(&mut queue, "not base64!", &own).unwrap_err(),
        MalformedPayloadError::NotTransportText
    );
    assert!(next_injection(&mut queue).is_none());
    let bytes = frame_bytes([0xFF; 6], [0xBB; 6]);
    let payload = encode(&Frame::from_bytes(bytes.clone()).unwrap());
    let decision = accept_delivery(&mut queue, &payload, &own).unwrap();
    assert_eq!(decision, ForwardDecision::Forwarded);
    assert_eq!(next_injection(&mut queue), Some(bytes));
}

#[test]
fn builder_carries_the_configuration() {
    let client = BackhaulClientBuilder::new(
        "broker.example.net".to_string(),
        1883,
        "aa:aa:aa:aa:aa:aa".to_string(),
        "segment-1".to_string(),
    )
    .build();
    assert_eq!(client.broker_addr().as_str(), "broker.example.net");
    assert_eq!(client.broker_port(), 1883);
    assert_eq!(client.eth_mac_addr().as_str(), "aa:aa:aa:aa:aa:aa");
    assert_eq!(client.eth_segment_addr().as_str(), "segment-1");
}

#[test]
fn capture_of_own_destination_stays_local() {
    let own = NodeIdentity::new([0xAA; 6]);
    let bytes = frame_bytes([0xAA; 6], [0xBB; 6]);
    let mut queue = FrameQueue::new();
    let decision = accept_captured(&mut queue, bytes, &own).unwrap();
    assert_eq!(decision, ForwardDecision::Suppressed);
    assert!(next_publish_payload(&mut queue).is_none());
}

#[test]
fn prefix_is_preserved_verbatim() {
    let mut bytes = frame_bytes([0xFF; 6], [0xBB; 6]);
    bytes[0] = 0x7F;
    bytes[3] = 0x80;
    let payload = encode(&Frame::from_bytes(bytes.clone()).unwrap());
    let back = decode(&payload).unwrap();
    assert_eq!(back.as_bytes()[0], 0x7F);
    assert_eq!(back.as_bytes()[3], 0x80);
    assert_eq!(back.as_bytes(), &bytes);
}
