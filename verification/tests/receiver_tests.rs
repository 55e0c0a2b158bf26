use pitwall::receiver::{process_packet, PacketError, PacketOutcome};
use pitwall::session::SessionState;

fn header_bytes(packet_id: u8, frame: u32, time: f32, player: u8) -> Vec<u8> {
    let mut v = Vec::new();
    v.extend_from_slice(&2024u16.to_le_bytes());
    v.extend_from_slice(&[24, 1, 2, 1, packet_id]);
    v.extend_from_slice(&77u64.to_le_bytes());
    v.extend_from_slice(&time.to_bits().to_le_bytes());
    v.extend_from_slice(&frame.to_le_bytes());
    v.extend_from_slice(&frame.to_le_bytes());
    v.push(player);
    v.push(255);
    v
}

fn session_packet() -> Vec<u8> {
    let mut v = header_bytes(1, 1, 0.0, 0);
    v.extend_from_slice(&[0, 30, 20, 10, 0, 0, 15, 7, 0, 0, 0, 0, 0, 80, 0, 0, 255, 0, 0]);
    v
}

fn event_packet(code: &[u8; 4], frame: u32) -> Vec<u8> {
    let mut v = header_bytes(3, frame, 0.5, 0);
    v.extend_from_slice(code);
    v
}

fn motion_packet(frame: u32, x: f32) -> Vec<u8> {
    let mut v = header_bytes(0, frame, frame as f32, 0);
    v.extend_from_slice(&x.to_bits().to_le_bytes());
    v.extend(std::iter::repeat(0u8).take(56));
    v
}

#[test]
fn malformed_packets_are_rejected() {
    let mut s = SessionState::new();
    assert_eq!(process_packet(&[0u8; 10], &mut s), Err(PacketError::HeaderTooShort));
    assert_eq!(process_packet(&header_bytes(20, 1, 0.0, 0), &mut s), Err(PacketError::UnknownPacketId(20)));
    assert!(!s.active);
}

#[test]
fn data_is_ignored_until_a_session_starts() {
    let mut s = SessionState::new();
    assert_eq!(process_packet(&motion_packet(1, 3.0), &mut s), Ok(PacketOutcome::Continue));
    assert!(s.latest_sample().is_none());
    assert_eq!(process_packet(&event_packet(b"FTLP", 1), &mut s), Ok(PacketOutcome::Continue));
    assert!(s.events.is_empty());
}

#[test]
fn a_session_records_samples_and_events_then_ends() {
    let mut s = SessionState::new();
    assert_eq!(process_packet(&session_packet(), &mut s), Ok(PacketOutcome::SessionStarted));
    assert!(s.active);
    assert_eq!(s.meta.as_ref().unwrap().track_id, 7);
    let m = s.meta.as_ref().unwrap();
    assert_eq!(m.session_id.len(), 36);
    assert_eq!(&m.session_id[14..15], "4");
    assert_eq!(&m.start_time[10..11], "T");
    assert!(m.start_time.ends_with("+00:00"));
    // A second session packet does not restart the session.
    assert_eq!(process_packet(&session_packet(), &mut s), Ok(PacketOutcome::Continue));

    assert_eq!(process_packet(&motion_packet(1, 3.0), &mut s), Ok(PacketOutcome::Continue));
    assert_eq!(process_packet(&motion_packet(2, 4.0), &mut s), Ok(PacketOutcome::Continue));
    assert_eq!(s.telemetry.len(), 1);
    assert_eq!(f32::from_bits(s.telemetry[0].world_x), 3.0);
    assert_eq!(f32::from_bits(s.latest_sample().unwrap().world_x), 4.0);

    assert_eq!(process_packet(&event_packet(b"FTLP", 2), &mut s), Ok(PacketOutcome::Continue));
    assert_eq!(s.events.len(), 1);
    assert_eq!(s.events[0].event_code, "FTLP");

    assert_eq!(process_packet(&event_packet(b"SEND", 3), &mut s), Ok(PacketOutcome::SessionEnded));
    assert!(!s.active);
    assert_eq!(s.telemetry.len(), 2);
    assert_eq!(s.events.len(), 1); // the end marker itself is not stored
}

#[test]
fn a_session_start_event_ends_the_running_session() {
    let mut s = SessionState::new();
    assert_eq!(process_packet(&event_packet(b"SSTA", 1), &mut s), Ok(PacketOutcome::Continue));
    process_packet(&session_packet(), &mut s).unwrap();
    assert_eq!(process_packet(&event_packet(b"SSTA", 2), &mut s), Ok(PacketOutcome::SessionEnded));
    assert!(!s.active);
    assert!(s.events.is_empty());
}
