use pitwall::live::{circuit_svg_file_name, session_type_name, LiveFrame};
use pitwall::recorder::{
    encode_entry, estimated_packet_count, parse_recording, recording_path, RecordingError, MAGIC,
};
use pitwall::session::{LapRecord, SessionMeta, TelemetrySample};
use pitwall::storage::{session_dir, track_name};

#[test]
fn recording_round_trip() {
    let packets: Vec<(u64, Vec<u8>)> = vec![(0, vec![1, 2, 3]), (1_500_000, vec![]), (u64::MAX, vec![9; 1349])];
    let mut file = MAGIC.to_vec();
    for (ts, data) in &packets {
        file.extend_from_slice(&encode_entry(*ts, data));
    }
    let back = parse_recording(&file).unwrap();
    assert_eq!(back.len(), packets.len());
    for (p, (ts, data)) in back.iter().zip(packets.iter()) {
        assert_eq!(p.timestamp_nanos, *ts);
        assert_eq!(&p.data, data);
    }
}

#[test]
fn entry_layout_is_little_endian() {
    let e = encode_entry(0x0102_0304_0506_0708, &[0xAA, 0xBB]);
    assert_eq!(e, vec![8, 7, 6, 5, 4, 3, 2, 1, 2, 0, 0xAA, 0xBB]);
    assert_eq!(&MAGIC, b"PITRAW01");
}

#[test]
fn reading_stops_at_an_incomplete_entry() {
    let mut file = MAGIC.to_vec();
    file.extend_from_slice(&encode_entry(5, &[1, 2, 3, 4]));
    let mut partial = encode_entry(6, &[1, 2, 3, 4]);
    partial.pop();
    file.extend_from_slice(&partial);
    let back = parse_recording(&file).unwrap();
    assert_eq!(back.len(), 1);
    assert_eq!(back[0].timestamp_nanos, 5);
    assert_eq!(parse_recording(&MAGIC).unwrap().len(), 0);
}

#[test]
fn non_recordings_are_refused() {
    assert_eq!(parse_recording(b"PITRAW").unwrap_err(), RecordingError::TooShort);
    assert_eq!(parse_recording(b"PITRAW02rest").unwrap_err(), RecordingError::BadMagic);
}

#[test]
fn recording_paths_and_estimates() {
    assert_eq!(recording_path("abc"), vec!["recordings".to_string(), "abc.pitraw".to_string()]);
    let full = recording_path("x").iter().fold(std::path::PathBuf::from("./pitwall_data"), |p, c| p.join(c));
    assert_eq!(full, std::path::Path::new("./pitwall_data").join("recordings").join("x.pitraw"));
    assert_eq!(estimated_packet_count(8 + 400), 2);
    assert_eq!(estimated_packet_count(5), 0);
}

fn meta(track_id: i8) -> SessionMeta {
    SessionMeta {
        session_id: "sid".to_string(),
        session_uid: 1,
        track_id,
        session_type: 15,
        weather: 0,
        air_temperature: 20,
        track_temperature: 30,
        total_laps: 5,
        start_time: "2026-03-01T10:00:00+00:00".to_string(),
        game_version: "24.1.0".to_string(),
    }
}

#[test]
fn track_names_and_session_dirs() {
    assert_eq!(track_name(0), "melbourne");
    assert_eq!(track_name(11), "monza");
    assert_eq!(track_name(32), "losail");
    assert_eq!(track_name(33), "unknown");
    assert_eq!(track_name(-1), "unknown");
    assert_eq!(session_dir(&meta(11)), vec!["sessions", "2026", "monza", "sid"]);
    assert_eq!(session_dir(&meta(-1)), vec!["sessions", "2026", "unknown", "sid"]);
}

#[test]
fn session_type_names() {
    assert_eq!(session_type_name(0), "Unknown");
    assert_eq!(session_type_name(5), "Q1");
    assert_eq!(session_type_name(15), "Race");
    assert_eq!(session_type_name(18), "Time Trial");
    assert_eq!(session_type_name(19), "Unknown");
}

fn lap_record(n: u8) -> LapRecord {
    LapRecord {
        lap_id: format!("lap{n}"),
        session_id: "sid".to_string(),
        lap_number: n,
        lap_time_ms: 80_000 + n as u32,
        sector1_ms: 25_000,
        sector2_ms: 30_000,
        sector3_ms: 25_000 + n as u32,
        position: 1,
        penalties: 0,
        warnings: 0,
    }
}

#[test]
fn live_frame_shows_the_latest_laps_newest_first() {
    let mut sample = TelemetrySample::default();
    sample.speed = 301;
    sample.gear = 7;
    sample.throttle = 1.0f32.to_bits();
    sample.timestamp = 42.5f32.to_bits();
    sample.tyre_surface_fl = 95;
    let laps: Vec<LapRecord> = (1..=12).map(lap_record).collect();
    let m = meta(3);
    let f = LiveFrame::from_state(&sample, Some(&m), 13, &laps, 2, 25_000, 0);
    assert!(f.session_active);
    assert_eq!(f.track, "sakhir");
    assert_eq!(f.session_type, "Race");
    assert_eq!(f.total_laps, 5);
    assert_eq!(f.current_lap, 13);
    assert_eq!(f.speed, 301);
    assert_eq!(f.gear, 7);
    assert_eq!(f32::from_bits(f.throttle), 1.0);
    assert_eq!(f32::from_bits(f.session_time), 42.5);
    assert_eq!(f.tyre_fl, 95);
    assert_eq!(f.current_sector, 2);
    assert_eq!(f.current_sector1_ms, 25_000);
    assert_eq!(f.laps.len(), 10);
    assert_eq!(f.laps[0].lap_number, 12);
    assert_eq!(f.laps[9].lap_number, 3);
    assert_eq!(f.laps[0].sector3_ms, 25_012);

    let g = LiveFrame::from_state(&sample, None, 0, &laps[..2], 0, 0, 0);
    assert!(!g.session_active);
    assert_eq!(g.track, "");
    assert_eq!(g.session_type, "");
    assert_eq!(g.total_laps, 0);
    assert_eq!(g.laps.len(), 2);
    assert_eq!(g.laps[0].lap_number, 2);
}

#[test]
fn circuit_names_are_sanitised() {
    assert_eq!(circuit_svg_file_name("sakhir"), "sakhir.svg");
    assert_eq!(circuit_svg_file_name("../../etc/passwd"), "etcpasswd.svg");
    assert_eq!(circuit_svg_file_name("abu_dhabi-2"), "abu_dhabi-2.svg");
    assert_eq!(circuit_svg_file_name("são paulo"), "sãopaulo.svg");
    assert_eq!(circuit_svg_file_name(""), ".svg");
    assert_eq!(circuit_svg_file_name("a.b/c\\d e%2F"), "abcde2F.svg");
    let stem = circuit_svg_file_name("..%2e/../x.svg");
    assert!(!stem[..stem.len() - 4].contains('/') && !stem[..stem.len() - 4].contains('.'));
}
