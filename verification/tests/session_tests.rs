use pitwall::packets::{LapDataCar, SessionDataHeader};
use pitwall::session::{SessionState, TelemetrySample};

fn session_header() -> SessionDataHeader {
    SessionDataHeader {
        weather: 1,
        track_temperature: 30,
        air_temperature: 22,
        total_laps: 5,
        track_length: 5793,
        session_type: 15,
        track_id: 11,
        formula: 0,
        session_time_left: 0,
        session_duration: 0,
        pit_speed_limit: 80,
        game_paused: 0,
        is_spectating: 0,
        spectator_car_index: 255,
        sli_pro_native_support: 0,
        num_marshal_zones: 0,
    }
}

fn lap(current: u8, last_ms: u32, s1: (u8, u16), s2: (u8, u16)) -> LapDataCar {
    LapDataCar {
        last_lap_time_ms: last_ms,
        current_lap_time_ms: 0,
        sector1_time_ms_part: s1.1,
        sector1_time_minutes_part: s1.0,
        sector2_time_ms_part: s2.1,
        sector2_time_minutes_part: s2.0,
        delta_to_car_in_front_ms_part: 0,
        delta_to_car_in_front_minutes_part: 0,
        delta_to_race_leader_ms_part: 0,
        delta_to_race_leader_minutes_part: 0,
        lap_distance: 12.0f32.to_bits(),
        total_distance: 99.0f32.to_bits(),
        safety_car_delta: 0,
        car_position: 2,
        current_lap_num: current,
        pit_status: 0,
        num_pit_stops: 0,
        sector: 1,
        current_lap_invalid: 0,
        penalties: 1,
        total_warnings: 2,
        corner_cutting_warnings: 0,
        num_unserved_drive_through_pens: 0,
        num_unserved_stop_go_pens: 0,
        grid_position: 3,
        driver_status: 0,
        result_status: 0,
        pit_lane_timer_active: 0,
        pit_lane_time_in_lane_ms: 0,
        pit_stop_timer_ms: 0,
        pit_stop_should_serve_pen: 0,
        speed_trap_fastest_speed: 0,
        speed_trap_fastest_lap: 0,
    }
}

fn is_uuid_v4(s: &str) -> bool {
    is_uuid(s) && &s[14..15] == "4" && ["8", "9", "a", "b"].contains(&&s[19..20])
}

fn is_rfc3339_utc(s: &str) -> bool {
    let b = s.as_bytes();
    let digit = |i: usize| b[i].is_ascii_digit();
    let frac = s.len() as isize - 25;
    b.len() >= 25
        && (0..4).all(digit)
        && b[4] == b'-'
        && b[7] == b'-'
        && b[10] == b'T'
        && b[13] == b':'
        && b[16] == b':'
        && [5, 6, 8, 9, 11, 12, 14, 15, 17, 18].iter().all(|&i| digit(i))
        && [0, 4, 7, 10].contains(&frac)
        && (frac == 0 || (b[19] == b'.' && (20..19 + frac as usize).all(digit)))
        && s.ends_with("+00:00")
}

fn is_uuid(s: &str) -> bool {
    s.len() == 36
        && s.chars().enumerate().all(|(i, c)| {
            if i == 8 || i == 13 || i == 18 || i == 23 {
                c == '-'
            } else {
                c.is_ascii_digit() || ('a'..='f').contains(&c)
            }
        })
}

#[test]
fn new_state_is_empty() {
    let s = SessionState::new();
    assert!(s.meta.is_none());
    assert!(!s.active);
    assert_eq!(s.current_lap, 0);
    assert!(s.laps.is_empty() && s.telemetry.is_empty() && s.events.is_empty());
    assert!(s.latest_sample().is_none());
    let d = TelemetrySample::default();
    assert_eq!(d.frame, 0);
    assert_eq!(f32::from_bits(d.throttle), 0.0);
}

#[test]
fn start_session_fills_metadata() {
    let mut s = SessionState::new();
    s.start_session(&session_header(), 42, 24, 1, 15);
    assert!(s.active);
    let m = s.meta.as_ref().unwrap();
    assert_eq!(m.session_uid, 42);
    assert_eq!(m.track_id, 11);
    assert_eq!(m.session_type, 15);
    assert_eq!(m.total_laps, 5);
    assert_eq!(m.air_temperature, 22);
    assert_eq!(m.game_version, "24.1.15");
    assert!(is_uuid_v4(&m.session_id));
    assert!(is_rfc3339_utc(&m.start_time));
    assert!(m.start_time.len() >= 25 && m.start_time.is_ascii());
    assert_eq!(&m.start_time[4..5], "-");
    let mut t = SessionState::new();
    t.start_session(&session_header(), 1, 0, 100, 255);
    assert_eq!(t.meta.as_ref().unwrap().game_version, "0.100.255");
    assert_ne!(t.meta.as_ref().unwrap().session_id, m.session_id);
}

#[test]
fn samples_are_merged_per_frame() {
    let mut s = SessionState::new();
    s.start_session(&session_header(), 1, 24, 1, 0);
    {
        let a = s.get_sample(1.0f32.to_bits(), 10);
        a.speed = 200;
    }
    {
        let b = s.get_sample(1.5f32.to_bits(), 10);
        assert_eq!(b.speed, 200);
        assert_eq!(f32::from_bits(b.timestamp), 1.0);
        b.rpm = 9000;
    }
    assert!(s.telemetry.is_empty());
    assert_eq!(s.latest_sample().unwrap().rpm, 9000);
    {
        let c = s.get_sample(2.0f32.to_bits(), 11);
        assert_eq!(c.speed, 0);
        assert_eq!(c.frame, 11);
    }
    assert_eq!(s.telemetry.len(), 1);
    assert_eq!(s.telemetry[0].frame, 10);
    assert_eq!(s.telemetry[0].speed, 200);
    assert_eq!(s.telemetry[0].rpm, 9000);
    assert_eq!(s.latest_sample().unwrap().frame, 11);
    s.end_session();
    assert!(!s.active);
    assert_eq!(s.telemetry.len(), 2);
    // Ending keeps the latest sample.
    assert_eq!(s.latest_sample().unwrap().frame, 11);
    s.reset();
    assert!(s.meta.is_none() && s.telemetry.is_empty() && s.latest_sample().is_none());
}

#[test]
fn laps_are_recorded_on_transition_with_cached_sectors() {
    let mut s = SessionState::new();
    s.start_session(&session_header(), 1, 24, 1, 0);
    // Lap 1 starts: nothing recorded.
    s.check_lap_completion(&lap(1, 0, (0, 0), (0, 0)));
    assert_eq!(s.current_lap, 1);
    assert!(s.laps.is_empty());
    // Sector times become known during lap 1.
    s.check_lap_completion(&lap(1, 0, (0, 25_500), (0, 0)));
    assert_eq!(s.live_sector1_ms, 25_500);
    s.check_lap_completion(&lap(1, 0, (0, 25_500), (1, 2_000)));
    assert_eq!(s.live_sector2_ms, 62_000);
    // Lap 2 begins; the game reports the finished lap's time and resets sectors.
    s.check_lap_completion(&lap(2, 121_234, (0, 0), (0, 0)));
    assert_eq!(s.laps.len(), 1);
    let r = &s.laps[0];
    assert_eq!(r.lap_number, 1);
    assert_eq!(r.lap_time_ms, 121_234);
    assert_eq!(r.sector1_ms, 25_500);
    assert_eq!(r.sector2_ms, 62_000);
    assert_eq!(r.sector3_ms, 121_234 - 25_500 - 62_000);
    assert_eq!(r.sector1_ms + r.sector2_ms + r.sector3_ms, r.lap_time_ms);
    assert_eq!(r.position, 2);
    assert_eq!(r.penalties, 1);
    assert_eq!(r.warnings, 2);
    assert_eq!(&r.session_id, &s.meta.as_ref().unwrap().session_id);
    assert!(is_uuid_v4(&r.lap_id));
    assert_eq!(s.last_completed_lap, 1);
    assert_eq!(s.live_sector1_ms, 0);
    assert_eq!(s.live_sector2_ms, 0);
    assert_eq!(s.current_sector, 1);
}

#[test]
fn no_lap_is_recorded_without_a_lap_time_or_from_lap_zero() {
    let mut s = SessionState::new();
    s.check_lap_completion(&lap(1, 90_000, (0, 0), (0, 0)));
    assert!(s.laps.is_empty()); // from lap 0
    s.check_lap_completion(&lap(2, 0, (0, 0), (0, 0)));
    assert!(s.laps.is_empty()); // no lap time reported
    assert_eq!(s.last_completed_lap, 0);
    // A lap too short for the cached sectors gets a zero third sector.
    s.check_lap_completion(&lap(2, 0, (1, 0), (1, 0)));
    s.check_lap_completion(&lap(3, 100_000, (0, 0), (0, 0)));
    assert_eq!(s.laps.len(), 1);
    assert_eq!(s.laps[0].sector3_ms, 0);
    // Without metadata, the lap's session id is empty.
    assert_eq!(s.laps[0].session_id, "");
}

#[test]
fn events_are_decoded_lossily() {
    let mut s = SessionState::new();
    s.add_event(3.0f32.to_bits(), 5, *b"FTLP");
    assert_eq!(s.events[0].event_code, "FTLP");
    assert_eq!(s.events[0].frame, 5);
    s.add_event(0, 6, [0x46, 0xFF, 0x4C, 0x50]);
    assert_eq!(s.events[1].event_code, "F\u{FFFD}LP");
    // Valid multi-byte UTF-8 is decoded unchanged.
    s.add_event(0, 7, [0xC3, 0xA9, 0x41, 0x42]);
    assert_eq!(s.events[2].event_code, "\u{e9}AB");
}
