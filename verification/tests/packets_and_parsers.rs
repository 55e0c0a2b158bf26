use pitwall::packets::event_codes::{SESSION_ENDED, SESSION_STARTED};
use pitwall::packets::{PacketId, HEADER_SIZE, NUM_CARS};
use pitwall::parsers::{
    parse_event_code, parse_header, parse_motion_ex, parse_player_car_status,
    parse_player_car_telemetry, parse_player_lap_data, parse_player_motion, parse_session_data,
};

fn header_bytes(packet_id: u8, frame: u32, session_time: f32, player: u8) -> Vec<u8> {
    let mut v = Vec::new();
    v.extend_from_slice(&2024u16.to_le_bytes());
    v.push(24);
    v.push(1);
    v.push(5);
    v.push(1);
    v.push(packet_id);
    v.extend_from_slice(&0x1122_3344_5566_7788u64.to_le_bytes());
    v.extend_from_slice(&session_time.to_bits().to_le_bytes());
    v.extend_from_slice(&frame.to_le_bytes());
    v.extend_from_slice(&(frame + 1000).to_le_bytes());
    v.push(player);
    v.push(255);
    assert_eq!(v.len(), HEADER_SIZE);
    v
}

#[test]
fn packet_id_from_u8_covers_all_codes() {
    assert_eq!(PacketId::from_u8(0), Some(PacketId::Motion));
    assert_eq!(PacketId::from_u8(1), Some(PacketId::Session));
    assert_eq!(PacketId::from_u8(2), Some(PacketId::LapData));
    assert_eq!(PacketId::from_u8(3), Some(PacketId::Event));
    assert_eq!(PacketId::from_u8(6), Some(PacketId::CarTelemetry));
    assert_eq!(PacketId::from_u8(7), Some(PacketId::CarStatus));
    assert_eq!(PacketId::from_u8(13), Some(PacketId::MotionEx));
    assert_eq!(PacketId::from_u8(14), Some(PacketId::TimeTrial));
    assert_eq!(PacketId::from_u8(15), None);
    assert_eq!(PacketId::from_u8(255), None);
    let mut known = 0;
    for v in 0..=255u8 {
        if PacketId::from_u8(v).is_some() {
            known += 1;
        }
    }
    assert_eq!(known, 15);
    assert_eq!(NUM_CARS, 22);
}

#[test]
fn header_is_decoded_little_endian() {
    let bytes = header_bytes(6, 0x0102_0304, 12.5, 3);
    let h = parse_header(&bytes).unwrap();
    assert_eq!(h.packet_format, 2024);
    assert_eq!(h.game_year, 24);
    assert_eq!(h.game_major_version, 1);
    assert_eq!(h.game_minor_version, 5);
    assert_eq!(h.packet_id, 6);
    assert_eq!(h.session_uid, 0x1122_3344_5566_7788);
    assert_eq!(f32::from_bits(h.session_time), 12.5);
    assert_eq!(h.frame_identifier, 0x0102_0304);
    assert_eq!(h.overall_frame_identifier, 0x0102_0304 + 1000);
    assert_eq!(h.player_car_index, 3);
    assert_eq!(h.secondary_player_car_index, 255);
    assert!(parse_header(&bytes[..HEADER_SIZE - 1]).is_none());
    assert!(parse_header(&[]).is_none());
}

#[test]
fn motion_is_read_at_the_player_slot() {
    let mut bytes = header_bytes(0, 7, 1.0, 1);
    bytes.extend(std::iter::repeat(0u8).take(60)); // car 0
    let mut car = Vec::new();
    for f in [1.5f32, -2.0, 3.25, 10.0, 0.0, -1.0] {
        car.extend_from_slice(&f.to_bits().to_le_bytes());
    }
    for d in [-32768i16, 32767, 1, -1, 0, 100] {
        car.extend_from_slice(&d.to_le_bytes());
    }
    for f in [0.5f32, -0.5, 1.0, 0.1, 0.2, 0.3] {
        car.extend_from_slice(&f.to_bits().to_le_bytes());
    }
    assert_eq!(car.len(), 60);
    bytes.extend_from_slice(&car);
    let m = parse_player_motion(&bytes, 1).unwrap();
    assert_eq!(f32::from_bits(m.world_position_x), 1.5);
    assert_eq!(f32::from_bits(m.world_position_y), -2.0);
    assert_eq!(f32::from_bits(m.world_velocity_z), -1.0);
    assert_eq!(m.world_forward_dir_x, -32768);
    assert_eq!(m.world_forward_dir_y, 32767);
    assert_eq!(m.world_right_dir_x, -1);
    assert_eq!(m.world_right_dir_z, 100);
    assert_eq!(f32::from_bits(m.g_force_lateral), 0.5);
    assert_eq!(f32::from_bits(m.roll), 0.3);
    // Car 2 would need more bytes.
    assert!(parse_player_motion(&bytes, 2).is_none());
    assert!(parse_player_motion(&bytes[..bytes.len() - 1], 1).is_none());
}

#[test]
fn session_data_follows_the_header() {
    let mut bytes = header_bytes(1, 1, 0.0, 0);
    bytes.extend_from_slice(&[2, 0xF6, 25, 58]); // weather, track -10, air 25, laps
    bytes.extend_from_slice(&5793u16.to_le_bytes());
    bytes.extend_from_slice(&[15, 11, 0]); // type, track id, formula
    bytes.extend_from_slice(&3600u16.to_le_bytes());
    bytes.extend_from_slice(&7200u16.to_le_bytes());
    bytes.extend_from_slice(&[80, 0, 0, 255, 0, 21]);
    let s = parse_session_data(&bytes).unwrap();
    assert_eq!(s.weather, 2);
    assert_eq!(s.track_temperature, -10);
    assert_eq!(s.air_temperature, 25);
    assert_eq!(s.total_laps, 58);
    assert_eq!(s.track_length, 5793);
    assert_eq!(s.session_type, 15);
    assert_eq!(s.track_id, 11);
    assert_eq!(s.session_time_left, 3600);
    assert_eq!(s.session_duration, 7200);
    assert_eq!(s.pit_speed_limit, 80);
    assert_eq!(s.spectator_car_index, 255);
    assert_eq!(s.num_marshal_zones, 21);
    assert!(parse_session_data(&bytes[..HEADER_SIZE + 18]).is_none());
}

fn lap_bytes(last_lap: u32, s1: (u16, u8), s2: (u16, u8), lap_num: u8, sector: u8) -> Vec<u8> {
    let mut v = Vec::new();
    v.extend_from_slice(&last_lap.to_le_bytes());
    v.extend_from_slice(&12345u32.to_le_bytes());
    v.extend_from_slice(&s1.0.to_le_bytes());
    v.push(s1.1);
    v.extend_from_slice(&s2.0.to_le_bytes());
    v.push(s2.1);
    v.extend_from_slice(&[0; 6]);
    v.extend_from_slice(&100.5f32.to_bits().to_le_bytes());
    v.extend_from_slice(&2000.0f32.to_bits().to_le_bytes());
    v.extend_from_slice(&0f32.to_bits().to_le_bytes());
    v.push(4); // position
    v.push(lap_num);
    v.extend_from_slice(&[0, 1, sector, 0, 2, 3, 0, 0, 0, 9, 2, 3, 0]);
    v.extend_from_slice(&0u16.to_le_bytes());
    v.extend_from_slice(&0u16.to_le_bytes());
    v.push(0);
    v.extend_from_slice(&310.0f32.to_bits().to_le_bytes());
    v.push(7);
    assert_eq!(v.len(), 57);
    v
}

#[test]
fn lap_data_fields_are_decoded() {
    let mut bytes = header_bytes(2, 1, 0.0, 0);
    bytes.extend_from_slice(&lap_bytes(81234, (25000, 0), (5000, 1), 3, 2));
    let l = parse_player_lap_data(&bytes, 0).unwrap();
    assert_eq!(l.last_lap_time_ms, 81234);
    assert_eq!(l.current_lap_time_ms, 12345);
    assert_eq!(l.sector1_time_ms_part, 25000);
    assert_eq!(l.sector1_time_minutes_part, 0);
    assert_eq!(l.sector2_time_ms_part, 5000);
    assert_eq!(l.sector2_time_minutes_part, 1);
    assert_eq!(f32::from_bits(l.lap_distance), 100.5);
    assert_eq!(f32::from_bits(l.total_distance), 2000.0);
    assert_eq!(l.car_position, 4);
    assert_eq!(l.current_lap_num, 3);
    assert_eq!(l.num_pit_stops, 1);
    assert_eq!(l.sector, 2);
    assert_eq!(l.penalties, 2);
    assert_eq!(l.total_warnings, 3);
    assert_eq!(l.grid_position, 9);
    assert_eq!(f32::from_bits(l.speed_trap_fastest_speed), 310.0);
    assert_eq!(l.speed_trap_fastest_lap, 7);
    assert!(parse_player_lap_data(&bytes, 1).is_none());
}

#[test]
fn telemetry_and_status_are_decoded() {
    let mut t = Vec::new();
    t.extend_from_slice(&312u16.to_le_bytes());
    for f in [0.75f32, -0.25, 0.0] {
        t.extend_from_slice(&f.to_bits().to_le_bytes());
    }
    t.push(0);
    t.push(0xFF); // gear -1
    t.extend_from_slice(&11800u16.to_le_bytes());
    t.push(1);
    t.push(90);
    t.extend_from_slice(&0x7FFFu16.to_le_bytes());
    for b in [500u16, 510, 600, 610] {
        t.extend_from_slice(&b.to_le_bytes());
    }
    t.extend_from_slice(&[90, 91, 92, 93]);
    t.extend_from_slice(&[100, 101, 102, 103]);
    t.extend_from_slice(&110u16.to_le_bytes());
    for p in [23.0f32, 23.5, 24.0, 24.5] {
        t.extend_from_slice(&p.to_bits().to_le_bytes());
    }
    t.extend_from_slice(&[0, 0, 1, 1]);
    assert_eq!(t.len(), 60);
    let mut bytes = header_bytes(6, 1, 0.0, 0);
    bytes.extend_from_slice(&t);
    let tel = parse_player_car_telemetry(&bytes, 0).unwrap();
    assert_eq!(tel.speed, 312);
    assert_eq!(f32::from_bits(tel.throttle), 0.75);
    assert_eq!(f32::from_bits(tel.steer), -0.25);
    assert_eq!(tel.gear, -1);
    assert_eq!(tel.engine_rpm, 11800);
    assert_eq!(tel.drs, 1);
    assert_eq!(tel.brakes_temperature, [500, 510, 600, 610]);
    assert_eq!(tel.tyres_surface_temperature, [90, 91, 92, 93]);
    assert_eq!(tel.tyres_inner_temperature, [100, 101, 102, 103]);
    assert_eq!(tel.engine_temperature, 110);
    assert_eq!(f32::from_bits(tel.tyres_pressure[3]), 24.5);
    assert_eq!(tel.surface_type, [0, 0, 1, 1]);

    let mut s = vec![1, 1, 2, 55, 0];
    s.extend_from_slice(&42.5f32.to_bits().to_le_bytes());
    s.extend_from_slice(&110.0f32.to_bits().to_le_bytes());
    s.extend_from_slice(&20.0f32.to_bits().to_le_bytes());
    s.extend_from_slice(&13000u16.to_le_bytes());
    s.extend_from_slice(&4000u16.to_le_bytes());
    s.push(8);
    s.push(1);
    s.extend_from_slice(&0u16.to_le_bytes());
    s.extend_from_slice(&[16, 16, 3, 0xFF]);
    s.extend_from_slice(&0f32.to_bits().to_le_bytes());
    s.extend_from_slice(&0f32.to_bits().to_le_bytes());
    s.extend_from_slice(&3_000_000.0f32.to_bits().to_le_bytes());
    s.push(2);
    for _ in 0..3 {
        s.extend_from_slice(&0f32.to_bits().to_le_bytes());
    }
    s.push(0);
    assert_eq!(s.len(), 55);
    let mut bytes = header_bytes(7, 1, 0.0, 0);
    bytes.extend_from_slice(&s);
    let st = parse_player_car_status(&bytes, 0).unwrap();
    assert_eq!(f32::from_bits(st.fuel_in_tank), 42.5);
    assert_eq!(st.max_rpm, 13000);
    assert_eq!(st.drs_allowed, 1);
    assert_eq!(st.vehicle_fia_flags, -1);
    assert_eq!(f32::from_bits(st.ers_store_energy), 3_000_000.0);
    assert_eq!(st.ers_deploy_mode, 2);
}

#[test]
fn motion_ex_and_event_code() {
    let mut bytes = header_bytes(13, 1, 0.0, 0);
    for i in 0..52u32 {
        bytes.extend_from_slice(&(i as f32).to_bits().to_le_bytes());
    }
    let ex = parse_motion_ex(&bytes).unwrap();
    assert_eq!(f32::from_bits(ex.suspension_position[0]), 0.0);
    assert_eq!(f32::from_bits(ex.suspension_velocity[1]), 5.0);
    assert_eq!(f32::from_bits(ex.wheel_speed[3]), 15.0);
    assert_eq!(f32::from_bits(ex.height_of_cog_above_ground), 32.0);
    assert_eq!(f32::from_bits(ex.front_wheels_angle), 42.0);
    assert_eq!(f32::from_bits(ex.wheel_vert_force[0]), 43.0);
    assert_eq!(f32::from_bits(ex.chassis_yaw), 51.0);
    assert!(parse_motion_ex(&bytes[..bytes.len() - 1]).is_none());

    let mut ev = header_bytes(3, 1, 0.0, 0);
    ev.extend_from_slice(b"SEND");
    assert_eq!(parse_event_code(&ev), Some(*b"SEND"));
    assert_eq!(parse_event_code(&ev), Some(SESSION_ENDED));
    assert_eq!(SESSION_STARTED, *b"SSTA");
    assert_eq!(parse_event_code(&ev[..HEADER_SIZE + 3]), None);
}
