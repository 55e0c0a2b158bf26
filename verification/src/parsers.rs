//! Packet parsing: decoding the packed little-endian structs from raw UDP bytes.

use vstd::prelude::*;

use crate::packets::{
    CarMotionData, CarStatusData, CarTelemetryData, LapDataCar, MotionExData, PacketHeader,
    SessionDataHeader, CAR_MOTION_SIZE, CAR_STATUS_SIZE, CAR_TELEMETRY_SIZE, HEADER_SIZE,
    LAP_DATA_SIZE, MOTION_EX_SIZE, SESSION_DATA_SIZE,
};
use crate::wire::{
    le_u16, le_u32, le_u64, lemma_le_u16_roundtrip, lemma_le_u32_roundtrip, lemma_le_u64_roundtrip,
    read_u16, read_u32, read_u64, u16_le_bytes, u32_le_bytes, u64_le_bytes,
};

verus! {

/// Four consecutive little-endian `u16` values starting at `off`.
pub open spec fn le_u16x4(s: Seq<u8>, off: int) -> [u16; 4] {
    [le_u16(s, off), le_u16(s, off + 2), le_u16(s, off + 4), le_u16(s, off + 6)]
}

/// Four consecutive little-endian `u32` values starting at `off`.
pub open spec fn le_u32x4(s: Seq<u8>, off: int) -> [u32; 4] {
    [le_u32(s, off), le_u32(s, off + 4), le_u32(s, off + 8), le_u32(s, off + 12)]
}

/// Four consecutive bytes starting at `off`.
pub open spec fn bytes4(s: Seq<u8>, off: int) -> [u8; 4] {
    [s[off], s[off + 1], s[off + 2], s[off + 3]]
}

/// The packet header encoded at the start of `s`.
pub open spec fn spec_header(s: Seq<u8>) -> PacketHeader {
    PacketHeader {
        packet_format: le_u16(s, 0),
        game_year: s[2],
        game_major_version: s[3],
        game_minor_version: s[4],
        packet_version: s[5],
        packet_id: s[6],
        session_uid: le_u64(s, 7),
        session_time: le_u32(s, 15),
        frame_identifier: le_u32(s, 19),
        overall_frame_identifier: le_u32(s, 23),
        player_car_index: s[27],
        secondary_player_car_index: s[28],
    }
}

/// The car motion data encoded at offset `b` of `s`.
pub open spec fn spec_car_motion(s: Seq<u8>, b: int) -> CarMotionData {
    CarMotionData {
        world_position_x: le_u32(s, b),
        world_position_y: le_u32(s, b + 4),
        world_position_z: le_u32(s, b + 8),
        world_velocity_x: le_u32(s, b + 12),
        world_velocity_y: le_u32(s, b + 16),
        world_velocity_z: le_u32(s, b + 20),
        world_forward_dir_x: le_u16(s, b + 24) as i16,
        world_forward_dir_y: le_u16(s, b + 26) as i16,
        world_forward_dir_z: le_u16(s, b + 28) as i16,
        world_right_dir_x: le_u16(s, b + 30) as i16,
        world_right_dir_y: le_u16(s, b + 32) as i16,
        world_right_dir_z: le_u16(s, b + 34) as i16,
        g_force_lateral: le_u32(s, b + 36),
        g_force_longitudinal: le_u32(s, b + 40),
        g_force_vertical: le_u32(s, b + 44),
        yaw: le_u32(s, b + 48),
        pitch: le_u32(s, b + 52),
        roll: le_u32(s, b + 56),
    }
}

/// The session data fields encoded at offset `b` of `s`.
pub open spec fn spec_session_data(s: Seq<u8>, b: int) -> SessionDataHeader {
    SessionDataHeader {
        weather: s[b],
        track_temperature: s[b + 1] as i8,
        air_temperature: s[b + 2] as i8,
        total_laps: s[b + 3],
        track_length: le_u16(s, b + 4),
        session_type: s[b + 6],
        track_id: s[b + 7] as i8,
        formula: s[b + 8],
        session_time_left: le_u16(s, b + 9),
        session_duration: le_u16(s, b + 11),
        pit_speed_limit: s[b + 13],
        game_paused: s[b + 14],
        is_spectating: s[b + 15],
        spectator_car_index: s[b + 16],
        sli_pro_native_support: s[b + 17],
        num_marshal_zones: s[b + 18],
    }
}

/// The lap data encoded at offset `b` of `s`.
pub open spec fn spec_lap_data(s: Seq<u8>, b: int) -> LapDataCar {
    LapDataCar {
        last_lap_time_ms: le_u32(s, b),
        current_lap_time_ms: le_u32(s, b + 4),
        sector1_time_ms_part: le_u16(s, b + 8),
        sector1_time_minutes_part: s[b + 10],
        sector2_time_ms_part: le_u16(s, b + 11),
        sector2_time_minutes_part: s[b + 13],
        delta_to_car_in_front_ms_part: le_u16(s, b + 14),
        delta_to_car_in_front_minutes_part: s[b + 16],
        delta_to_race_leader_ms_part: le_u16(s, b + 17),
        delta_to_race_leader_minutes_part: s[b + 19],
        lap_distance: le_u32(s, b + 20),
        total_distance: le_u32(s, b + 24),
        safety_car_delta: le_u32(s, b + 28),
        car_position: s[b + 32],
        current_lap_num: s[b + 33],
        pit_status: s[b + 34],
        num_pit_stops: s[b + 35],
        sector: s[b + 36],
        current_lap_invalid: s[b + 37],
        penalties: s[b + 38],
        total_warnings: s[b + 39],
        corner_cutting_warnings: s[b + 40],
        num_unserved_drive_through_pens: s[b + 41],
        num_unserved_stop_go_pens: s[b + 42],
        grid_position: s[b + 43],
        driver_status: s[b + 44],
        result_status: s[b + 45],
        pit_lane_timer_active: s[b + 46],
        pit_lane_time_in_lane_ms: le_u16(s, b + 47),
        pit_stop_timer_ms: le_u16(s, b + 49),
        pit_stop_should_serve_pen: s[b + 51],
        speed_trap_fastest_speed: le_u32(s, b + 52),
        speed_trap_fastest_lap: s[b + 56],
    }
}

/// The car telemetry data encoded at offset `b` of `s`.
pub open spec fn spec_car_telemetry(s: Seq<u8>, b: int) -> CarTelemetryData {
    CarTelemetryData {
        speed: le_u16(s, b),
        throttle: le_u32(s, b + 2),
        steer: le_u32(s, b + 6),
        brake: le_u32(s, b + 10),
        clutch: s[b + 14],
        gear: s[b + 15] as i8,
        engine_rpm: le_u16(s, b + 16),
        drs: s[b + 18],
        rev_lights_percent: s[b + 19],
        rev_lights_bit_value: le_u16(s, b + 20),
        brakes_temperature: le_u16x4(s, b + 22),
        tyres_surface_temperature: bytes4(s, b + 30),
        tyres_inner_temperature: bytes4(s, b + 34),
        engine_temperature: le_u16(s, b + 38),
        tyres_pressure: le_u32x4(s, b + 40),
        surface_type: bytes4(s, b + 56),
    }
}

/// The car status data encoded at offset `b` of `s`.
pub open spec fn spec_car_status(s: Seq<u8>, b: int) -> CarStatusData {
    CarStatusData {
        traction_control: s[b],
        anti_lock_brakes: s[b + 1],
        fuel_mix: s[b + 2],
        front_brake_bias: s[b + 3],
        pit_limiter_status: s[b + 4],
        fuel_in_tank: le_u32(s, b + 5),
        fuel_capacity: le_u32(s, b + 9),
        fuel_remaining_laps: le_u32(s, b + 13),
        max_rpm: le_u16(s, b + 17),
        idle_rpm: le_u16(s, b + 19),
        max_gears: s[b + 21],
        drs_allowed: s[b + 22],
        drs_activation_distance: le_u16(s, b + 23),
        actual_tyre_compound: s[b + 25],
        visual_tyre_compound: s[b + 26],
        tyres_age_laps: s[b + 27],
        vehicle_fia_flags: s[b + 28] as i8,
        engine_power_ice: le_u32(s, b + 29),
        engine_power_mguk: le_u32(s, b + 33),
        ers_store_energy: le_u32(s, b + 37),
        ers_deploy_mode: s[b + 41],
        ers_harvested_this_lap_mguk: le_u32(s, b + 42),
        ers_harvested_this_lap_mguh: le_u32(s, b + 46),
        ers_deployed_this_lap: le_u32(s, b + 50),
        network_paused: s[b + 54],
    }
}

/// The extended motion data encoded at offset `b` of `s`.
pub open spec fn spec_motion_ex(s: Seq<u8>, b: int) -> MotionExData {
    MotionExData {
        suspension_position: le_u32x4(s, b),
        suspension_velocity: le_u32x4(s, b + 16),
        suspension_acceleration: le_u32x4(s, b + 32),
        wheel_speed: le_u32x4(s, b + 48),
        wheel_slip_ratio: le_u32x4(s, b + 64),
        wheel_slip_angle: le_u32x4(s, b + 80),
        wheel_lat_force: le_u32x4(s, b + 96),
        wheel_long_force: le_u32x4(s, b + 112),
        height_of_cog_above_ground: le_u32(s, b + 128),
        local_velocity_x: le_u32(s, b + 132),
        local_velocity_y: le_u32(s, b + 136),
        local_velocity_z: le_u32(s, b + 140),
        angular_velocity_x: le_u32(s, b + 144),
        angular_velocity_y: le_u32(s, b + 148),
        angular_velocity_z: le_u32(s, b + 152),
        angular_acceleration_x: le_u32(s, b + 156),
        angular_acceleration_y: le_u32(s, b + 160),
        angular_acceleration_z: le_u32(s, b + 164),
        front_wheels_angle: le_u32(s, b + 168),
        wheel_vert_force: le_u32x4(s, b + 172),
        front_aero_height: le_u32(s, b + 188),
        rear_aero_height: le_u32(s, b + 192),
        front_roll_angle: le_u32(s, b + 196),
        rear_roll_angle: le_u32(s, b + 200),
        chassis_yaw: le_u32(s, b + 204),
    }
}

/// Four `u16` values, each least significant byte first, in array order.
pub open spec fn u16x4_le_bytes(a: [u16; 4]) -> Seq<u8> {
    u16_le_bytes(a[0]) + u16_le_bytes(a[1]) + u16_le_bytes(a[2]) + u16_le_bytes(a[3])
}

/// Four `u32` values, each least significant byte first, in array order.
pub open spec fn u32x4_le_bytes(a: [u32; 4]) -> Seq<u8> {
    u32_le_bytes(a[0]) + u32_le_bytes(a[1]) + u32_le_bytes(a[2]) + u32_le_bytes(a[3])
}

/// Four bytes in array order.
pub open spec fn array4_bytes(a: [u8; 4]) -> Seq<u8> {
    seq![a[0], a[1], a[2], a[3]]
}

proof fn lemma_split(s: Seq<u8>, b: int, p: Seq<u8>, q: Seq<u8>)
    requires
        0 <= b,
        b + p.len() + q.len() <= s.len(),
        s.subrange(b, b + p.len() + q.len()) == p + q,
    ensures
        s.subrange(b, b + p.len()) == p,
        s.subrange(b + p.len(), b + p.len() + q.len()) == q,
{
    let t = s.subrange(b, b + p.len() + q.len());
    assert(s.subrange(b, b + p.len()) =~= t.subrange(0, p.len() as int));
    assert(s.subrange(b + p.len(), b + p.len() + q.len()) =~= t.subrange(p.len() as int, (p.len() + q.len()) as int));
    assert((p + q).subrange(0, p.len() as int) =~= p);
    assert((p + q).subrange(p.len() as int, (p.len() + q.len()) as int) =~= q);
}

proof fn lemma_u32x4_roundtrip(s: Seq<u8>, off: int, a: [u32; 4])
    requires
        0 <= off,
        off + 16 <= s.len(),
        s.subrange(off, off + 16) == u32x4_le_bytes(a),
    ensures
        le_u32x4(s, off) == a,
{
    let p1 = u32_le_bytes(a[0]);
    let p2 = u32_le_bytes(a[0]) + u32_le_bytes(a[1]);
    let p3 = u32_le_bytes(a[0]) + u32_le_bytes(a[1]) + u32_le_bytes(a[2]);
    lemma_split(s, off, p3, u32_le_bytes(a[3]));
    lemma_split(s, off, p2, u32_le_bytes(a[2]));
    lemma_split(s, off, p1, u32_le_bytes(a[1]));
    lemma_le_u32_roundtrip(s, off, a[0]);
    lemma_le_u32_roundtrip(s, off + 4, a[1]);
    lemma_le_u32_roundtrip(s, off + 8, a[2]);
    lemma_le_u32_roundtrip(s, off + 12, a[3]);
    broadcast use vstd::array::axiom_array_ext_equal;

    assert(le_u32x4(s, off) =~= a);
}

proof fn lemma_u16_at(s: Seq<u8>, e: Seq<u8>, b: int, i: int, x: u16)
    requires
        0 <= b,
        0 <= i,
        i + 2 <= e.len(),
        b + e.len() <= s.len(),
        s.subrange(b, b + e.len()) == e,
        e.subrange(i, i + 2) == u16_le_bytes(x),
    ensures
        le_u16(s, b + i) == x,
{
    assert(s.subrange(b + i, b + i + 2) =~= e.subrange(i, i + 2)) by {
        assert forall|j: int| 0 <= j < 2 implies #[trigger] s.subrange(b + i, b + i + 2)[j] == e.subrange(i, i + 2)[j] by {
            assert(s.subrange(b, b + e.len())[i + j] == s[b + i + j]);
        }
    }
    lemma_le_u16_roundtrip(s, b + i, x);
}

proof fn lemma_u32_at(s: Seq<u8>, e: Seq<u8>, b: int, i: int, x: u32)
    requires
        0 <= b,
        0 <= i,
        i + 4 <= e.len(),
        b + e.len() <= s.len(),
        s.subrange(b, b + e.len()) == e,
        e.subrange(i, i + 4) == u32_le_bytes(x),
    ensures
        le_u32(s, b + i) == x,
{
    assert(s.subrange(b + i, b + i + 4) =~= e.subrange(i, i + 4)) by {
        assert forall|j: int| 0 <= j < 4 implies #[trigger] s.subrange(b + i, b + i + 4)[j] == e.subrange(i, i + 4)[j] by {
            assert(s.subrange(b, b + e.len())[i + j] == s[b + i + j]);
        }
    }
    lemma_le_u32_roundtrip(s, b + i, x);
}

proof fn lemma_u64_at(s: Seq<u8>, e: Seq<u8>, b: int, i: int, x: u64)
    requires
        0 <= b,
        0 <= i,
        i + 8 <= e.len(),
        b + e.len() <= s.len(),
        s.subrange(b, b + e.len()) == e,
        e.subrange(i, i + 8) == u64_le_bytes(x),
    ensures
        le_u64(s, b + i) == x,
{
    assert(s.subrange(b + i, b + i + 8) =~= e.subrange(i, i + 8)) by {
        assert forall|j: int| 0 <= j < 8 implies #[trigger] s.subrange(b + i, b + i + 8)[j] == e.subrange(i, i + 8)[j] by {
            assert(s.subrange(b, b + e.len())[i + j] == s[b + i + j]);
        }
    }
    lemma_le_u64_roundtrip(s, b + i, x);
}

/// The wire form of the packet header: its fields one after the other in
/// declaration order, packed, each little-endian (29 bytes).
pub open spec fn encode_header(x: PacketHeader) -> Seq<u8> {
    u16_le_bytes(x.packet_format)
        + seq![x.game_year]
        + seq![x.game_major_version]
        + seq![x.game_minor_version]
        + seq![x.packet_version]
        + seq![x.packet_id]
        + u64_le_bytes(x.session_uid)
        + u32_le_bytes(x.session_time)
        + u32_le_bytes(x.frame_identifier)
        + u32_le_bytes(x.overall_frame_identifier)
        + seq![x.player_car_index]
        + seq![x.secondary_player_car_index]
}

/// Decoding the packet header gives back the one that was encoded: every field
/// is read from its own place.
pub proof fn lemma_header_roundtrip(s: Seq<u8>, x: PacketHeader)
    requires
        29 <= s.len(),
        s.subrange(0, 29) == encode_header(x),
    ensures
        spec_header(s) == x,
{
    let b: int = 0;
    let e = encode_header(x);
    assert(e.len() == 29);
    assert forall|i: int| 0 <= i < 29 implies s[b + 0 + i] == #[trigger] e[i] by {
        assert(s.subrange(b + 0, b + 0 + 29)[i] == s[b + 0 + i]);
    }
    assert(e.subrange(0, 2) =~= u16_le_bytes(x.packet_format));
    lemma_u16_at(s, e, b + 0, 0, x.packet_format);
    assert(e[2] == x.game_year);
    assert(e[3] == x.game_major_version);
    assert(e[4] == x.game_minor_version);
    assert(e[5] == x.packet_version);
    assert(e[6] == x.packet_id);
    assert(e.subrange(7, 15) =~= u64_le_bytes(x.session_uid));
    lemma_u64_at(s, e, b + 0, 7, x.session_uid);
    assert(e.subrange(15, 19) =~= u32_le_bytes(x.session_time));
    lemma_u32_at(s, e, b + 0, 15, x.session_time);
    assert(e.subrange(19, 23) =~= u32_le_bytes(x.frame_identifier));
    lemma_u32_at(s, e, b + 0, 19, x.frame_identifier);
    assert(e.subrange(23, 27) =~= u32_le_bytes(x.overall_frame_identifier));
    lemma_u32_at(s, e, b + 0, 23, x.overall_frame_identifier);
    assert(e[27] == x.player_car_index);
    assert(e[28] == x.secondary_player_car_index);
}

/// The wire form of a car motion record: its fields one after the other in
/// declaration order, packed, each little-endian (60 bytes).
pub open spec fn encode_car_motion(x: CarMotionData) -> Seq<u8> {
    u32_le_bytes(x.world_position_x)
        + u32_le_bytes(x.world_position_y)
        + u32_le_bytes(x.world_position_z)
        + u32_le_bytes(x.world_velocity_x)
        + u32_le_bytes(x.world_velocity_y)
        + u32_le_bytes(x.world_velocity_z)
        + u16_le_bytes(x.world_forward_dir_x as u16)
        + u16_le_bytes(x.world_forward_dir_y as u16)
        + u16_le_bytes(x.world_forward_dir_z as u16)
        + u16_le_bytes(x.world_right_dir_x as u16)
        + u16_le_bytes(x.world_right_dir_y as u16)
        + u16_le_bytes(x.world_right_dir_z as u16)
        + u32_le_bytes(x.g_force_lateral)
        + u32_le_bytes(x.g_force_longitudinal)
        + u32_le_bytes(x.g_force_vertical)
        + u32_le_bytes(x.yaw)
        + u32_le_bytes(x.pitch)
        + u32_le_bytes(x.roll)
}

/// Decoding a car motion record gives back the one that was encoded: every field
/// is read from its own place.
pub proof fn lemma_car_motion_roundtrip(s: Seq<u8>, b: int, x: CarMotionData)
    requires
        0 <= b,
        b + 60 <= s.len(),
        s.subrange(b, b + 60) == encode_car_motion(x),
    ensures
        spec_car_motion(s, b) == x,
{
    let e = encode_car_motion(x);
    assert(e.len() == 60);
    assert forall|i: int| 0 <= i < 60 implies s[b + 0 + i] == #[trigger] e[i] by {
        assert(s.subrange(b + 0, b + 0 + 60)[i] == s[b + 0 + i]);
    }
    assert(e.subrange(0, 4) =~= u32_le_bytes(x.world_position_x));
    lemma_u32_at(s, e, b + 0, 0, x.world_position_x);
    assert(e.subrange(4, 8) =~= u32_le_bytes(x.world_position_y));
    lemma_u32_at(s, e, b + 0, 4, x.world_position_y);
    assert(e.subrange(8, 12) =~= u32_le_bytes(x.world_position_z));
    lemma_u32_at(s, e, b + 0, 8, x.world_position_z);
    assert(e.subrange(12, 16) =~= u32_le_bytes(x.world_velocity_x));
    lemma_u32_at(s, e, b + 0, 12, x.world_velocity_x);
    assert(e.subrange(16, 20) =~= u32_le_bytes(x.world_velocity_y));
    lemma_u32_at(s, e, b + 0, 16, x.world_velocity_y);
    assert(e.subrange(20, 24) =~= u32_le_bytes(x.world_velocity_z));
    lemma_u32_at(s, e, b + 0, 20, x.world_velocity_z);
    assert(e.subrange(24, 26) =~= u16_le_bytes(x.world_forward_dir_x as u16));
    lemma_u16_at(s, e, b + 0, 24, x.world_forward_dir_x as u16);
    let v = x.world_forward_dir_x;
    assert(((v as u16) as i16) == v) by (bit_vector);
    assert(e.subrange(26, 28) =~= u16_le_bytes(x.world_forward_dir_y as u16));
    lemma_u16_at(s, e, b + 0, 26, x.world_forward_dir_y as u16);
    let v = x.world_forward_dir_y;
    assert(((v as u16) as i16) == v) by (bit_vector);
    assert(e.subrange(28, 30) =~= u16_le_bytes(x.world_forward_dir_z as u16));
    lemma_u16_at(s, e, b + 0, 28, x.world_forward_dir_z as u16);
    let v = x.world_forward_dir_z;
    assert(((v as u16) as i16) == v) by (bit_vector);
    assert(e.subrange(30, 32) =~= u16_le_bytes(x.world_right_dir_x as u16));
    lemma_u16_at(s, e, b + 0, 30, x.world_right_dir_x as u16);
    let v = x.world_right_dir_x;
    assert(((v as u16) as i16) == v) by (bit_vector);
    assert(e.subrange(32, 34) =~= u16_le_bytes(x.world_right_dir_y as u16));
    lemma_u16_at(s, e, b + 0, 32, x.world_right_dir_y as u16);
    let v = x.world_right_dir_y;
    assert(((v as u16) as i16) == v) by (bit_vector);
    assert(e.subrange(34, 36) =~= u16_le_bytes(x.world_right_dir_z as u16));
    lemma_u16_at(s, e, b + 0, 34, x.world_right_dir_z as u16);
    let v = x.world_right_dir_z;
    assert(((v as u16) as i16) == v) by (bit_vector);
    assert(e.subrange(36, 40) =~= u32_le_bytes(x.g_force_lateral));
    lemma_u32_at(s, e, b + 0, 36, x.g_force_lateral);
    assert(e.subrange(40, 44) =~= u32_le_bytes(x.g_force_longitudinal));
    lemma_u32_at(s, e, b + 0, 40, x.g_force_longitudinal);
    assert(e.subrange(44, 48) =~= u32_le_bytes(x.g_force_vertical));
    lemma_u32_at(s, e, b + 0, 44, x.g_force_vertical);
    assert(e.subrange(48, 52) =~= u32_le_bytes(x.yaw));
    lemma_u32_at(s, e, b + 0, 48, x.yaw);
    assert(e.subrange(52, 56) =~= u32_le_bytes(x.pitch));
    lemma_u32_at(s, e, b + 0, 52, x.pitch);
    assert(e.subrange(56, 60) =~= u32_le_bytes(x.roll));
    lemma_u32_at(s, e, b + 0, 56, x.roll);
}

/// The wire form of the session data fields: its fields one after the other in
/// declaration order, packed, each little-endian (19 bytes).
pub open spec fn encode_session_data(x: SessionDataHeader) -> Seq<u8> {
    seq![x.weather]
        + seq![x.track_temperature as u8]
        + seq![x.air_temperature as u8]
        + seq![x.total_laps]
        + u16_le_bytes(x.track_length)
        + seq![x.session_type]
        + seq![x.track_id as u8]
        + seq![x.formula]
        + u16_le_bytes(x.session_time_left)
        + u16_le_bytes(x.session_duration)
        + seq![x.pit_speed_limit]
        + seq![x.game_paused]
        + seq![x.is_spectating]
        + seq![x.spectator_car_index]
        + seq![x.sli_pro_native_support]
        + seq![x.num_marshal_zones]
}

/// Decoding the session data fields gives back the one that was encoded: every field
/// is read from its own place.
pub proof fn lemma_session_data_roundtrip(s: Seq<u8>, b: int, x: SessionDataHeader)
    requires
        0 <= b,
        b + 19 <= s.len(),
        s.subrange(b, b + 19) == encode_session_data(x),
    ensures
        spec_session_data(s, b) == x,
{
    let e = encode_session_data(x);
    assert(e.len() == 19);
    assert forall|i: int| 0 <= i < 19 implies s[b + 0 + i] == #[trigger] e[i] by {
        assert(s.subrange(b + 0, b + 0 + 19)[i] == s[b + 0 + i]);
    }
    assert(e[0] == x.weather);
    assert(e[1] == x.track_temperature as u8);
    let v = x.track_temperature;
    assert(((v as u8) as i8) == v) by (bit_vector);
    assert(e[2] == x.air_temperature as u8);
    let v = x.air_temperature;
    assert(((v as u8) as i8) == v) by (bit_vector);
    assert(e[3] == x.total_laps);
    assert(e.subrange(4, 6) =~= u16_le_bytes(x.track_length));
    lemma_u16_at(s, e, b + 0, 4, x.track_length);
    assert(e[6] == x.session_type);
    assert(e[7] == x.track_id as u8);
    let v = x.track_id;
    assert(((v as u8) as i8) == v) by (bit_vector);
    assert(e[8] == x.formula);
    assert(e.subrange(9, 11) =~= u16_le_bytes(x.session_time_left));
    lemma_u16_at(s, e, b + 0, 9, x.session_time_left);
    assert(e.subrange(11, 13) =~= u16_le_bytes(x.session_duration));
    lemma_u16_at(s, e, b + 0, 11, x.session_duration);
    assert(e[13] == x.pit_speed_limit);
    assert(e[14] == x.game_paused);
    assert(e[15] == x.is_spectating);
    assert(e[16] == x.spectator_car_index);
    assert(e[17] == x.sli_pro_native_support);
    assert(e[18] == x.num_marshal_zones);
}

/// The wire form of a lap data record: its fields one after the other in
/// declaration order, packed, each little-endian (57 bytes).
pub open spec fn encode_lap_data(x: LapDataCar) -> Seq<u8> {
    encode_lap_data_part1(x) + encode_lap_data_part2(x)
}

/// The fields `last_lap_time_ms` to `pit_lane_timer_active` of a lap data record, encoded as in
/// [`encode_lap_data`].
#[verifier::opaque]
pub open spec fn encode_lap_data_part1(x: LapDataCar) -> Seq<u8> {
    u32_le_bytes(x.last_lap_time_ms)
        + u32_le_bytes(x.current_lap_time_ms)
        + u16_le_bytes(x.sector1_time_ms_part)
        + seq![x.sector1_time_minutes_part]
        + u16_le_bytes(x.sector2_time_ms_part)
        + seq![x.sector2_time_minutes_part]
        + u16_le_bytes(x.delta_to_car_in_front_ms_part)
        + seq![x.delta_to_car_in_front_minutes_part]
        + u16_le_bytes(x.delta_to_race_leader_ms_part)
        + seq![x.delta_to_race_leader_minutes_part]
        + u32_le_bytes(x.lap_distance)
        + u32_le_bytes(x.total_distance)
        + u32_le_bytes(x.safety_car_delta)
        + seq![x.car_position]
        + seq![x.current_lap_num]
        + seq![x.pit_status]
        + seq![x.num_pit_stops]
        + seq![x.sector]
        + seq![x.current_lap_invalid]
        + seq![x.penalties]
        + seq![x.total_warnings]
        + seq![x.corner_cutting_warnings]
        + seq![x.num_unserved_drive_through_pens]
        + seq![x.num_unserved_stop_go_pens]
        + seq![x.grid_position]
        + seq![x.driver_status]
        + seq![x.result_status]
        + seq![x.pit_lane_timer_active]
}

proof fn lemma_lap_data_part1_len(x: LapDataCar)
    ensures
        encode_lap_data_part1(x).len() == 47,
{
    reveal(encode_lap_data_part1);
}

proof fn lemma_lap_data_part1_at(s: Seq<u8>, b: int, x: LapDataCar)
    requires
        0 <= b,
        b + 0 + 47 <= s.len(),
        s.subrange(b + 0, b + 0 + 47) == encode_lap_data_part1(x),
    ensures
        le_u32(s, b + 0) == x.last_lap_time_ms,
        le_u32(s, b + 4) == x.current_lap_time_ms,
        le_u16(s, b + 8) == x.sector1_time_ms_part,
        s[b + 10] == x.sector1_time_minutes_part,
        le_u16(s, b + 11) == x.sector2_time_ms_part,
        s[b + 13] == x.sector2_time_minutes_part,
        le_u16(s, b + 14) == x.delta_to_car_in_front_ms_part,
        s[b + 16] == x.delta_to_car_in_front_minutes_part,
        le_u16(s, b + 17) == x.delta_to_race_leader_ms_part,
        s[b + 19] == x.delta_to_race_leader_minutes_part,
        le_u32(s, b + 20) == x.lap_distance,
        le_u32(s, b + 24) == x.total_distance,
        le_u32(s, b + 28) == x.safety_car_delta,
        s[b + 32] == x.car_position,
        s[b + 33] == x.current_lap_num,
        s[b + 34] == x.pit_status,
        s[b + 35] == x.num_pit_stops,
        s[b + 36] == x.sector,
        s[b + 37] == x.current_lap_invalid,
        s[b + 38] == x.penalties,
        s[b + 39] == x.total_warnings,
        s[b + 40] == x.corner_cutting_warnings,
        s[b + 41] == x.num_unserved_drive_through_pens,
        s[b + 42] == x.num_unserved_stop_go_pens,
        s[b + 43] == x.grid_position,
        s[b + 44] == x.driver_status,
        s[b + 45] == x.result_status,
        s[b + 46] == x.pit_lane_timer_active,
{
    reveal(encode_lap_data_part1);
    let e = encode_lap_data_part1(x);
    assert(e.len() == 47);
    assert forall|i: int| 0 <= i < 47 implies s[b + 0 + i] == #[trigger] e[i] by {
        assert(s.subrange(b + 0, b + 0 + 47)[i] == s[b + 0 + i]);
    }
    assert(e.subrange(0, 4) =~= u32_le_bytes(x.last_lap_time_ms));
    lemma_u32_at(s, e, b + 0, 0, x.last_lap_time_ms);
    assert(e.subrange(4, 8) =~= u32_le_bytes(x.current_lap_time_ms));
    lemma_u32_at(s, e, b + 0, 4, x.current_lap_time_ms);
    assert(e.subrange(8, 10) =~= u16_le_bytes(x.sector1_time_ms_part));
    lemma_u16_at(s, e, b + 0, 8, x.sector1_time_ms_part);
    assert(e[10] == x.sector1_time_minutes_part);
    assert(e.subrange(11, 13) =~= u16_le_bytes(x.sector2_time_ms_part));
    lemma_u16_at(s, e, b + 0, 11, x.sector2_time_ms_part);
    assert(e[13] == x.sector2_time_minutes_part);
    assert(e.subrange(14, 16) =~= u16_le_bytes(x.delta_to_car_in_front_ms_part));
    lemma_u16_at(s, e, b + 0, 14, x.delta_to_car_in_front_ms_part);
    assert(e[16] == x.delta_to_car_in_front_minutes_part);
    assert(e.subrange(17, 19) =~= u16_le_bytes(x.delta_to_race_leader_ms_part));
    lemma_u16_at(s, e, b + 0, 17, x.delta_to_race_leader_ms_part);
    assert(e[19] == x.delta_to_race_leader_minutes_part);
    assert(e.subrange(20, 24) =~= u32_le_bytes(x.lap_distance));
    lemma_u32_at(s, e, b + 0, 20, x.lap_distance);
    assert(e.subrange(24, 28) =~= u32_le_bytes(x.total_distance));
    lemma_u32_at(s, e, b + 0, 24, x.total_distance);
    assert(e.subrange(28, 32) =~= u32_le_bytes(x.safety_car_delta));
    lemma_u32_at(s, e, b + 0, 28, x.safety_car_delta);
    assert(e[32] == x.car_position);
    assert(e[33] == x.current_lap_num);
    assert(e[34] == x.pit_status);
    assert(e[35] == x.num_pit_stops);
    assert(e[36] == x.sector);
    assert(e[37] == x.current_lap_invalid);
    assert(e[38] == x.penalties);
    assert(e[39] == x.total_warnings);
    assert(e[40] == x.corner_cutting_warnings);
    assert(e[41] == x.num_unserved_drive_through_pens);
    assert(e[42] == x.num_unserved_stop_go_pens);
    assert(e[43] == x.grid_position);
    assert(e[44] == x.driver_status);
    assert(e[45] == x.result_status);
    assert(e[46] == x.pit_lane_timer_active);
}

/// The fields `pit_lane_time_in_lane_ms` to `speed_trap_fastest_lap` of a lap data record, encoded as in
/// [`encode_lap_data`].
#[verifier::opaque]
pub open spec fn encode_lap_data_part2(x: LapDataCar) -> Seq<u8> {
    u16_le_bytes(x.pit_lane_time_in_lane_ms)
        + u16_le_bytes(x.pit_stop_timer_ms)
        + seq![x.pit_stop_should_serve_pen]
        + u32_le_bytes(x.speed_trap_fastest_speed)
        + seq![x.speed_trap_fastest_lap]
}

proof fn lemma_lap_data_part2_len(x: LapDataCar)
    ensures
        encode_lap_data_part2(x).len() == 10,
{
    reveal(encode_lap_data_part2);
}

proof fn lemma_lap_data_part2_at(s: Seq<u8>, b: int, x: LapDataCar)
    requires
        0 <= b,
        b + 47 + 10 <= s.len(),
        s.subrange(b + 47, b + 47 + 10) == encode_lap_data_part2(x),
    ensures
        le_u16(s, b + 47) == x.pit_lane_time_in_lane_ms,
        le_u16(s, b + 49) == x.pit_stop_timer_ms,
        s[b + 51] == x.pit_stop_should_serve_pen,
        le_u32(s, b + 52) == x.speed_trap_fastest_speed,
        s[b + 56] == x.speed_trap_fastest_lap,
{
    reveal(encode_lap_data_part2);
    let e = encode_lap_data_part2(x);
    assert(e.len() == 10);
    assert forall|i: int| 0 <= i < 10 implies s[b + 47 + i] == #[trigger] e[i] by {
        assert(s.subrange(b + 47, b + 47 + 10)[i] == s[b + 47 + i]);
    }
    assert(e.subrange(0, 2) =~= u16_le_bytes(x.pit_lane_time_in_lane_ms));
    lemma_u16_at(s, e, b + 47, 0, x.pit_lane_time_in_lane_ms);
    assert(e.subrange(2, 4) =~= u16_le_bytes(x.pit_stop_timer_ms));
    lemma_u16_at(s, e, b + 47, 2, x.pit_stop_timer_ms);
    assert(e[4] == x.pit_stop_should_serve_pen);
    assert(e.subrange(5, 9) =~= u32_le_bytes(x.speed_trap_fastest_speed));
    lemma_u32_at(s, e, b + 47, 5, x.speed_trap_fastest_speed);
    assert(e[9] == x.speed_trap_fastest_lap);
}

/// Decoding a lap data record gives back the one that was encoded: every field
/// is read from its own place.
pub proof fn lemma_lap_data_roundtrip(s: Seq<u8>, b: int, x: LapDataCar)
    requires
        0 <= b,
        b + 57 <= s.len(),
        s.subrange(b, b + 57) == encode_lap_data(x),
    ensures
        spec_lap_data(s, b) == x,
{
    lemma_lap_data_part1_len(x);
    lemma_lap_data_part2_len(x);
    assert(s.subrange(b + 0, b + 0 + 47) == encode_lap_data_part1(x)) by {
        let q1 = encode_lap_data_part1(x);
        assert(encode_lap_data(x) == q1 + encode_lap_data_part2(x));
        lemma_split(s, b, q1, encode_lap_data_part2(x));
    }
    lemma_lap_data_part1_at(s, b, x);
    assert(s.subrange(b + 47, b + 47 + 10) == encode_lap_data_part2(x)) by {
        let q1 = encode_lap_data_part1(x);
        assert(encode_lap_data(x) == q1 + encode_lap_data_part2(x));
        lemma_split(s, b, q1, encode_lap_data_part2(x));
    }
    lemma_lap_data_part2_at(s, b, x);
}

/// The wire form of a car telemetry record: its fields one after the other in
/// declaration order, packed, each little-endian (60 bytes).
pub open spec fn encode_car_telemetry(x: CarTelemetryData) -> Seq<u8> {
    u16_le_bytes(x.speed)
        + u32_le_bytes(x.throttle)
        + u32_le_bytes(x.steer)
        + u32_le_bytes(x.brake)
        + seq![x.clutch]
        + seq![x.gear as u8]
        + u16_le_bytes(x.engine_rpm)
        + seq![x.drs]
        + seq![x.rev_lights_percent]
        + u16_le_bytes(x.rev_lights_bit_value)
        + u16x4_le_bytes(x.brakes_temperature)
        + array4_bytes(x.tyres_surface_temperature)
        + array4_bytes(x.tyres_inner_temperature)
        + u16_le_bytes(x.engine_temperature)
        + u32x4_le_bytes(x.tyres_pressure)
        + array4_bytes(x.surface_type)
}

/// Decoding a car telemetry record gives back the one that was encoded: every field
/// is read from its own place.
pub proof fn lemma_car_telemetry_roundtrip(s: Seq<u8>, b: int, x: CarTelemetryData)
    requires
        0 <= b,
        b + 60 <= s.len(),
        s.subrange(b, b + 60) == encode_car_telemetry(x),
    ensures
        spec_car_telemetry(s, b) == x,
{
    let e = encode_car_telemetry(x);
    assert(e.len() == 60);
    assert forall|i: int| 0 <= i < 60 implies s[b + 0 + i] == #[trigger] e[i] by {
        assert(s.subrange(b + 0, b + 0 + 60)[i] == s[b + 0 + i]);
    }
    assert(e.subrange(0, 2) =~= u16_le_bytes(x.speed));
    lemma_u16_at(s, e, b + 0, 0, x.speed);
    assert(e.subrange(2, 6) =~= u32_le_bytes(x.throttle));
    lemma_u32_at(s, e, b + 0, 2, x.throttle);
    assert(e.subrange(6, 10) =~= u32_le_bytes(x.steer));
    lemma_u32_at(s, e, b + 0, 6, x.steer);
    assert(e.subrange(10, 14) =~= u32_le_bytes(x.brake));
    lemma_u32_at(s, e, b + 0, 10, x.brake);
    assert(e[14] == x.clutch);
    assert(e[15] == x.gear as u8);
    let v = x.gear;
    assert(((v as u8) as i8) == v) by (bit_vector);
    assert(e.subrange(16, 18) =~= u16_le_bytes(x.engine_rpm));
    lemma_u16_at(s, e, b + 0, 16, x.engine_rpm);
    assert(e[18] == x.drs);
    assert(e[19] == x.rev_lights_percent);
    assert(e.subrange(20, 22) =~= u16_le_bytes(x.rev_lights_bit_value));
    lemma_u16_at(s, e, b + 0, 20, x.rev_lights_bit_value);
    assert(e.subrange(22, 24) =~= u16_le_bytes(x.brakes_temperature[0]));
    lemma_u16_at(s, e, b + 0, 22, x.brakes_temperature[0]);
    assert(e.subrange(24, 26) =~= u16_le_bytes(x.brakes_temperature[1]));
    lemma_u16_at(s, e, b + 0, 24, x.brakes_temperature[1]);
    assert(e.subrange(26, 28) =~= u16_le_bytes(x.brakes_temperature[2]));
    lemma_u16_at(s, e, b + 0, 26, x.brakes_temperature[2]);
    assert(e.subrange(28, 30) =~= u16_le_bytes(x.brakes_temperature[3]));
    lemma_u16_at(s, e, b + 0, 28, x.brakes_temperature[3]);
    assert(e[30] == x.tyres_surface_temperature[0]);
    assert(e[31] == x.tyres_surface_temperature[1]);
    assert(e[32] == x.tyres_surface_temperature[2]);
    assert(e[33] == x.tyres_surface_temperature[3]);
    assert(e[34] == x.tyres_inner_temperature[0]);
    assert(e[35] == x.tyres_inner_temperature[1]);
    assert(e[36] == x.tyres_inner_temperature[2]);
    assert(e[37] == x.tyres_inner_temperature[3]);
    assert(e.subrange(38, 40) =~= u16_le_bytes(x.engine_temperature));
    lemma_u16_at(s, e, b + 0, 38, x.engine_temperature);
    assert(e.subrange(40, 44) =~= u32_le_bytes(x.tyres_pressure[0]));
    lemma_u32_at(s, e, b + 0, 40, x.tyres_pressure[0]);
    assert(e.subrange(44, 48) =~= u32_le_bytes(x.tyres_pressure[1]));
    lemma_u32_at(s, e, b + 0, 44, x.tyres_pressure[1]);
    assert(e.subrange(48, 52) =~= u32_le_bytes(x.tyres_pressure[2]));
    lemma_u32_at(s, e, b + 0, 48, x.tyres_pressure[2]);
    assert(e.subrange(52, 56) =~= u32_le_bytes(x.tyres_pressure[3]));
    lemma_u32_at(s, e, b + 0, 52, x.tyres_pressure[3]);
    assert(e[56] == x.surface_type[0]);
    assert(e[57] == x.surface_type[1]);
    assert(e[58] == x.surface_type[2]);
    assert(e[59] == x.surface_type[3]);
    let d = spec_car_telemetry(s, b);
    broadcast use vstd::array::axiom_array_ext_equal;

    assert(d.brakes_temperature =~= x.brakes_temperature);
    assert(d.tyres_surface_temperature =~= x.tyres_surface_temperature);
    assert(d.tyres_inner_temperature =~= x.tyres_inner_temperature);
    assert(d.tyres_pressure =~= x.tyres_pressure);
    assert(d.surface_type =~= x.surface_type);
}

/// The wire form of a car status record: its fields one after the other in
/// declaration order, packed, each little-endian (55 bytes).
pub open spec fn encode_car_status(x: CarStatusData) -> Seq<u8> {
    seq![x.traction_control]
        + seq![x.anti_lock_brakes]
        + seq![x.fuel_mix]
        + seq![x.front_brake_bias]
        + seq![x.pit_limiter_status]
        + u32_le_bytes(x.fuel_in_tank)
        + u32_le_bytes(x.fuel_capacity)
        + u32_le_bytes(x.fuel_remaining_laps)
        + u16_le_bytes(x.max_rpm)
        + u16_le_bytes(x.idle_rpm)
        + seq![x.max_gears]
        + seq![x.drs_allowed]
        + u16_le_bytes(x.drs_activation_distance)
        + seq![x.actual_tyre_compound]
        + seq![x.visual_tyre_compound]
        + seq![x.tyres_age_laps]
        + seq![x.vehicle_fia_flags as u8]
        + u32_le_bytes(x.engine_power_ice)
        + u32_le_bytes(x.engine_power_mguk)
        + u32_le_bytes(x.ers_store_energy)
        + seq![x.ers_deploy_mode]
        + u32_le_bytes(x.ers_harvested_this_lap_mguk)
        + u32_le_bytes(x.ers_harvested_this_lap_mguh)
        + u32_le_bytes(x.ers_deployed_this_lap)
        + seq![x.network_paused]
}

/// Decoding a car status record gives back the one that was encoded: every field
/// is read from its own place.
pub proof fn lemma_car_status_roundtrip(s: Seq<u8>, b: int, x: CarStatusData)
    requires
        0 <= b,
        b + 55 <= s.len(),
        s.subrange(b, b + 55) == encode_car_status(x),
    ensures
        spec_car_status(s, b) == x,
{
    let e = encode_car_status(x);
    assert(e.len() == 55);
    assert forall|i: int| 0 <= i < 55 implies s[b + 0 + i] == #[trigger] e[i] by {
        assert(s.subrange(b + 0, b + 0 + 55)[i] == s[b + 0 + i]);
    }
    assert(e[0] == x.traction_control);
    assert(e[1] == x.anti_lock_brakes);
    assert(e[2] == x.fuel_mix);
    assert(e[3] == x.front_brake_bias);
    assert(e[4] == x.pit_limiter_status);
    assert(e.subrange(5, 9) =~= u32_le_bytes(x.fuel_in_tank));
    lemma_u32_at(s, e, b + 0, 5, x.fuel_in_tank);
    assert(e.subrange(9, 13) =~= u32_le_bytes(x.fuel_capacity));
    lemma_u32_at(s, e, b + 0, 9, x.fuel_capacity);
    assert(e.subrange(13, 17) =~= u32_le_bytes(x.fuel_remaining_laps));
    lemma_u32_at(s, e, b + 0, 13, x.fuel_remaining_laps);
    assert(e.subrange(17, 19) =~= u16_le_bytes(x.max_rpm));
    lemma_u16_at(s, e, b + 0, 17, x.max_rpm);
    assert(e.subrange(19, 21) =~= u16_le_bytes(x.idle_rpm));
    lemma_u16_at(s, e, b + 0, 19, x.idle_rpm);
    assert(e[21] == x.max_gears);
    assert(e[22] == x.drs_allowed);
    assert(e.subrange(23, 25) =~= u16_le_bytes(x.drs_activation_distance));
    lemma_u16_at(s, e, b + 0, 23, x.drs_activation_distance);
    assert(e[25] == x.actual_tyre_compound);
    assert(e[26] == x.visual_tyre_compound);
    assert(e[27] == x.tyres_age_laps);
    assert(e[28] == x.vehicle_fia_flags as u8);
    let v = x.vehicle_fia_flags;
    assert(((v as u8) as i8) == v) by (bit_vector);
    assert(e.subrange(29, 33) =~= u32_le_bytes(x.engine_power_ice));
    lemma_u32_at(s, e, b + 0, 29, x.engine_power_ice);
    assert(e.subrange(33, 37) =~= u32_le_bytes(x.engine_power_mguk));
    lemma_u32_at(s, e, b + 0, 33, x.engine_power_mguk);
    assert(e.subrange(37, 41) =~= u32_le_bytes(x.ers_store_energy));
    lemma_u32_at(s, e, b + 0, 37, x.ers_store_energy);
    assert(e[41] == x.ers_deploy_mode);
    assert(e.subrange(42, 46) =~= u32_le_bytes(x.ers_harvested_this_lap_mguk));
    lemma_u32_at(s, e, b + 0, 42, x.ers_harvested_this_lap_mguk);
    assert(e.subrange(46, 50) =~= u32_le_bytes(x.ers_harvested_this_lap_mguh));
    lemma_u32_at(s, e, b + 0, 46, x.ers_harvested_this_lap_mguh);
    assert(e.subrange(50, 54) =~= u32_le_bytes(x.ers_deployed_this_lap));
    lemma_u32_at(s, e, b + 0, 50, x.ers_deployed_this_lap);
    assert(e[54] == x.network_paused);
}

/// The wire form of the extended motion data: its fields one after the other in
/// declaration order, packed, each little-endian (208 bytes).
pub open spec fn encode_motion_ex(x: MotionExData) -> Seq<u8> {
    encode_motion_ex_part1(x) + encode_motion_ex_part2(x) + encode_motion_ex_part3(x) + encode_motion_ex_part4(x) + encode_motion_ex_part5(x)
}

/// The fields `suspension_position` to `suspension_acceleration` of the extended motion data, encoded as in
/// [`encode_motion_ex`].
#[verifier::opaque]
pub open spec fn encode_motion_ex_part1(x: MotionExData) -> Seq<u8> {
    u32x4_le_bytes(x.suspension_position)
        + u32x4_le_bytes(x.suspension_velocity)
        + u32x4_le_bytes(x.suspension_acceleration)
}

proof fn lemma_motion_ex_part1_len(x: MotionExData)
    ensures
        encode_motion_ex_part1(x).len() == 48,
{
    reveal(encode_motion_ex_part1);
}

proof fn lemma_motion_ex_part1_at(s: Seq<u8>, b: int, x: MotionExData)
    requires
        0 <= b,
        b + 0 + 48 <= s.len(),
        s.subrange(b + 0, b + 0 + 48) == encode_motion_ex_part1(x),
    ensures
        le_u32x4(s, b + 0) == x.suspension_position,
        le_u32x4(s, b + 16) == x.suspension_velocity,
        le_u32x4(s, b + 32) == x.suspension_acceleration,
{
    reveal(encode_motion_ex_part1);
    let e = encode_motion_ex_part1(x);
    assert(e.len() == 48);
    assert forall|i: int| 0 <= i < 48 implies s[b + 0 + i] == #[trigger] e[i] by {
        assert(s.subrange(b + 0, b + 0 + 48)[i] == s[b + 0 + i]);
    }
    assert(e.subrange(0, 4) =~= u32_le_bytes(x.suspension_position[0]));
    lemma_u32_at(s, e, b + 0, 0, x.suspension_position[0]);
    assert(e.subrange(4, 8) =~= u32_le_bytes(x.suspension_position[1]));
    lemma_u32_at(s, e, b + 0, 4, x.suspension_position[1]);
    assert(e.subrange(8, 12) =~= u32_le_bytes(x.suspension_position[2]));
    lemma_u32_at(s, e, b + 0, 8, x.suspension_position[2]);
    assert(e.subrange(12, 16) =~= u32_le_bytes(x.suspension_position[3]));
    lemma_u32_at(s, e, b + 0, 12, x.suspension_position[3]);
    assert(e.subrange(16, 20) =~= u32_le_bytes(x.suspension_velocity[0]));
    lemma_u32_at(s, e, b + 0, 16, x.suspension_velocity[0]);
    assert(e.subrange(20, 24) =~= u32_le_bytes(x.suspension_velocity[1]));
    lemma_u32_at(s, e, b + 0, 20, x.suspension_velocity[1]);
    assert(e.subrange(24, 28) =~= u32_le_bytes(x.suspension_velocity[2]));
    lemma_u32_at(s, e, b + 0, 24, x.suspension_velocity[2]);
    assert(e.subrange(28, 32) =~= u32_le_bytes(x.suspension_velocity[3]));
    lemma_u32_at(s, e, b + 0, 28, x.suspension_velocity[3]);
    assert(e.subrange(32, 36) =~= u32_le_bytes(x.suspension_acceleration[0]));
    lemma_u32_at(s, e, b + 0, 32, x.suspension_acceleration[0]);
    assert(e.subrange(36, 40) =~= u32_le_bytes(x.suspension_acceleration[1]));
    lemma_u32_at(s, e, b + 0, 36, x.suspension_acceleration[1]);
    assert(e.subrange(40, 44) =~= u32_le_bytes(x.suspension_acceleration[2]));
    lemma_u32_at(s, e, b + 0, 40, x.suspension_acceleration[2]);
    assert(e.subrange(44, 48) =~= u32_le_bytes(x.suspension_acceleration[3]));
    lemma_u32_at(s, e, b + 0, 44, x.suspension_acceleration[3]);
    broadcast use vstd::array::axiom_array_ext_equal;

    assert(le_u32x4(s, b + 0) =~= x.suspension_position);
    assert(le_u32x4(s, b + 16) =~= x.suspension_velocity);
    assert(le_u32x4(s, b + 32) =~= x.suspension_acceleration);
}

/// The fields `wheel_speed` to `wheel_slip_angle` of the extended motion data, encoded as in
/// [`encode_motion_ex`].
#[verifier::opaque]
pub open spec fn encode_motion_ex_part2(x: MotionExData) -> Seq<u8> {
    u32x4_le_bytes(x.wheel_speed)
        + u32x4_le_bytes(x.wheel_slip_ratio)
        + u32x4_le_bytes(x.wheel_slip_angle)
}

proof fn lemma_motion_ex_part2_len(x: MotionExData)
    ensures
        encode_motion_ex_part2(x).len() == 48,
{
    reveal(encode_motion_ex_part2);
}

proof fn lemma_motion_ex_part2_at(s: Seq<u8>, b: int, x: MotionExData)
    requires
        0 <= b,
        b + 48 + 48 <= s.len(),
        s.subrange(b + 48, b + 48 + 48) == encode_motion_ex_part2(x),
    ensures
        le_u32x4(s, b + 48) == x.wheel_speed,
        le_u32x4(s, b + 64) == x.wheel_slip_ratio,
        le_u32x4(s, b + 80) == x.wheel_slip_angle,
{
    reveal(encode_motion_ex_part2);
    let e = encode_motion_ex_part2(x);
    assert(e.len() == 48);
    assert forall|i: int| 0 <= i < 48 implies s[b + 48 + i] == #[trigger] e[i] by {
        assert(s.subrange(b + 48, b + 48 + 48)[i] == s[b + 48 + i]);
    }
    assert(e.subrange(0, 4) =~= u32_le_bytes(x.wheel_speed[0]));
    lemma_u32_at(s, e, b + 48, 0, x.wheel_speed[0]);
    assert(e.subrange(4, 8) =~= u32_le_bytes(x.wheel_speed[1]));
    lemma_u32_at(s, e, b + 48, 4, x.wheel_speed[1]);
    assert(e.subrange(8, 12) =~= u32_le_bytes(x.wheel_speed[2]));
    lemma_u32_at(s, e, b + 48, 8, x.wheel_speed[2]);
    assert(e.subrange(12, 16) =~= u32_le_bytes(x.wheel_speed[3]));
    lemma_u32_at(s, e, b + 48, 12, x.wheel_speed[3]);
    assert(e.subrange(16, 20) =~= u32_le_bytes(x.wheel_slip_ratio[0]));
    lemma_u32_at(s, e, b + 48, 16, x.wheel_slip_ratio[0]);
    assert(e.subrange(20, 24) =~= u32_le_bytes(x.wheel_slip_ratio[1]));
    lemma_u32_at(s, e, b + 48, 20, x.wheel_slip_ratio[1]);
    assert(e.subrange(24, 28) =~= u32_le_bytes(x.wheel_slip_ratio[2]));
    lemma_u32_at(s, e, b + 48, 24, x.wheel_slip_ratio[2]);
    assert(e.subrange(28, 32) =~= u32_le_bytes(x.wheel_slip_ratio[3]));
    lemma_u32_at(s, e, b + 48, 28, x.wheel_slip_ratio[3]);
    assert(e.subrange(32, 36) =~= u32_le_bytes(x.wheel_slip_angle[0]));
    lemma_u32_at(s, e, b + 48, 32, x.wheel_slip_angle[0]);
    assert(e.subrange(36, 40) =~= u32_le_bytes(x.wheel_slip_angle[1]));
    lemma_u32_at(s, e, b + 48, 36, x.wheel_slip_angle[1]);
    assert(e.subrange(40, 44) =~= u32_le_bytes(x.wheel_slip_angle[2]));
    lemma_u32_at(s, e, b + 48, 40, x.wheel_slip_angle[2]);
    assert(e.subrange(44, 48) =~= u32_le_bytes(x.wheel_slip_angle[3]));
    lemma_u32_at(s, e, b + 48, 44, x.wheel_slip_angle[3]);
    broadcast use vstd::array::axiom_array_ext_equal;

    assert(le_u32x4(s, b + 48) =~= x.wheel_speed);
    assert(le_u32x4(s, b + 64) =~= x.wheel_slip_ratio);
    assert(le_u32x4(s, b + 80) =~= x.wheel_slip_angle);
}

/// The fields `wheel_lat_force` to `local_velocity_z` of the extended motion data, encoded as in
/// [`encode_motion_ex`].
#[verifier::opaque]
pub open spec fn encode_motion_ex_part3(x: MotionExData) -> Seq<u8> {
    u32x4_le_bytes(x.wheel_lat_force)
        + u32x4_le_bytes(x.wheel_long_force)
        + u32_le_bytes(x.height_of_cog_above_ground)
        + u32_le_bytes(x.local_velocity_x)
        + u32_le_bytes(x.local_velocity_y)
        + u32_le_bytes(x.local_velocity_z)
}

proof fn lemma_motion_ex_part3_len(x: MotionExData)
    ensures
        encode_motion_ex_part3(x).len() == 48,
{
    reveal(encode_motion_ex_part3);
}

proof fn lemma_motion_ex_part3_at(s: Seq<u8>, b: int, x: MotionExData)
    requires
        0 <= b,
        b + 96 + 48 <= s.len(),
        s.subrange(b + 96, b + 96 + 48) == encode_motion_ex_part3(x),
    ensures
        le_u32x4(s, b + 96) == x.wheel_lat_force,
        le_u32x4(s, b + 112) == x.wheel_long_force,
        le_u32(s, b + 128) == x.height_of_cog_above_ground,
        le_u32(s, b + 132) == x.local_velocity_x,
        le_u32(s, b + 136) == x.local_velocity_y,
        le_u32(s, b + 140) == x.local_velocity_z,
{
    reveal(encode_motion_ex_part3);
    let e = encode_motion_ex_part3(x);
    assert(e.len() == 48);
    assert forall|i: int| 0 <= i < 48 implies s[b + 96 + i] == #[trigger] e[i] by {
        assert(s.subrange(b + 96, b + 96 + 48)[i] == s[b + 96 + i]);
    }
    assert(e.subrange(0, 4) =~= u32_le_bytes(x.wheel_lat_force[0]));
    lemma_u32_at(s, e, b + 96, 0, x.wheel_lat_force[0]);
    assert(e.subrange(4, 8) =~= u32_le_bytes(x.wheel_lat_force[1]));
    lemma_u32_at(s, e, b + 96, 4, x.wheel_lat_force[1]);
    assert(e.subrange(8, 12) =~= u32_le_bytes(x.wheel_lat_force[2]));
    lemma_u32_at(s, e, b + 96, 8, x.wheel_lat_force[2]);
    assert(e.subrange(12, 16) =~= u32_le_bytes(x.wheel_lat_force[3]));
    lemma_u32_at(s, e, b + 96, 12, x.wheel_lat_force[3]);
    assert(e.subrange(16, 20) =~= u32_le_bytes(x.wheel_long_force[0]));
    lemma_u32_at(s, e, b + 96, 16, x.wheel_long_force[0]);
    assert(e.subrange(20, 24) =~= u32_le_bytes(x.wheel_long_force[1]));
    lemma_u32_at(s, e, b + 96, 20, x.wheel_long_force[1]);
    assert(e.subrange(24, 28) =~= u32_le_bytes(x.wheel_long_force[2]));
    lemma_u32_at(s, e, b + 96, 24, x.wheel_long_force[2]);
    assert(e.subrange(28, 32) =~= u32_le_bytes(x.wheel_long_force[3]));
    lemma_u32_at(s, e, b + 96, 28, x.wheel_long_force[3]);
    assert(e.subrange(32, 36) =~= u32_le_bytes(x.height_of_cog_above_ground));
    lemma_u32_at(s, e, b + 96, 32, x.height_of_cog_above_ground);
    assert(e.subrange(36, 40) =~= u32_le_bytes(x.local_velocity_x));
    lemma_u32_at(s, e, b + 96, 36, x.local_velocity_x);
    assert(e.subrange(40, 44) =~= u32_le_bytes(x.local_velocity_y));
    lemma_u32_at(s, e, b + 96, 40, x.local_velocity_y);
    assert(e.subrange(44, 48) =~= u32_le_bytes(x.local_velocity_z));
    lemma_u32_at(s, e, b + 96, 44, x.local_velocity_z);
    broadcast use vstd::array::axiom_array_ext_equal;

    assert(le_u32x4(s, b + 96) =~= x.wheel_lat_force);
    assert(le_u32x4(s, b + 112) =~= x.wheel_long_force);
}

/// The fields `angular_velocity_x` to `front_aero_height` of the extended motion data, encoded as in
/// [`encode_motion_ex`].
#[verifier::opaque]
pub open spec fn encode_motion_ex_part4(x: MotionExData) -> Seq<u8> {
    u32_le_bytes(x.angular_velocity_x)
        + u32_le_bytes(x.angular_velocity_y)
        + u32_le_bytes(x.angular_velocity_z)
        + u32_le_bytes(x.angular_acceleration_x)
        + u32_le_bytes(x.angular_acceleration_y)
        + u32_le_bytes(x.angular_acceleration_z)
        + u32_le_bytes(x.front_wheels_angle)
        + u32x4_le_bytes(x.wheel_vert_force)
        + u32_le_bytes(x.front_aero_height)
}

proof fn lemma_motion_ex_part4_len(x: MotionExData)
    ensures
        encode_motion_ex_part4(x).len() == 48,
{
    reveal(encode_motion_ex_part4);
}

proof fn lemma_motion_ex_part4_at(s: Seq<u8>, b: int, x: MotionExData)
    requires
        0 <= b,
        b + 144 + 48 <= s.len(),
        s.subrange(b + 144, b + 144 + 48) == encode_motion_ex_part4(x),
    ensures
        le_u32(s, b + 144) == x.angular_velocity_x,
        le_u32(s, b + 148) == x.angular_velocity_y,
        le_u32(s, b + 152) == x.angular_velocity_z,
        le_u32(s, b + 156) == x.angular_acceleration_x,
        le_u32(s, b + 160) == x.angular_acceleration_y,
        le_u32(s, b + 164) == x.angular_acceleration_z,
        le_u32(s, b + 168) == x.front_wheels_angle,
        le_u32x4(s, b + 172) == x.wheel_vert_force,
        le_u32(s, b + 188) == x.front_aero_height,
{
    reveal(encode_motion_ex_part4);
    let e = encode_motion_ex_part4(x);
    assert(e.len() == 48);
    assert forall|i: int| 0 <= i < 48 implies s[b + 144 + i] == #[trigger] e[i] by {
        assert(s.subrange(b + 144, b + 144 + 48)[i] == s[b + 144 + i]);
    }
    assert(e.subrange(0, 4) =~= u32_le_bytes(x.angular_velocity_x));
    lemma_u32_at(s, e, b + 144, 0, x.angular_velocity_x);
    assert(e.subrange(4, 8) =~= u32_le_bytes(x.angular_velocity_y));
    lemma_u32_at(s, e, b + 144, 4, x.angular_velocity_y);
    assert(e.subrange(8, 12) =~= u32_le_bytes(x.angular_velocity_z));
    lemma_u32_at(s, e, b + 144, 8, x.angular_velocity_z);
    assert(e.subrange(12, 16) =~= u32_le_bytes(x.angular_acceleration_x));
    lemma_u32_at(s, e, b + 144, 12, x.angular_acceleration_x);
    assert(e.subrange(16, 20) =~= u32_le_bytes(x.angular_acceleration_y));
    lemma_u32_at(s, e, b + 144, 16, x.angular_acceleration_y);
    assert(e.subrange(20, 24) =~= u32_le_bytes(x.angular_acceleration_z));
    lemma_u32_at(s, e, b + 144, 20, x.angular_acceleration_z);
    assert(e.subrange(24, 28) =~= u32_le_bytes(x.front_wheels_angle));
    lemma_u32_at(s, e, b + 144, 24, x.front_wheels_angle);
    assert(e.subrange(28, 32) =~= u32_le_bytes(x.wheel_vert_force[0]));
    lemma_u32_at(s, e, b + 144, 28, x.wheel_vert_force[0]);
    assert(e.subrange(32, 36) =~= u32_le_bytes(x.wheel_vert_force[1]));
    lemma_u32_at(s, e, b + 144, 32, x.wheel_vert_force[1]);
    assert(e.subrange(36, 40) =~= u32_le_bytes(x.wheel_vert_force[2]));
    lemma_u32_at(s, e, b + 144, 36, x.wheel_vert_force[2]);
    assert(e.subrange(40, 44) =~= u32_le_bytes(x.wheel_vert_force[3]));
    lemma_u32_at(s, e, b + 144, 40, x.wheel_vert_force[3]);
    assert(e.subrange(44, 48) =~= u32_le_bytes(x.front_aero_height));
    lemma_u32_at(s, e, b + 144, 44, x.front_aero_height);
    broadcast use vstd::array::axiom_array_ext_equal;

    assert(le_u32x4(s, b + 172) =~= x.wheel_vert_force);
}

/// The fields `rear_aero_height` to `chassis_yaw` of the extended motion data, encoded as in
/// [`encode_motion_ex`].
#[verifier::opaque]
pub open spec fn encode_motion_ex_part5(x: MotionExData) -> Seq<u8> {
    u32_le_bytes(x.rear_aero_height)
        + u32_le_bytes(x.front_roll_angle)
        + u32_le_bytes(x.rear_roll_angle)
        + u32_le_bytes(x.chassis_yaw)
}

proof fn lemma_motion_ex_part5_len(x: MotionExData)
    ensures
        encode_motion_ex_part5(x).len() == 16,
{
    reveal(encode_motion_ex_part5);
}

proof fn lemma_motion_ex_part5_at(s: Seq<u8>, b: int, x: MotionExData)
    requires
        0 <= b,
        b + 192 + 16 <= s.len(),
        s.subrange(b + 192, b + 192 + 16) == encode_motion_ex_part5(x),
    ensures
        le_u32(s, b + 192) == x.rear_aero_height,
        le_u32(s, b + 196) == x.front_roll_angle,
        le_u32(s, b + 200) == x.rear_roll_angle,
        le_u32(s, b + 204) == x.chassis_yaw,
{
    reveal(encode_motion_ex_part5);
    let e = encode_motion_ex_part5(x);
    assert(e.len() == 16);
    assert forall|i: int| 0 <= i < 16 implies s[b + 192 + i] == #[trigger] e[i] by {
        assert(s.subrange(b + 192, b + 192 + 16)[i] == s[b + 192 + i]);
    }
    assert(e.subrange(0, 4) =~= u32_le_bytes(x.rear_aero_height));
    lemma_u32_at(s, e, b + 192, 0, x.rear_aero_height);
    assert(e.subrange(4, 8) =~= u32_le_bytes(x.front_roll_angle));
    lemma_u32_at(s, e, b + 192, 4, x.front_roll_angle);
    assert(e.subrange(8, 12) =~= u32_le_bytes(x.rear_roll_angle));
    lemma_u32_at(s, e, b + 192, 8, x.rear_roll_angle);
    assert(e.subrange(12, 16) =~= u32_le_bytes(x.chassis_yaw));
    lemma_u32_at(s, e, b + 192, 12, x.chassis_yaw);
}

/// Decoding the extended motion data gives back the one that was encoded: every field
/// is read from its own place.
pub proof fn lemma_motion_ex_roundtrip(s: Seq<u8>, b: int, x: MotionExData)
    requires
        0 <= b,
        b + 208 <= s.len(),
        s.subrange(b, b + 208) == encode_motion_ex(x),
    ensures
        spec_motion_ex(s, b) == x,
{
    lemma_motion_ex_part1_len(x);
    lemma_motion_ex_part2_len(x);
    lemma_motion_ex_part3_len(x);
    lemma_motion_ex_part4_len(x);
    lemma_motion_ex_part5_len(x);
    assert(s.subrange(b + 0, b + 0 + 48) == encode_motion_ex_part1(x)) by {
        let q4 = encode_motion_ex_part1(x) + encode_motion_ex_part2(x) + encode_motion_ex_part3(x) + encode_motion_ex_part4(x);
        assert(encode_motion_ex(x) == q4 + encode_motion_ex_part5(x));
        lemma_split(s, b, q4, encode_motion_ex_part5(x));
        let q3 = encode_motion_ex_part1(x) + encode_motion_ex_part2(x) + encode_motion_ex_part3(x);
        assert(q4 == q3 + encode_motion_ex_part4(x));
        lemma_split(s, b, q3, encode_motion_ex_part4(x));
        let q2 = encode_motion_ex_part1(x) + encode_motion_ex_part2(x);
        assert(q3 == q2 + encode_motion_ex_part3(x));
        lemma_split(s, b, q2, encode_motion_ex_part3(x));
        let q1 = encode_motion_ex_part1(x);
        assert(q2 == q1 + encode_motion_ex_part2(x));
        lemma_split(s, b, q1, encode_motion_ex_part2(x));
    }
    lemma_motion_ex_part1_at(s, b, x);
    assert(s.subrange(b + 48, b + 48 + 48) == encode_motion_ex_part2(x)) by {
        let q4 = encode_motion_ex_part1(x) + encode_motion_ex_part2(x) + encode_motion_ex_part3(x) + encode_motion_ex_part4(x);
        assert(encode_motion_ex(x) == q4 + encode_motion_ex_part5(x));
        lemma_split(s, b, q4, encode_motion_ex_part5(x));
        let q3 = encode_motion_ex_part1(x) + encode_motion_ex_part2(x) + encode_motion_ex_part3(x);
        assert(q4 == q3 + encode_motion_ex_part4(x));
        lemma_split(s, b, q3, encode_motion_ex_part4(x));
        let q2 = encode_motion_ex_part1(x) + encode_motion_ex_part2(x);
        assert(q3 == q2 + encode_motion_ex_part3(x));
        lemma_split(s, b, q2, encode_motion_ex_part3(x));
        let q1 = encode_motion_ex_part1(x);
        assert(q2 == q1 + encode_motion_ex_part2(x));
        lemma_split(s, b, q1, encode_motion_ex_part2(x));
    }
    lemma_motion_ex_part2_at(s, b, x);
    assert(s.subrange(b + 96, b + 96 + 48) == encode_motion_ex_part3(x)) by {
        let q4 = encode_motion_ex_part1(x) + encode_motion_ex_part2(x) + encode_motion_ex_part3(x) + encode_motion_ex_part4(x);
        assert(encode_motion_ex(x) == q4 + encode_motion_ex_part5(x));
        lemma_split(s, b, q4, encode_motion_ex_part5(x));
        let q3 = encode_motion_ex_part1(x) + encode_motion_ex_part2(x) + encode_motion_ex_part3(x);
        assert(q4 == q3 + encode_motion_ex_part4(x));
        lemma_split(s, b, q3, encode_motion_ex_part4(x));
        let q2 = encode_motion_ex_part1(x) + encode_motion_ex_part2(x);
        assert(q3 == q2 + encode_motion_ex_part3(x));
        lemma_split(s, b, q2, encode_motion_ex_part3(x));
    }
    lemma_motion_ex_part3_at(s, b, x);
    assert(s.subrange(b + 144, b + 144 + 48) == encode_motion_ex_part4(x)) by {
        let q4 = encode_motion_ex_part1(x) + encode_motion_ex_part2(x) + encode_motion_ex_part3(x) + encode_motion_ex_part4(x);
        assert(encode_motion_ex(x) == q4 + encode_motion_ex_part5(x));
        lemma_split(s, b, q4, encode_motion_ex_part5(x));
        let q3 = encode_motion_ex_part1(x) + encode_motion_ex_part2(x) + encode_motion_ex_part3(x);
        assert(q4 == q3 + encode_motion_ex_part4(x));
        lemma_split(s, b, q3, encode_motion_ex_part4(x));
    }
    lemma_motion_ex_part4_at(s, b, x);
    assert(s.subrange(b + 192, b + 192 + 16) == encode_motion_ex_part5(x)) by {
        let q4 = encode_motion_ex_part1(x) + encode_motion_ex_part2(x) + encode_motion_ex_part3(x) + encode_motion_ex_part4(x);
        assert(encode_motion_ex(x) == q4 + encode_motion_ex_part5(x));
        lemma_split(s, b, q4, encode_motion_ex_part5(x));
    }
    lemma_motion_ex_part5_at(s, b, x);
}

/// Offset of the record of car `index` in a per-car array of `size`-byte records.
pub open spec fn car_offset(index: u8, size: usize) -> int {
    HEADER_SIZE + index * size
}

fn read_u16x4(data: &[u8], off: usize) -> (r: [u16; 4])
    requires
        off + 8 <= data.len(),
    ensures
        r == le_u16x4(data@, off as int),
{
    [read_u16(data, off), read_u16(data, off + 2), read_u16(data, off + 4), read_u16(data, off + 6)]
}

fn read_u32x4(data: &[u8], off: usize) -> (r: [u32; 4])
    requires
        off + 16 <= data.len(),
    ensures
        r == le_u32x4(data@, off as int),
{
    [read_u32(data, off), read_u32(data, off + 4), read_u32(data, off + 8), read_u32(data, off + 12)]
}

fn read_bytes4(data: &[u8], off: usize) -> (r: [u8; 4])
    requires
        off + 4 <= data.len(),
    ensures
        r == bytes4(data@, off as int),
{
    [data[off], data[off + 1], data[off + 2], data[off + 3]]
}

/// Parse the packet header from raw bytes.
pub fn parse_header(data: &[u8]) -> (r: Option<PacketHeader>)
    ensures
        r is Some <==> data@.len() >= HEADER_SIZE,
        r matches Some(h) ==> h == spec_header(data@),
{
    if data.len() < HEADER_SIZE {
        return None;
    }
    Some(PacketHeader {
        packet_format: read_u16(data, 0),
        game_year: data[2],
        game_major_version: data[3],
        game_minor_version: data[4],
        packet_version: data[5],
        packet_id: data[6],
        session_uid: read_u64(data, 7),
        session_time: read_u32(data, 15),
        frame_identifier: read_u32(data, 19),
        overall_frame_identifier: read_u32(data, 23),
        player_car_index: data[27],
        secondary_player_car_index: data[28],
    })
}

/// Parse the motion data of car `player_index`.
pub fn parse_player_motion(data: &[u8], player_index: u8) -> (r: Option<CarMotionData>)
    ensures
        r is Some <==> data@.len() >= car_offset(player_index, CAR_MOTION_SIZE) + CAR_MOTION_SIZE,
        r matches Some(m) ==> m == spec_car_motion(data@, car_offset(player_index, CAR_MOTION_SIZE)),
{
    let b = HEADER_SIZE + (player_index as usize) * CAR_MOTION_SIZE;
    let end = b + CAR_MOTION_SIZE;
    if data.len() < end {
        return None;
    }
    Some(CarMotionData {
        world_position_x: read_u32(data, b),
        world_position_y: read_u32(data, b + 4),
        world_position_z: read_u32(data, b + 8),
        world_velocity_x: read_u32(data, b + 12),
        world_velocity_y: read_u32(data, b + 16),
        world_velocity_z: read_u32(data, b + 20),
        world_forward_dir_x: read_u16(data, b + 24) as i16,
        world_forward_dir_y: read_u16(data, b + 26) as i16,
        world_forward_dir_z: read_u16(data, b + 28) as i16,
        world_right_dir_x: read_u16(data, b + 30) as i16,
        world_right_dir_y: read_u16(data, b + 32) as i16,
        world_right_dir_z: read_u16(data, b + 34) as i16,
        g_force_lateral: read_u32(data, b + 36),
        g_force_longitudinal: read_u32(data, b + 40),
        g_force_vertical: read_u32(data, b + 44),
        yaw: read_u32(data, b + 48),
        pitch: read_u32(data, b + 52),
        roll: read_u32(data, b + 56),
    })
}

/// Parse the session data fields that follow the header.
pub fn parse_session_data(data: &[u8]) -> (r: Option<SessionDataHeader>)
    ensures
        r is Some <==> data@.len() >= HEADER_SIZE + SESSION_DATA_SIZE,
        r matches Some(d) ==> d == spec_session_data(data@, HEADER_SIZE as int),
{
    let b = HEADER_SIZE;
    if data.len() < b + SESSION_DATA_SIZE {
        return None;
    }
    Some(SessionDataHeader {
        weather: data[b],
        track_temperature: data[b + 1] as i8,
        air_temperature: data[b + 2] as i8,
        total_laps: data[b + 3],
        track_length: read_u16(data, b + 4),
        session_type: data[b + 6],
        track_id: data[b + 7] as i8,
        formula: data[b + 8],
        session_time_left: read_u16(data, b + 9),
        session_duration: read_u16(data, b + 11),
        pit_speed_limit: data[b + 13],
        game_paused: data[b + 14],
        is_spectating: data[b + 15],
        spectator_car_index: data[b + 16],
        sli_pro_native_support: data[b + 17],
        num_marshal_zones: data[b + 18],
    })
}

/// Parse the lap data of car `player_index`.
pub fn parse_player_lap_data(data: &[u8], player_index: u8) -> (r: Option<LapDataCar>)
    ensures
        r is Some <==> data@.len() >= car_offset(player_index, LAP_DATA_SIZE) + LAP_DATA_SIZE,
        r matches Some(l) ==> l == spec_lap_data(data@, car_offset(player_index, LAP_DATA_SIZE)),
{
    let b = HEADER_SIZE + (player_index as usize) * LAP_DATA_SIZE;
    let end = b + LAP_DATA_SIZE;
    if data.len() < end {
        return None;
    }
    Some(LapDataCar {
        last_lap_time_ms: read_u32(data, b),
        current_lap_time_ms: read_u32(data, b + 4),
        sector1_time_ms_part: read_u16(data, b + 8),
        sector1_time_minutes_part: data[b + 10],
        sector2_time_ms_part: read_u16(data, b + 11),
        sector2_time_minutes_part: data[b + 13],
        delta_to_car_in_front_ms_part: read_u16(data, b + 14),
        delta_to_car_in_front_minutes_part: data[b + 16],
        delta_to_race_leader_ms_part: read_u16(data, b + 17),
        delta_to_race_leader_minutes_part: data[b + 19],
        lap_distance: read_u32(data, b + 20),
        total_distance: read_u32(data, b + 24),
        safety_car_delta: read_u32(data, b + 28),
        car_position: data[b + 32],
        current_lap_num: data[b + 33],
        pit_status: data[b + 34],
        num_pit_stops: data[b + 35],
        sector: data[b + 36],
        current_lap_invalid: data[b + 37],
        penalties: data[b + 38],
        total_warnings: data[b + 39],
        corner_cutting_warnings: data[b + 40],
        num_unserved_drive_through_pens: data[b + 41],
        num_unserved_stop_go_pens: data[b + 42],
        grid_position: data[b + 43],
        driver_status: data[b + 44],
        result_status: data[b + 45],
        pit_lane_timer_active: data[b + 46],
        pit_lane_time_in_lane_ms: read_u16(data, b + 47),
        pit_stop_timer_ms: read_u16(data, b + 49),
        pit_stop_should_serve_pen: data[b + 51],
        speed_trap_fastest_speed: read_u32(data, b + 52),
        speed_trap_fastest_lap: data[b + 56],
    })
}

/// Parse the telemetry data of car `player_index`.
pub fn parse_player_car_telemetry(data: &[u8], player_index: u8) -> (r: Option<CarTelemetryData>)
    ensures
        r is Some <==> data@.len() >= car_offset(player_index, CAR_TELEMETRY_SIZE) + CAR_TELEMETRY_SIZE,
        r matches Some(t) ==> t == spec_car_telemetry(data@, car_offset(player_index, CAR_TELEMETRY_SIZE)),
{
    let b = HEADER_SIZE + (player_index as usize) * CAR_TELEMETRY_SIZE;
    let end = b + CAR_TELEMETRY_SIZE;
    if data.len() < end {
        return None;
    }
    Some(CarTelemetryData {
        speed: read_u16(data, b),
        throttle: read_u32(data, b + 2),
        steer: read_u32(data, b + 6),
        brake: read_u32(data, b + 10),
        clutch: data[b + 14],
        gear: data[b + 15] as i8,
        engine_rpm: read_u16(data, b + 16),
        drs: data[b + 18],
        rev_lights_percent: data[b + 19],
        rev_lights_bit_value: read_u16(data, b + 20),
        brakes_temperature: read_u16x4(data, b + 22),
        tyres_surface_temperature: read_bytes4(data, b + 30),
        tyres_inner_temperature: read_bytes4(data, b + 34),
        engine_temperature: read_u16(data, b + 38),
        tyres_pressure: read_u32x4(data, b + 40),
        surface_type: read_bytes4(data, b + 56),
    })
}

/// Parse the status data of car `player_index`.
pub fn parse_player_car_status(data: &[u8], player_index: u8) -> (r: Option<CarStatusData>)
    ensures
        r is Some <==> data@.len() >= car_offset(player_index, CAR_STATUS_SIZE) + CAR_STATUS_SIZE,
        r matches Some(st) ==> st == spec_car_status(data@, car_offset(player_index, CAR_STATUS_SIZE)),
{
    let b = HEADER_SIZE + (player_index as usize) * CAR_STATUS_SIZE;
    let end = b + CAR_STATUS_SIZE;
    if data.len() < end {
        return None;
    }
    Some(CarStatusData {
        traction_control: data[b],
        anti_lock_brakes: data[b + 1],
        fuel_mix: data[b + 2],
        front_brake_bias: data[b + 3],
        pit_limiter_status: data[b + 4],
        fuel_in_tank: read_u32(data, b + 5),
        fuel_capacity: read_u32(data, b + 9),
        fuel_remaining_laps: read_u32(data, b + 13),
        max_rpm: read_u16(data, b + 17),
        idle_rpm: read_u16(data, b + 19),
        max_gears: data[b + 21],
        drs_allowed: data[b + 22],
        drs_activation_distance: read_u16(data, b + 23),
        actual_tyre_compound: data[b + 25],
        visual_tyre_compound: data[b + 26],
        tyres_age_laps: data[b + 27],
        vehicle_fia_flags: data[b + 28] as i8,
        engine_power_ice: read_u32(data, b + 29),
        engine_power_mguk: read_u32(data, b + 33),
        ers_store_energy: read_u32(data, b + 37),
        ers_deploy_mode: data[b + 41],
        ers_harvested_this_lap_mguk: read_u32(data, b + 42),
        ers_harvested_this_lap_mguh: read_u32(data, b + 46),
        ers_deployed_this_lap: read_u32(data, b + 50),
        network_paused: data[b + 54],
    })
}

/// Parse the extended motion data (player car only, no per-car offset).
pub fn parse_motion_ex(data: &[u8]) -> (r: Option<MotionExData>)
    ensures
        r is Some <==> data@.len() >= HEADER_SIZE + MOTION_EX_SIZE,
        r matches Some(ex) ==> ex == spec_motion_ex(data@, HEADER_SIZE as int),
{
    let b = HEADER_SIZE;
    if data.len() < b + MOTION_EX_SIZE {
        return None;
    }
    Some(MotionExData {
        suspension_position: read_u32x4(data, b),
        suspension_velocity: read_u32x4(data, b + 16),
        suspension_acceleration: read_u32x4(data, b + 32),
        wheel_speed: read_u32x4(data, b + 48),
        wheel_slip_ratio: read_u32x4(data, b + 64),
        wheel_slip_angle: read_u32x4(data, b + 80),
        wheel_lat_force: read_u32x4(data, b + 96),
        wheel_long_force: read_u32x4(data, b + 112),
        height_of_cog_above_ground: read_u32(data, b + 128),
        local_velocity_x: read_u32(data, b + 132),
        local_velocity_y: read_u32(data, b + 136),
        local_velocity_z: read_u32(data, b + 140),
        angular_velocity_x: read_u32(data, b + 144),
        angular_velocity_y: read_u32(data, b + 148),
        angular_velocity_z: read_u32(data, b + 152),
        angular_acceleration_x: read_u32(data, b + 156),
        angular_acceleration_y: read_u32(data, b + 160),
        angular_acceleration_z: read_u32(data, b + 164),
        front_wheels_angle: read_u32(data, b + 168),
        wheel_vert_force: read_u32x4(data, b + 172),
        front_aero_height: read_u32(data, b + 188),
        rear_aero_height: read_u32(data, b + 192),
        front_roll_angle: read_u32(data, b + 196),
        rear_roll_angle: read_u32(data, b + 200),
        chassis_yaw: read_u32(data, b + 204),
    })
}

/// Parse the event code (4 ASCII bytes after the header).
pub fn parse_event_code(data: &[u8]) -> (r: Option<[u8; 4]>)
    ensures
        r is Some <==> data@.len() >= HEADER_SIZE + 4,
        r matches Some(code) ==> code == bytes4(data@, HEADER_SIZE as int),
{
    let offset = HEADER_SIZE;
    if data.len() < offset + 4 {
        return None;
    }
    Some(read_bytes4(data, offset))
}

} // verus!
