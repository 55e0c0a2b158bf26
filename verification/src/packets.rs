//! F1 24 UDP packet definitions.
//!
//! The structs mirror the packed little-endian wire layout of the game's
//! packets. Fields that the game sends as IEEE-754 `f32` are held here as
//! their raw 32-bit patterns (`f32::to_bits`); the library copies them but
//! never computes with them.

use vstd::prelude::*;

pub mod event_codes;

verus! {

/// Packet type identifiers.
#[derive(Debug, Clone, Copy, PartialEq, Eq, Structural)]
pub enum PacketId {
    Motion,
    Session,
    LapData,
    Event,
    Participants,
    CarSetups,
    CarTelemetry,
    CarStatus,
    FinalClassification,
    LobbyInfo,
    CarDamage,
    SessionHistory,
    TyreSets,
    MotionEx,
    TimeTrial,
}

/// The byte that identifies each packet type on the wire.
pub open spec fn packet_id_code(p: PacketId) -> u8 {
    match p {
        PacketId::Motion => 0,
        PacketId::Session => 1,
        PacketId::LapData => 2,
        PacketId::Event => 3,
        PacketId::Participants => 4,
        PacketId::CarSetups => 5,
        PacketId::CarTelemetry => 6,
        PacketId::CarStatus => 7,
        PacketId::FinalClassification => 8,
        PacketId::LobbyInfo => 9,
        PacketId::CarDamage => 10,
        PacketId::SessionHistory => 11,
        PacketId::TyreSets => 12,
        PacketId::MotionEx => 13,
        PacketId::TimeTrial => 14,
    }
}

impl PacketId {
    /// The packet type whose wire code is `v`, if there is one.
    pub fn from_u8(v: u8) -> (r: Option<Self>)
        ensures
            r is Some <==> v <= 14,
            r matches Some(p) ==> packet_id_code(p) == v,
    {
        match v {
            0 => Some(Self::Motion),
            1 => Some(Self::Session),
            2 => Some(Self::LapData),
            3 => Some(Self::Event),
            4 => Some(Self::Participants),
            5 => Some(Self::CarSetups),
            6 => Some(Self::CarTelemetry),
            7 => Some(Self::CarStatus),
            8 => Some(Self::FinalClassification),
            9 => Some(Self::LobbyInfo),
            10 => Some(Self::CarDamage),
            11 => Some(Self::SessionHistory),
            12 => Some(Self::TyreSets),
            13 => Some(Self::MotionEx),
            14 => Some(Self::TimeTrial),
            _ => None,
        }
    }
}

/// Every packet type has a distinct wire code, so a code names at most one type.
pub proof fn lemma_packet_id_code_injective(p: PacketId, q: PacketId)
    ensures
        packet_id_code(p) == packet_id_code(q) ==> p == q,
{
}


/// Size in bytes of the common packet header.
pub const HEADER_SIZE: usize = 29;

/// Number of car slots in the per-car packet arrays.
pub const NUM_CARS: usize = 22;

/// Size in bytes of one car's motion data.
pub const CAR_MOTION_SIZE: usize = 60;

/// Size in bytes of the session data fields read after the header.
pub const SESSION_DATA_SIZE: usize = 19;

/// Size in bytes of one car's lap data.
pub const LAP_DATA_SIZE: usize = 57;

/// Size in bytes of one car's telemetry data.
pub const CAR_TELEMETRY_SIZE: usize = 60;

/// Size in bytes of one car's status data.
pub const CAR_STATUS_SIZE: usize = 55;

/// Size in bytes of the extended motion data of the player's car.
pub const MOTION_EX_SIZE: usize = 208;

/// Common header for all F1 24 UDP packets (29 bytes).
#[derive(Debug, Clone, Copy)]
pub struct PacketHeader {
    pub packet_format: u16,
    pub game_year: u8,
    pub game_major_version: u8,
    pub game_minor_version: u8,
    pub packet_version: u8,
    pub packet_id: u8,
    pub session_uid: u64,
    /// Session time in seconds (`f32` bits).
    pub session_time: u32,
    pub frame_identifier: u32,
    pub overall_frame_identifier: u32,
    pub player_car_index: u8,
    pub secondary_player_car_index: u8,
}

/// Per-car motion data (60 bytes per car). Floating-point fields are `f32` bits.
#[derive(Debug, Clone, Copy)]
pub struct CarMotionData {
    pub world_position_x: u32,
    pub world_position_y: u32,
    pub world_position_z: u32,
    pub world_velocity_x: u32,
    pub world_velocity_y: u32,
    pub world_velocity_z: u32,
    pub world_forward_dir_x: i16,
    pub world_forward_dir_y: i16,
    pub world_forward_dir_z: i16,
    pub world_right_dir_x: i16,
    pub world_right_dir_y: i16,
    pub world_right_dir_z: i16,
    pub g_force_lateral: u32,
    pub g_force_longitudinal: u32,
    pub g_force_vertical: u32,
    pub yaw: u32,
    pub pitch: u32,
    pub roll: u32,
}

/// Session data header fields (first portion of the session packet after the header).
#[derive(Debug, Clone, Copy)]
pub struct SessionDataHeader {
    pub weather: u8,
    pub track_temperature: i8,
    pub air_temperature: i8,
    pub total_laps: u8,
    pub track_length: u16,
    pub session_type: u8,
    pub track_id: i8,
    pub formula: u8,
    pub session_time_left: u16,
    pub session_duration: u16,
    pub pit_speed_limit: u8,
    pub game_paused: u8,
    pub is_spectating: u8,
    pub spectator_car_index: u8,
    pub sli_pro_native_support: u8,
    pub num_marshal_zones: u8,
}

/// Per-car lap data. Sector times are split into a millisecond part and a
/// minutes part. Floating-point fields are `f32` bits.
#[derive(Debug, Clone, Copy)]
pub struct LapDataCar {
    pub last_lap_time_ms: u32,
    pub current_lap_time_ms: u32,
    pub sector1_time_ms_part: u16,
    pub sector1_time_minutes_part: u8,
    pub sector2_time_ms_part: u16,
    pub sector2_time_minutes_part: u8,
    pub delta_to_car_in_front_ms_part: u16,
    pub delta_to_car_in_front_minutes_part: u8,
    pub delta_to_race_leader_ms_part: u16,
    pub delta_to_race_leader_minutes_part: u8,
    pub lap_distance: u32,
    pub total_distance: u32,
    pub safety_car_delta: u32,
    pub car_position: u8,
    pub current_lap_num: u8,
    pub pit_status: u8,
    pub num_pit_stops: u8,
    pub sector: u8,
    pub current_lap_invalid: u8,
    pub penalties: u8,
    pub total_warnings: u8,
    pub corner_cutting_warnings: u8,
    pub num_unserved_drive_through_pens: u8,
    pub num_unserved_stop_go_pens: u8,
    pub grid_position: u8,
    pub driver_status: u8,
    pub result_status: u8,
    pub pit_lane_timer_active: u8,
    pub pit_lane_time_in_lane_ms: u16,
    pub pit_stop_timer_ms: u16,
    pub pit_stop_should_serve_pen: u8,
    pub speed_trap_fastest_speed: u32,
    pub speed_trap_fastest_lap: u8,
}

/// Per-car telemetry data. Wheel arrays are ordered RL, RR, FL, FR.
/// Floating-point fields are `f32` bits.
#[derive(Debug, Clone, Copy)]
pub struct CarTelemetryData {
    pub speed: u16,
    pub throttle: u32,
    pub steer: u32,
    pub brake: u32,
    pub clutch: u8,
    pub gear: i8,
    pub engine_rpm: u16,
    pub drs: u8,
    pub rev_lights_percent: u8,
    pub rev_lights_bit_value: u16,
    pub brakes_temperature: [u16; 4],
    pub tyres_surface_temperature: [u8; 4],
    pub tyres_inner_temperature: [u8; 4],
    pub engine_temperature: u16,
    pub tyres_pressure: [u32; 4],
    pub surface_type: [u8; 4],
}

/// Per-car status data. Floating-point fields are `f32` bits.
#[derive(Debug, Clone, Copy)]
pub struct CarStatusData {
    pub traction_control: u8,
    pub anti_lock_brakes: u8,
    pub fuel_mix: u8,
    pub front_brake_bias: u8,
    pub pit_limiter_status: u8,
    pub fuel_in_tank: u32,
    pub fuel_capacity: u32,
    pub fuel_remaining_laps: u32,
    pub max_rpm: u16,
    pub idle_rpm: u16,
    pub max_gears: u8,
    pub drs_allowed: u8,
    pub drs_activation_distance: u16,
    pub actual_tyre_compound: u8,
    pub visual_tyre_compound: u8,
    pub tyres_age_laps: u8,
    pub vehicle_fia_flags: i8,
    pub engine_power_ice: u32,
    pub engine_power_mguk: u32,
    pub ers_store_energy: u32,
    pub ers_deploy_mode: u8,
    pub ers_harvested_this_lap_mguk: u32,
    pub ers_harvested_this_lap_mguh: u32,
    pub ers_deployed_this_lap: u32,
    pub network_paused: u8,
}

/// Extended motion data of the player's car. Wheel arrays are ordered
/// RL, RR, FL, FR. All values are `f32` bits.
#[derive(Debug, Clone, Copy)]
pub struct MotionExData {
    pub suspension_position: [u32; 4],
    pub suspension_velocity: [u32; 4],
    pub suspension_acceleration: [u32; 4],
    pub wheel_speed: [u32; 4],
    pub wheel_slip_ratio: [u32; 4],
    pub wheel_slip_angle: [u32; 4],
    pub wheel_lat_force: [u32; 4],
    pub wheel_long_force: [u32; 4],
    pub height_of_cog_above_ground: u32,
    pub local_velocity_x: u32,
    pub local_velocity_y: u32,
    pub local_velocity_z: u32,
    pub angular_velocity_x: u32,
    pub angular_velocity_y: u32,
    pub angular_velocity_z: u32,
    pub angular_acceleration_x: u32,
    pub angular_acceleration_y: u32,
    pub angular_acceleration_z: u32,
    pub front_wheels_angle: u32,
    pub wheel_vert_force: [u32; 4],
    pub front_aero_height: u32,
    pub rear_aero_height: u32,
    pub front_roll_angle: u32,
    pub rear_roll_angle: u32,
    pub chassis_yaw: u32,
}

} // verus!
