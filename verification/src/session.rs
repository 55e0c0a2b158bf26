//! Session state management.
//!
//! Tracks the session lifecycle, accumulates telemetry samples (one per
//! game frame, merged from several packets) and detects lap completions.

use vstd::prelude::*;
use vstd::utf8::{decode_utf8, valid_utf8};

use crate::ids::{is_rfc3339_utc_text, is_uuid_v4_text, new_uuid_string, now_rfc3339};
use crate::packets::{
    CarMotionData, CarStatusData, CarTelemetryData, LapDataCar, MotionExData, SessionDataHeader,
};
use crate::text::{decimal, decode_lossy, is_ascii_text, push_decimal, utf8_lossy};

verus! {

/// Immutable session metadata.
#[derive(Debug, Clone)]
pub struct SessionMeta {
    pub session_id: String,
    pub session_uid: u64,
    pub track_id: i8,
    pub session_type: u8,
    pub weather: u8,
    pub air_temperature: i8,
    pub track_temperature: i8,
    pub total_laps: u8,
    pub start_time: String,
    pub game_version: String,
}

/// The value of a [`SessionMeta`], with its strings as char sequences.
pub struct SessionMetaView {
    pub session_id: Seq<char>,
    pub session_uid: u64,
    pub track_id: i8,
    pub session_type: u8,
    pub weather: u8,
    pub air_temperature: i8,
    pub track_temperature: i8,
    pub total_laps: u8,
    pub start_time: Seq<char>,
    pub game_version: Seq<char>,
}

impl View for SessionMeta {
    type V = SessionMetaView;

    open spec fn view(&self) -> SessionMetaView {
        SessionMetaView {
            session_id: self.session_id@,
            session_uid: self.session_uid,
            track_id: self.track_id,
            session_type: self.session_type,
            weather: self.weather,
            air_temperature: self.air_temperature,
            track_temperature: self.track_temperature,
            total_laps: self.total_laps,
            start_time: self.start_time@,
            game_version: self.game_version@,
        }
    }
}

/// Completed lap record. Sector times are whole milliseconds.
#[derive(Debug, Clone)]
pub struct LapRecord {
    pub lap_id: String,
    pub session_id: String,
    pub lap_number: u8,
    pub lap_time_ms: u32,
    pub sector1_ms: u32,
    pub sector2_ms: u32,
    pub sector3_ms: u32,
    pub position: u8,
    pub penalties: u8,
    pub warnings: u8,
}

/// The value of a [`LapRecord`], with its strings as char sequences.
pub struct LapRecordView {
    pub lap_id: Seq<char>,
    pub session_id: Seq<char>,
    pub lap_number: u8,
    pub lap_time_ms: u32,
    pub sector1_ms: u32,
    pub sector2_ms: u32,
    pub sector3_ms: u32,
    pub position: u8,
    pub penalties: u8,
    pub warnings: u8,
}

impl View for LapRecord {
    type V = LapRecordView;

    open spec fn view(&self) -> LapRecordView {
        LapRecordView {
            lap_id: self.lap_id@,
            session_id: self.session_id@,
            lap_number: self.lap_number,
            lap_time_ms: self.lap_time_ms,
            sector1_ms: self.sector1_ms,
            sector2_ms: self.sector2_ms,
            sector3_ms: self.sector3_ms,
            position: self.position,
            penalties: self.penalties,
            warnings: self.warnings,
        }
    }
}

/// A single telemetry sample (one frame, merged from multiple packets).
///
/// Values the game sends as `f32` are held as their bit patterns.
/// Wheel-indexed values are stored per corner (front/rear, left/right).
#[derive(Debug, Clone, Copy)]
pub struct TelemetrySample {
    pub timestamp: u32,
    pub frame: u32,
    pub lap_number: u8,
    pub lap_distance: u32,
    pub total_distance: u32,
    pub throttle: u32,
    pub brake: u32,
    pub steer: u32,
    pub clutch: u8,
    pub gear: i8,
    pub speed: u16,
    pub rpm: u16,
    pub drs: u8,
    pub drs_allowed: u8,
    pub ers_store_energy: u32,
    pub ers_deploy_mode: u8,
    pub fuel_in_tank: u32,
    pub world_x: u32,
    pub world_y: u32,
    pub world_z: u32,
    pub velocity_x: u32,
    pub velocity_y: u32,
    pub velocity_z: u32,
    pub yaw: u32,
    pub pitch: u32,
    pub roll: u32,
    pub g_lateral: u32,
    pub g_longitudinal: u32,
    pub g_vertical: u32,
    pub tyre_surface_fl: u8,
    pub tyre_surface_fr: u8,
    pub tyre_surface_rl: u8,
    pub tyre_surface_rr: u8,
    pub tyre_inner_fl: u8,
    pub tyre_inner_fr: u8,
    pub tyre_inner_rl: u8,
    pub tyre_inner_rr: u8,
    pub brake_temp_fl: u16,
    pub brake_temp_fr: u16,
    pub brake_temp_rl: u16,
    pub brake_temp_rr: u16,
    pub suspension_pos_fl: u32,
    pub suspension_pos_fr: u32,
    pub suspension_pos_rl: u32,
    pub suspension_pos_rr: u32,
    pub suspension_vel_fl: u32,
    pub suspension_vel_fr: u32,
    pub suspension_vel_rl: u32,
    pub suspension_vel_rr: u32,
    pub suspension_acc_fl: u32,
    pub suspension_acc_fr: u32,
    pub suspension_acc_rl: u32,
    pub suspension_acc_rr: u32,
    pub wheel_speed_fl: u32,
    pub wheel_speed_fr: u32,
    pub wheel_speed_rl: u32,
    pub wheel_speed_rr: u32,
}

impl TelemetrySample {
    /// The sample with every field zero (every `f32` field `0.0`).
    pub open spec fn zeroed() -> TelemetrySample {
        TelemetrySample {
            timestamp: 0,
            frame: 0,
            lap_number: 0,
            lap_distance: 0,
            total_distance: 0,
            throttle: 0,
            brake: 0,
            steer: 0,
            clutch: 0,
            gear: 0,
            speed: 0,
            rpm: 0,
            drs: 0,
            drs_allowed: 0,
            ers_store_energy: 0,
            ers_deploy_mode: 0,
            fuel_in_tank: 0,
            world_x: 0,
            world_y: 0,
            world_z: 0,
            velocity_x: 0,
            velocity_y: 0,
            velocity_z: 0,
            yaw: 0,
            pitch: 0,
            roll: 0,
            g_lateral: 0,
            g_longitudinal: 0,
            g_vertical: 0,
            tyre_surface_fl: 0,
            tyre_surface_fr: 0,
            tyre_surface_rl: 0,
            tyre_surface_rr: 0,
            tyre_inner_fl: 0,
            tyre_inner_fr: 0,
            tyre_inner_rl: 0,
            tyre_inner_rr: 0,
            brake_temp_fl: 0,
            brake_temp_fr: 0,
            brake_temp_rl: 0,
            brake_temp_rr: 0,
            suspension_pos_fl: 0,
            suspension_pos_fr: 0,
            suspension_pos_rl: 0,
            suspension_pos_rr: 0,
            suspension_vel_fl: 0,
            suspension_vel_fr: 0,
            suspension_vel_rl: 0,
            suspension_vel_rr: 0,
            suspension_acc_fl: 0,
            suspension_acc_fr: 0,
            suspension_acc_rl: 0,
            suspension_acc_rr: 0,
            wheel_speed_fl: 0,
            wheel_speed_fr: 0,
            wheel_speed_rl: 0,
            wheel_speed_rr: 0,
        }
    }

    /// A fresh sample for `frame` taken at `timestamp`, all other fields zero.
    pub open spec fn fresh(timestamp: u32, frame: u32) -> TelemetrySample {
        TelemetrySample { timestamp: timestamp, frame: frame, ..TelemetrySample::zeroed() }
    }

    /// This sample with the motion values of `m` merged in.
    pub open spec fn with_motion(self, m: CarMotionData) -> TelemetrySample {
        TelemetrySample {
            world_x: m.world_position_x,
            world_y: m.world_position_y,
            world_z: m.world_position_z,
            velocity_x: m.world_velocity_x,
            velocity_y: m.world_velocity_y,
            velocity_z: m.world_velocity_z,
            g_lateral: m.g_force_lateral,
            g_longitudinal: m.g_force_longitudinal,
            g_vertical: m.g_force_vertical,
            yaw: m.yaw,
            pitch: m.pitch,
            roll: m.roll,
            ..self
        }
    }

    /// This sample with the car telemetry of `t` merged in. The packet's
    /// wheel arrays are ordered RL, RR, FL, FR.
    pub open spec fn with_car_telemetry(self, t: CarTelemetryData) -> TelemetrySample {
        TelemetrySample {
            speed: t.speed,
            throttle: t.throttle,
            steer: t.steer,
            brake: t.brake,
            clutch: t.clutch,
            gear: t.gear,
            rpm: t.engine_rpm,
            drs: t.drs,
            brake_temp_fl: t.brakes_temperature[2],
            brake_temp_fr: t.brakes_temperature[3],
            brake_temp_rl: t.brakes_temperature[0],
            brake_temp_rr: t.brakes_temperature[1],
            tyre_surface_fl: t.tyres_surface_temperature[2],
            tyre_surface_fr: t.tyres_surface_temperature[3],
            tyre_surface_rl: t.tyres_surface_temperature[0],
            tyre_surface_rr: t.tyres_surface_temperature[1],
            tyre_inner_fl: t.tyres_inner_temperature[2],
            tyre_inner_fr: t.tyres_inner_temperature[3],
            tyre_inner_rl: t.tyres_inner_temperature[0],
            tyre_inner_rr: t.tyres_inner_temperature[1],
            ..self
        }
    }

    /// This sample with the car status values of `s` merged in.
    pub open spec fn with_car_status(self, s: CarStatusData) -> TelemetrySample {
        TelemetrySample {
            drs_allowed: s.drs_allowed,
            ers_store_energy: s.ers_store_energy,
            ers_deploy_mode: s.ers_deploy_mode,
            fuel_in_tank: s.fuel_in_tank,
            ..self
        }
    }

    /// This sample with the extended motion values of `ex` merged in. The
    /// packet's wheel arrays are ordered RL, RR, FL, FR.
    pub open spec fn with_motion_ex(self, ex: MotionExData) -> TelemetrySample {
        TelemetrySample {
            suspension_pos_fl: ex.suspension_position[2],
            suspension_pos_fr: ex.suspension_position[3],
            suspension_pos_rl: ex.suspension_position[0],
            suspension_pos_rr: ex.suspension_position[1],
            suspension_vel_fl: ex.suspension_velocity[2],
            suspension_vel_fr: ex.suspension_velocity[3],
            suspension_vel_rl: ex.suspension_velocity[0],
            suspension_vel_rr: ex.suspension_velocity[1],
            suspension_acc_fl: ex.suspension_acceleration[2],
            suspension_acc_fr: ex.suspension_acceleration[3],
            suspension_acc_rl: ex.suspension_acceleration[0],
            suspension_acc_rr: ex.suspension_acceleration[1],
            wheel_speed_fl: ex.wheel_speed[2],
            wheel_speed_fr: ex.wheel_speed[3],
            wheel_speed_rl: ex.wheel_speed[0],
            wheel_speed_rr: ex.wheel_speed[1],
            ..self
        }
    }

    /// This sample with the lap position of `l` merged in.
    pub open spec fn with_lap_data(self, l: LapDataCar) -> TelemetrySample {
        TelemetrySample {
            lap_number: l.current_lap_num,
            lap_distance: l.lap_distance,
            total_distance: l.total_distance,
            ..self
        }
    }

    pub fn merge_motion(&mut self, m: &CarMotionData)
        ensures
            *final(self) == old(self).with_motion(*m),
    {
        self.world_x = m.world_position_x;
        self.world_y = m.world_position_y;
        self.world_z = m.world_position_z;
        self.velocity_x = m.world_velocity_x;
        self.velocity_y = m.world_velocity_y;
        self.velocity_z = m.world_velocity_z;
        self.g_lateral = m.g_force_lateral;
        self.g_longitudinal = m.g_force_longitudinal;
        self.g_vertical = m.g_force_vertical;
        self.yaw = m.yaw;
        self.pitch = m.pitch;
        self.roll = m.roll;
    }

    pub fn merge_car_telemetry(&mut self, t: &CarTelemetryData)
        ensures
            *final(self) == old(self).with_car_telemetry(*t),
    {
        self.speed = t.speed;
        self.throttle = t.throttle;
        self.steer = t.steer;
        self.brake = t.brake;
        self.clutch = t.clutch;
        self.gear = t.gear;
        self.rpm = t.engine_rpm;
        self.drs = t.drs;
        // Wheel order in F1 24: [0]=RL, [1]=RR, [2]=FL, [3]=FR
        self.brake_temp_fl = t.brakes_temperature[2];
        self.brake_temp_fr = t.brakes_temperature[3];
        self.brake_temp_rl = t.brakes_temperature[0];
        self.brake_temp_rr = t.brakes_temperature[1];
        self.tyre_surface_fl = t.tyres_surface_temperature[2];
        self.tyre_surface_fr = t.tyres_surface_temperature[3];
        self.tyre_surface_rl = t.tyres_surface_temperature[0];
        self.tyre_surface_rr = t.tyres_surface_temperature[1];
        self.tyre_inner_fl = t.tyres_inner_temperature[2];
        self.tyre_inner_fr = t.tyres_inner_temperature[3];
        self.tyre_inner_rl = t.tyres_inner_temperature[0];
        self.tyre_inner_rr = t.tyres_inner_temperature[1];
    }

    pub fn merge_car_status(&mut self, s: &CarStatusData)
        ensures
            *final(self) == old(self).with_car_status(*s),
    {
        self.drs_allowed = s.drs_allowed;
        self.ers_store_energy = s.ers_store_energy;
        self.ers_deploy_mode = s.ers_deploy_mode;
        self.fuel_in_tank = s.fuel_in_tank;
    }

    pub fn merge_motion_ex(&mut self, ex: &MotionExData)
        ensures
            *final(self) == old(self).with_motion_ex(*ex),
    {
        // Wheel order in F1 24: [0]=RL, [1]=RR, [2]=FL, [3]=FR
        self.suspension_pos_fl = ex.suspension_position[2];
        self.suspension_pos_fr = ex.suspension_position[3];
        self.suspension_pos_rl = ex.suspension_position[0];
        self.suspension_pos_rr = ex.suspension_position[1];
        self.suspension_vel_fl = ex.suspension_velocity[2];
        self.suspension_vel_fr = ex.suspension_velocity[3];
        self.suspension_vel_rl = ex.suspension_velocity[0];
        self.suspension_vel_rr = ex.suspension_velocity[1];
        self.suspension_acc_fl = ex.suspension_acceleration[2];
        self.suspension_acc_fr = ex.suspension_acceleration[3];
        self.suspension_acc_rl = ex.suspension_acceleration[0];
        self.suspension_acc_rr = ex.suspension_acceleration[1];
        self.wheel_speed_fl = ex.wheel_speed[2];
        self.wheel_speed_fr = ex.wheel_speed[3];
        self.wheel_speed_rl = ex.wheel_speed[0];
        self.wheel_speed_rr = ex.wheel_speed[1];
    }

    pub fn merge_lap_data(&mut self, l: &LapDataCar)
        ensures
            *final(self) == old(self).with_lap_data(*l),
    {
        self.lap_number = l.current_lap_num;
        self.lap_distance = l.lap_distance;
        self.total_distance = l.total_distance;
    }
}

impl Default for TelemetrySample {
    fn default() -> (r: TelemetrySample)
        ensures
            r == TelemetrySample::zeroed(),
    {
        TelemetrySample {
            timestamp: 0,
            frame: 0,
            lap_number: 0,
            lap_distance: 0,
            total_distance: 0,
            throttle: 0,
            brake: 0,
            steer: 0,
            clutch: 0,
            gear: 0,
            speed: 0,
            rpm: 0,
            drs: 0,
            drs_allowed: 0,
            ers_store_energy: 0,
            ers_deploy_mode: 0,
            fuel_in_tank: 0,
            world_x: 0,
            world_y: 0,
            world_z: 0,
            velocity_x: 0,
            velocity_y: 0,
            velocity_z: 0,
            yaw: 0,
            pitch: 0,
            roll: 0,
            g_lateral: 0,
            g_longitudinal: 0,
            g_vertical: 0,
            tyre_surface_fl: 0,
            tyre_surface_fr: 0,
            tyre_surface_rl: 0,
            tyre_surface_rr: 0,
            tyre_inner_fl: 0,
            tyre_inner_fr: 0,
            tyre_inner_rl: 0,
            tyre_inner_rr: 0,
            brake_temp_fl: 0,
            brake_temp_fr: 0,
            brake_temp_rl: 0,
            brake_temp_rr: 0,
            suspension_pos_fl: 0,
            suspension_pos_fr: 0,
            suspension_pos_rl: 0,
            suspension_pos_rr: 0,
            suspension_vel_fl: 0,
            suspension_vel_fr: 0,
            suspension_vel_rl: 0,
            suspension_vel_rr: 0,
            suspension_acc_fl: 0,
            suspension_acc_fr: 0,
            suspension_acc_rl: 0,
            suspension_acc_rr: 0,
            wheel_speed_fl: 0,
            wheel_speed_fr: 0,
            wheel_speed_rl: 0,
            wheel_speed_rr: 0,
        }
    }
}


/// Event record for storage.
#[derive(Debug, Clone)]
pub struct EventRecord {
    /// Session time in seconds (`f32` bits).
    pub timestamp: u32,
    pub frame: u32,
    pub event_code: String,
}

/// The value of an [`EventRecord`], with its code as a char sequence.
pub struct EventRecordView {
    pub timestamp: u32,
    pub frame: u32,
    pub event_code: Seq<char>,
}

impl View for EventRecord {
    type V = EventRecordView;

    open spec fn view(&self) -> EventRecordView {
        EventRecordView { timestamp: self.timestamp, frame: self.frame, event_code: self.event_code@ }
    }
}

/// Sector time in milliseconds from its minutes part and millisecond part.
pub open spec fn sector_ms(minutes: u8, ms: u16) -> u32 {
    (minutes * 60_000 + ms) as u32
}

/// The third sector of a lap: what the lap time leaves after the first two
/// sectors, or zero when the first two already account for all of it.
pub open spec fn sector3_ms(lap_time_ms: u32, s1: u32, s2: u32) -> u32 {
    if lap_time_ms > s1 + s2 {
        (lap_time_ms - s1 - s2) as u32
    } else {
        0
    }
}

/// The version text `year.major.minor`.
pub open spec fn version_text(year: u8, major: u8, minor: u8) -> Seq<char> {
    decimal(year) + seq!['.'] + decimal(major) + seq!['.'] + decimal(minor)
}

/// The metadata of a session started from `session`, under the given
/// identifiers.
pub open spec fn meta_for(
    session: SessionDataHeader,
    session_uid: u64,
    game_year: u8,
    game_major: u8,
    game_minor: u8,
    session_id: Seq<char>,
    start_time: Seq<char>,
) -> SessionMetaView {
    SessionMetaView {
        session_id: session_id,
        session_uid: session_uid,
        track_id: session.track_id,
        session_type: session.session_type,
        weather: session.weather,
        air_temperature: session.air_temperature,
        track_temperature: session.track_temperature,
        total_laps: session.total_laps,
        start_time: start_time,
        game_version: version_text(game_year, game_major, game_minor),
    }
}

/// Mutable session state.
pub struct SessionState {
    pub meta: Option<SessionMeta>,
    pub active: bool,
    pub current_lap: u8,
    pub last_completed_lap: u8,
    pub laps: Vec<LapRecord>,
    pub telemetry: Vec<TelemetrySample>,
    pub events: Vec<EventRecord>,
    /// The sample of the frame being assembled, not yet in `telemetry`.
    pub current_sample: Option<TelemetrySample>,
    /// Sector times cached from earlier frames (before a lap transition).
    pub last_sector1_ms: u32,
    pub last_sector2_ms: u32,
    // Live sector data for the current lap
    pub current_sector: u8,
    pub live_sector1_ms: u32,
    pub live_sector2_ms: u32,
}

/// The value of a [`SessionState`].
pub struct SessionModel {
    pub meta: Option<SessionMetaView>,
    pub active: bool,
    pub current_lap: u8,
    pub last_completed_lap: u8,
    pub laps: Seq<LapRecordView>,
    pub telemetry: Seq<TelemetrySample>,
    pub events: Seq<EventRecordView>,
    /// The sample of the frame being assembled, not yet in `telemetry`.
    pub current_sample: Option<TelemetrySample>,
    pub last_sector1_ms: u32,
    pub last_sector2_ms: u32,
    pub current_sector: u8,
    pub live_sector1_ms: u32,
    pub live_sector2_ms: u32,
}

/// The view of an optional session metadata.
pub open spec fn meta_view(m: Option<SessionMeta>) -> Option<SessionMetaView> {
    match m {
        Some(x) => Some(x@),
        None => None,
    }
}

impl View for SessionState {
    type V = SessionModel;

    open spec fn view(&self) -> SessionModel {
        SessionModel {
            meta: meta_view(self.meta),
            active: self.active,
            current_lap: self.current_lap,
            last_completed_lap: self.last_completed_lap,
            laps: self.laps@.map_values(|l: LapRecord| l@),
            telemetry: self.telemetry@,
            events: self.events@.map_values(|e: EventRecord| e@),
            current_sample: self.current_sample,
            last_sector1_ms: self.last_sector1_ms,
            last_sector2_ms: self.last_sector2_ms,
            current_sector: self.current_sector,
            live_sector1_ms: self.live_sector1_ms,
            live_sector2_ms: self.live_sector2_ms,
        }
    }
}

impl SessionModel {
    /// The state of a freshly created session tracker.
    pub open spec fn initial() -> SessionModel {
        SessionModel {
            meta: None,
            active: false,
            current_lap: 0,
            last_completed_lap: 0,
            laps: Seq::empty(),
            telemetry: Seq::empty(),
            events: Seq::empty(),
            current_sample: None,
            last_sector1_ms: 0,
            last_sector2_ms: 0,
            current_sector: 0,
            live_sector1_ms: 0,
            live_sector2_ms: 0,
        }
    }

    /// A new session with metadata `meta` begins: recorded data is cleared.
    /// Cached and live sector times are kept.
    pub open spec fn started(self, meta: SessionMetaView) -> SessionModel {
        SessionModel {
            meta: Some(meta),
            active: true,
            current_lap: 0,
            last_completed_lap: 0,
            laps: Seq::empty(),
            telemetry: Seq::empty(),
            events: Seq::empty(),
            current_sample: None,
            ..self
        }
    }

    /// The pending sample, if any, moves to the end of `telemetry`.
    pub open spec fn flushed(self) -> SessionModel {
        match self.current_sample {
            Some(s) => SessionModel { telemetry: self.telemetry.push(s), current_sample: None, ..self },
            None => self,
        }
    }

    /// The session ends: the pending sample is flushed and the state is inactive.
    pub open spec fn ended(self) -> SessionModel {
        SessionModel { active: false, ..self.flushed() }
    }

    /// The state once a sample for `frame` is pending: a pending sample of
    /// another frame is flushed first, and a fresh sample is started when
    /// none is pending.
    pub open spec fn with_sample(self, timestamp: u32, frame: u32) -> SessionModel {
        let m = match self.current_sample {
            Some(s) => if s.frame != frame {
                self.flushed()
            } else {
                self
            },
            None => self,
        };
        match m.current_sample {
            Some(_) => m,
            None => SessionModel {
                current_sample: Some(TelemetrySample::fresh(timestamp, frame)),
                ..m
            },
        }
    }

    /// The pending sample replaced by `s`.
    pub open spec fn set_sample(self, s: TelemetrySample) -> SessionModel {
        SessionModel { current_sample: Some(s), ..self }
    }

    /// Whether the lap data `lap` marks the transition to a later lap.
    pub open spec fn lap_changes(self, lap: LapDataCar) -> bool {
        lap.current_lap_num > self.current_lap && self.current_lap > 0
    }

    /// Whether the lap data `lap` completes a lap that gets recorded: the lap
    /// changes and the game reports a time for the finished lap.
    pub open spec fn lap_recorded(self, lap: LapDataCar) -> bool {
        self.lap_changes(lap) && lap.last_lap_time_ms > 0
    }

    /// The record of the lap that `lap` completes, under identifier `lap_id`.
    /// Its first two sectors are the last non-zero sector times seen.
    pub open spec fn completed_lap(self, lap: LapDataCar, lap_id: Seq<char>) -> LapRecordView {
        LapRecordView {
            lap_id: lap_id,
            session_id: match self.meta {
                Some(m) => m.session_id,
                None => Seq::empty(),
            },
            lap_number: self.current_lap,
            lap_time_ms: lap.last_lap_time_ms,
            sector1_ms: self.last_sector1_ms,
            sector2_ms: self.last_sector2_ms,
            sector3_ms: sector3_ms(lap.last_lap_time_ms, self.last_sector1_ms, self.last_sector2_ms),
            position: lap.car_position,
            penalties: lap.penalties,
            warnings: lap.total_warnings,
        }
    }

    /// The state after the lap data `lap` of the player's car; `lap_id`
    /// identifies the completed lap if one is recorded.
    pub open spec fn after_lap_data(self, lap: LapDataCar, lap_id: Seq<char>) -> SessionModel {
        let changes = self.lap_changes(lap);
        let recorded = self.lap_recorded(lap);
        let s1 = sector_ms(lap.sector1_time_minutes_part, lap.sector1_time_ms_part);
        let s2 = sector_ms(lap.sector2_time_minutes_part, lap.sector2_time_ms_part);
        let live1 = if changes { 0 } else { self.live_sector1_ms };
        let live2 = if changes { 0 } else { self.live_sector2_ms };
        SessionModel {
            laps: if recorded { self.laps.push(self.completed_lap(lap, lap_id)) } else { self.laps },
            last_completed_lap: if recorded { self.current_lap } else { self.last_completed_lap },
            current_lap: lap.current_lap_num,
            current_sector: lap.sector,
            live_sector1_ms: if s1 > 0 { s1 } else { live1 },
            last_sector1_ms: if s1 > 0 { s1 } else { self.last_sector1_ms },
            live_sector2_ms: if s2 > 0 { s2 } else { live2 },
            last_sector2_ms: if s2 > 0 { s2 } else { self.last_sector2_ms },
            ..self
        }
    }

    /// The identifier of the last recorded lap (empty when there is none).
    pub open spec fn last_lap_id(self) -> Seq<char> {
        if self.laps.len() > 0 {
            self.laps.last().lap_id
        } else {
            Seq::empty()
        }
    }

    /// The state with an event appended.
    pub open spec fn with_event(self, timestamp: u32, frame: u32, code: Seq<char>) -> SessionModel {
        SessionModel {
            events: self.events.push(EventRecordView { timestamp: timestamp, frame: frame, event_code: code }),
            ..self
        }
    }

    /// The most recent sample: the pending one, else the last flushed one.
    pub open spec fn latest(self) -> Option<TelemetrySample> {
        match self.current_sample {
            Some(s) => Some(s),
            None => if self.telemetry.len() > 0 {
                Some(self.telemetry.last())
            } else {
                None
            },
        }
    }
}

impl SessionState {
    pub fn new() -> (s: Self)
        ensures
            s@ == SessionModel::initial(),
    {
        let s = Self {
            meta: None,
            active: false,
            current_lap: 0,
            last_completed_lap: 0,
            laps: Vec::new(),
            telemetry: Vec::with_capacity(100_000),
            events: Vec::new(),
            current_sample: None,
            last_sector1_ms: 0,
            last_sector2_ms: 0,
            current_sector: 0,
            live_sector1_ms: 0,
            live_sector2_ms: 0,
        };
        assert(s@.laps =~= Seq::empty());
        assert(s@.events =~= Seq::empty());
        s
    }

    /// Starts a new session described by `session`. The session gets a fresh
    /// random identifier and the current time as its start time.
    pub fn start_session(
        &mut self,
        session: &SessionDataHeader,
        session_uid: u64,
        game_year: u8,
        game_major: u8,
        game_minor: u8,
    )
        ensures
            final(self)@.meta is Some,
            final(self)@ == old(self)@.started(
                meta_for(
                    *session,
                    session_uid,
                    game_year,
                    game_major,
                    game_minor,
                    final(self)@.meta.unwrap().session_id,
                    final(self)@.meta.unwrap().start_time,
                ),
            ),
            is_uuid_v4_text(final(self)@.meta.unwrap().session_id),
            is_rfc3339_utc_text(final(self)@.meta.unwrap().start_time),
            final(self)@.meta.unwrap().start_time.len() >= 25,
            is_ascii_text(final(self)@.meta.unwrap().start_time),
    {
        let mut game_version = String::new();
        push_decimal(&mut game_version, game_year);
        game_version.append(".");
        push_decimal(&mut game_version, game_major);
        game_version.append(".");
        push_decimal(&mut game_version, game_minor);
        proof {
            reveal_strlit(".");
        }
        self.meta = Some(
            SessionMeta {
                session_id: new_uuid_string(),
                session_uid,
                track_id: session.track_id,
                session_type: session.session_type,
                weather: session.weather,
                air_temperature: session.air_temperature,
                track_temperature: session.track_temperature,
                total_laps: session.total_laps,
                start_time: now_rfc3339(),
                game_version,
            },
        );
        self.active = true;
        self.current_lap = 0;
        self.last_completed_lap = 0;
        self.laps.clear();
        self.telemetry.clear();
        self.events.clear();
        self.current_sample = None;
        assert(self@.laps =~= Seq::empty());
        assert(self@.events =~= Seq::empty());
        assert(self@.meta.unwrap().game_version =~= version_text(game_year, game_major, game_minor));
    }

    /// Ends the session: any pending sample is flushed.
    pub fn end_session(&mut self)
        ensures
            final(self)@ == old(self)@.ended(),
    {
        self.flush_sample();
        self.active = false;
    }

    /// Get or create the sample for the given frame. If the frame changes,
    /// the previous sample is flushed first.
    pub fn get_sample(&mut self, timestamp: u32, frame: u32) -> (r: &mut TelemetrySample)
        ensures
            *r == old(self)@.with_sample(timestamp, frame).current_sample.unwrap(),
            final(self)@ == old(self)@.with_sample(timestamp, frame).set_sample(*final(r)),
    {
        let needs_flush = match &self.current_sample {
            Some(sample) => sample.frame != frame,
            None => false,
        };
        if needs_flush {
            self.flush_sample();
        }
        if self.current_sample.is_none() {
            let mut fresh = TelemetrySample::default();
            fresh.timestamp = timestamp;
            fresh.frame = frame;
            self.current_sample = Some(fresh);
        }
        self.current_sample.as_mut().unwrap()
    }

    fn flush_sample(&mut self)
        ensures
            final(self)@ == old(self)@.flushed(),
    {
        if let Some(sample) = self.current_sample.take() {
            self.telemetry.push(sample);
        }
    }

    /// Detect and record lap completion from the lap data of the player's car.
    pub fn check_lap_completion(&mut self, lap_data: &LapDataCar)
        ensures
            final(self)@ == old(self)@.after_lap_data(*lap_data, final(self)@.last_lap_id()),
            old(self)@.lap_recorded(*lap_data) ==> is_uuid_v4_text(final(self)@.last_lap_id()),
    {
        let current = lap_data.current_lap_num;
        let ghost pre = self@;

        if current > self.current_lap && self.current_lap > 0 {
            // Lap changed - record the completed lap using cached sector times
            if lap_data.last_lap_time_ms > 0 {
                let session_id = match &self.meta {
                    Some(m) => m.session_id.clone(),
                    None => String::new(),
                };
                let s1_ms = self.last_sector1_ms;
                let s2_ms = self.last_sector2_ms;
                let s3 = if lap_data.last_lap_time_ms as u64 > s1_ms as u64 + s2_ms as u64 {
                    lap_data.last_lap_time_ms - s1_ms - s2_ms
                } else {
                    0
                };
                let lap_id = new_uuid_string();
                let ghost id = lap_id@;
                self.laps.push(
                    LapRecord {
                        lap_id,
                        session_id,
                        lap_number: self.current_lap,
                        lap_time_ms: lap_data.last_lap_time_ms,
                        sector1_ms: s1_ms,
                        sector2_ms: s2_ms,
                        sector3_ms: s3,
                        position: lap_data.car_position,
                        penalties: lap_data.penalties,
                        warnings: lap_data.total_warnings,
                    },
                );
                self.last_completed_lap = self.current_lap;
                assert(self@.laps =~= pre.laps.push(pre.completed_lap(*lap_data, id)));
            }
            // Reset live sectors for the new lap
            self.live_sector1_ms = 0;
            self.live_sector2_ms = 0;
        }
        self.current_lap = current;

        // Track current sector and live sector times
        self.current_sector = lap_data.sector;

        let s1 = lap_data.sector1_time_minutes_part as u32 * 60_000 + lap_data.sector1_time_ms_part as u32;
        let s2 = lap_data.sector2_time_minutes_part as u32 * 60_000 + lap_data.sector2_time_ms_part as u32;

        // Update live sectors for the current lap (reset on new lap)
        if s1 > 0 {
            self.live_sector1_ms = s1;
            self.last_sector1_ms = s1;
        }
        if s2 > 0 {
            self.live_sector2_ms = s2;
            self.last_sector2_ms = s2;
        }
    }

    /// Records an event with its four-byte code, decoded as (lossy) UTF-8.
    pub fn add_event(&mut self, timestamp: u32, frame: u32, code: [u8; 4])
        ensures
            final(self)@ == old(self)@.with_event(timestamp, frame, utf8_lossy(code@)),
            valid_utf8(code@) ==> final(self)@.events.last().event_code == decode_utf8(code@),
    {
        let event_code = decode_lossy(&code);
        let ghost pre = self@;
        self.events.push(EventRecord { timestamp, frame, event_code });
        assert(self@.events =~= pre.events.push(
            EventRecordView { timestamp: timestamp, frame: frame, event_code: utf8_lossy(code@) },
        ));
    }

    /// Returns the state to that of a freshly created tracker.
    pub fn reset(&mut self)
        ensures
            final(self)@ == SessionModel::initial(),
    {
        *self = Self::new();
    }

    /// Get the most recent telemetry sample (current or last flushed).
    pub fn latest_sample(&self) -> (r: Option<&TelemetrySample>)
        ensures
            r is Some <==> self@.latest() is Some,
            r matches Some(s) ==> self@.latest() == Some(*s),
    {
        match &self.current_sample {
            Some(s) => Some(s),
            None => self.telemetry.last(),
        }
    }
}


/// Merging car telemetry takes each value from its own field, and each
/// wheel value goes to its own corner: the packet's wheel arrays come in
/// the order RL, RR, FL, FR (slots 0, 1, 2, 3).
pub proof fn lemma_car_telemetry_corners(x: TelemetrySample, t: CarTelemetryData)
    ensures
        ({
            let y = x.with_car_telemetry(t);
            &&& y.speed == t.speed
            &&& y.throttle == t.throttle
            &&& y.steer == t.steer
            &&& y.brake == t.brake
            &&& y.clutch == t.clutch
            &&& y.gear == t.gear
            &&& y.rpm == t.engine_rpm
            &&& y.drs == t.drs
            &&& y.brake_temp_rl == t.brakes_temperature[0]
            &&& y.brake_temp_rr == t.brakes_temperature[1]
            &&& y.brake_temp_fl == t.brakes_temperature[2]
            &&& y.brake_temp_fr == t.brakes_temperature[3]
            &&& y.tyre_surface_rl == t.tyres_surface_temperature[0]
            &&& y.tyre_surface_rr == t.tyres_surface_temperature[1]
            &&& y.tyre_surface_fl == t.tyres_surface_temperature[2]
            &&& y.tyre_surface_fr == t.tyres_surface_temperature[3]
            &&& y.tyre_inner_rl == t.tyres_inner_temperature[0]
            &&& y.tyre_inner_rr == t.tyres_inner_temperature[1]
            &&& y.tyre_inner_fl == t.tyres_inner_temperature[2]
            &&& y.tyre_inner_fr == t.tyres_inner_temperature[3]
        }),
{
}

/// Merging extended motion puts each wheel value at its own corner: the
/// packet's wheel arrays come in the order RL, RR, FL, FR (slots 0 to 3).
pub proof fn lemma_motion_ex_corners(x: TelemetrySample, ex: MotionExData)
    ensures
        ({
            let y = x.with_motion_ex(ex);
            &&& y.suspension_pos_rl == ex.suspension_position[0]
            &&& y.suspension_pos_rr == ex.suspension_position[1]
            &&& y.suspension_pos_fl == ex.suspension_position[2]
            &&& y.suspension_pos_fr == ex.suspension_position[3]
            &&& y.suspension_vel_rl == ex.suspension_velocity[0]
            &&& y.suspension_vel_rr == ex.suspension_velocity[1]
            &&& y.suspension_vel_fl == ex.suspension_velocity[2]
            &&& y.suspension_vel_fr == ex.suspension_velocity[3]
            &&& y.suspension_acc_rl == ex.suspension_acceleration[0]
            &&& y.suspension_acc_rr == ex.suspension_acceleration[1]
            &&& y.suspension_acc_fl == ex.suspension_acceleration[2]
            &&& y.suspension_acc_fr == ex.suspension_acceleration[3]
            &&& y.wheel_speed_rl == ex.wheel_speed[0]
            &&& y.wheel_speed_rr == ex.wheel_speed[1]
            &&& y.wheel_speed_fl == ex.wheel_speed[2]
            &&& y.wheel_speed_fr == ex.wheel_speed[3]
        }),
{
}

/// Merging motion takes each channel from its own field of the car's
/// motion record.
pub proof fn lemma_motion_channels(x: TelemetrySample, m: CarMotionData)
    ensures
        ({
            let y = x.with_motion(m);
            &&& y.world_x == m.world_position_x
            &&& y.world_y == m.world_position_y
            &&& y.world_z == m.world_position_z
            &&& y.velocity_x == m.world_velocity_x
            &&& y.velocity_y == m.world_velocity_y
            &&& y.velocity_z == m.world_velocity_z
            &&& y.g_lateral == m.g_force_lateral
            &&& y.g_longitudinal == m.g_force_longitudinal
            &&& y.g_vertical == m.g_force_vertical
            &&& y.yaw == m.yaw
            &&& y.pitch == m.pitch
            &&& y.roll == m.roll
        }),
{
}

/// The packets of one frame fill disjoint channels: merging them in any
/// order gives the same sample.
pub proof fn lemma_merges_commute(
    x: TelemetrySample,
    m: CarMotionData,
    t: CarTelemetryData,
    st: CarStatusData,
    ex: MotionExData,
    l: LapDataCar,
)
    ensures
        x.with_motion(m).with_car_telemetry(t) == x.with_car_telemetry(t).with_motion(m),
        x.with_motion(m).with_car_status(st) == x.with_car_status(st).with_motion(m),
        x.with_motion(m).with_motion_ex(ex) == x.with_motion_ex(ex).with_motion(m),
        x.with_motion(m).with_lap_data(l) == x.with_lap_data(l).with_motion(m),
        x.with_car_telemetry(t).with_car_status(st) == x.with_car_status(st).with_car_telemetry(t),
        x.with_car_telemetry(t).with_motion_ex(ex) == x.with_motion_ex(ex).with_car_telemetry(t),
        x.with_car_telemetry(t).with_lap_data(l) == x.with_lap_data(l).with_car_telemetry(t),
        x.with_car_status(st).with_motion_ex(ex) == x.with_motion_ex(ex).with_car_status(st),
        x.with_car_status(st).with_lap_data(l) == x.with_lap_data(l).with_car_status(st),
        x.with_motion_ex(ex).with_lap_data(l) == x.with_lap_data(l).with_motion_ex(ex),
{
}


/// Ending a session does not change the most recent sample: the pending
/// sample becomes the last flushed one.
pub proof fn lemma_end_keeps_latest(s: SessionModel)
    ensures
        s.ended().latest() == s.latest(),
{
}

/// After a sample is requested for `frame`, the pending sample is for that
/// frame; the samples already flushed stay, followed at most by the
/// previously pending sample, which is flushed exactly when it belongs to
/// another frame.
pub proof fn lemma_sample_per_frame(s: SessionModel, timestamp: u32, frame: u32)
    ensures
        s.with_sample(timestamp, frame).current_sample is Some,
        s.with_sample(timestamp, frame).current_sample.unwrap().frame == frame,
        s.current_sample matches Some(p) ==> (p.frame == frame ==> s.with_sample(timestamp, frame) == s),
        s.current_sample matches Some(p) ==> (p.frame != frame ==> s.with_sample(timestamp, frame).telemetry
            == s.telemetry.push(p)),
        s.current_sample is None ==> s.with_sample(timestamp, frame).telemetry == s.telemetry,
{
}

/// A recorded lap is the lap the car was on before the transition, its
/// number is positive, and its three sectors add up to the lap time
/// whenever the first two leave time for a third (otherwise the third is
/// zero).
pub proof fn lemma_recorded_lap(s: SessionModel, lap: LapDataCar, lap_id: Seq<char>)
    requires
        s.lap_recorded(lap),
    ensures
        ({
            let r = s.after_lap_data(lap, lap_id).laps.last();
            &&& s.after_lap_data(lap, lap_id).laps == s.laps.push(r)
            &&& r.lap_number == s.current_lap
            &&& r.lap_number > 0
            &&& r.lap_number < lap.current_lap_num
            &&& r.lap_time_ms == lap.last_lap_time_ms
            &&& r.lap_time_ms > r.sector1_ms + r.sector2_ms ==> r.sector1_ms + r.sector2_ms + r.sector3_ms
                == r.lap_time_ms
            &&& r.lap_time_ms <= r.sector1_ms + r.sector2_ms ==> r.sector3_ms == 0
        }),
{
}

/// Lap data that does not move to a later lap records nothing and keeps
/// the last completed lap.
pub proof fn lemma_no_lap_without_transition(s: SessionModel, lap: LapDataCar, lap_id: Seq<char>)
    requires
        !s.lap_recorded(lap),
    ensures
        s.after_lap_data(lap, lap_id).laps == s.laps,
        s.after_lap_data(lap, lap_id).last_completed_lap == s.last_completed_lap,
        s.after_lap_data(lap, lap_id).current_lap == lap.current_lap_num,
{
}

/// The live sector times restart on a new lap: after lap data that moves to
/// a later lap, a live sector time is the one this lap data reports (zero
/// when it reports none).
pub proof fn lemma_live_sectors_restart(s: SessionModel, lap: LapDataCar, lap_id: Seq<char>)
    requires
        s.lap_changes(lap),
    ensures
        s.after_lap_data(lap, lap_id).live_sector1_ms == sector_ms(
            lap.sector1_time_minutes_part,
            lap.sector1_time_ms_part,
        ),
        s.after_lap_data(lap, lap_id).live_sector2_ms == sector_ms(
            lap.sector2_time_minutes_part,
            lap.sector2_time_ms_part,
        ),
{
}

} // verus!
