//! Per-packet dispatch: the decisions the UDP receiver takes for each
//! packet. The receiver loop itself (socket, raw recording, saving to disk,
//! broadcasting) performs the outcome this module returns.

use vstd::prelude::*;

use crate::packets::event_codes::{SESSION_ENDED, SESSION_STARTED};
use crate::packets::{
    PacketId, CAR_MOTION_SIZE, CAR_STATUS_SIZE, CAR_TELEMETRY_SIZE, HEADER_SIZE, LAP_DATA_SIZE,
    MOTION_EX_SIZE, SESSION_DATA_SIZE,
};
use crate::parsers::{
    bytes4, car_offset, parse_event_code, parse_header, parse_motion_ex, parse_player_car_status,
    parse_player_car_telemetry, parse_player_lap_data, parse_player_motion, parse_session_data,
    spec_car_motion, spec_car_status, spec_car_telemetry, spec_header, spec_lap_data,
    spec_motion_ex, spec_session_data,
};
use crate::session::{meta_for, SessionModel, SessionState};
use crate::ids::{is_rfc3339_utc_text, is_uuid_v4_text};
use crate::wire::{le_u16, le_u32, le_u64};
use crate::text::utf8_lossy;

verus! {

/// Why a packet could not be dispatched.
#[derive(Debug, Clone, Copy, PartialEq, Eq, Structural)]
pub enum PacketError {
    /// The packet is shorter than the common header.
    HeaderTooShort,
    /// The header names no known packet type.
    UnknownPacketId(u8),
}

/// What the receiver has to do after a packet was applied to the state.
#[derive(Debug, Clone, Copy, PartialEq, Eq, Structural)]
pub enum PacketOutcome {
    /// Nothing beyond the update of the session state.
    Continue,
    /// A new session started; a raw recording may begin now.
    SessionStarted,
    /// The session ended and its pending sample was flushed. The receiver
    /// finishes the raw recording, saves the session, then resets the state.
    SessionEnded,
}

/// The state once a sample for the header's frame is pending and `merge`
/// has been applied to it.
pub open spec fn merged(
    s: SessionModel,
    timestamp: u32,
    frame: u32,
    merge: spec_fn(crate::session::TelemetrySample) -> crate::session::TelemetrySample,
) -> SessionModel {
    let m = s.with_sample(timestamp, frame);
    m.set_sample(merge(m.current_sample.unwrap()))
}

/// The effect of one packet `d` on the session state `s`, and the outcome.
/// `session_id` and `start_time` name a session started by the packet, and
/// `lap_id` a lap it completes.
pub open spec fn packet_step(
    s: SessionModel,
    d: Seq<u8>,
    session_id: Seq<char>,
    start_time: Seq<char>,
    lap_id: Seq<char>,
) -> (SessionModel, Result<PacketOutcome, PacketError>) {
    if d.len() < HEADER_SIZE {
        (s, Err(PacketError::HeaderTooShort))
    } else {
        let h = spec_header(d);
        let ts = h.session_time;
        let frame = h.frame_identifier;
        let pidx = h.player_car_index;
        if h.packet_id > 14 {
            (s, Err(PacketError::UnknownPacketId(h.packet_id)))
        } else if h.packet_id == 3 {
            // Event
            if d.len() < HEADER_SIZE + 4 {
                (s, Ok(PacketOutcome::Continue))
            } else {
                let code = bytes4(d, HEADER_SIZE as int);
                if code == SESSION_STARTED && s.active {
                    (s.ended(), Ok(PacketOutcome::SessionEnded))
                } else if code == SESSION_ENDED {
                    (s.ended(), Ok(PacketOutcome::SessionEnded))
                } else if code != SESSION_STARTED && s.active {
                    (s.with_event(ts, frame, utf8_lossy(code@)), Ok(PacketOutcome::Continue))
                } else {
                    (s, Ok(PacketOutcome::Continue))
                }
            }
        } else if h.packet_id == 1 {
            // Session
            if d.len() >= HEADER_SIZE + SESSION_DATA_SIZE && !s.active {
                let meta = meta_for(
                    spec_session_data(d, HEADER_SIZE as int),
                    h.session_uid,
                    h.game_year,
                    h.game_major_version,
                    h.game_minor_version,
                    session_id,
                    start_time,
                );
                (s.started(meta), Ok(PacketOutcome::SessionStarted))
            } else {
                (s, Ok(PacketOutcome::Continue))
            }
        } else if !s.active {
            (s, Ok(PacketOutcome::Continue))
        } else if h.packet_id == 2 && d.len() >= car_offset(pidx, LAP_DATA_SIZE) + LAP_DATA_SIZE {
            let lap = spec_lap_data(d, car_offset(pidx, LAP_DATA_SIZE));
            (
                merged(s.after_lap_data(lap, lap_id), ts, frame, |x: crate::session::TelemetrySample| x.with_lap_data(lap)),
                Ok(PacketOutcome::Continue),
            )
        } else if h.packet_id == 0 && d.len() >= car_offset(pidx, CAR_MOTION_SIZE) + CAR_MOTION_SIZE {
            let m = spec_car_motion(d, car_offset(pidx, CAR_MOTION_SIZE));
            (merged(s, ts, frame, |x: crate::session::TelemetrySample| x.with_motion(m)), Ok(PacketOutcome::Continue))
        } else if h.packet_id == 6 && d.len() >= car_offset(pidx, CAR_TELEMETRY_SIZE) + CAR_TELEMETRY_SIZE {
            let t = spec_car_telemetry(d, car_offset(pidx, CAR_TELEMETRY_SIZE));
            (merged(s, ts, frame, |x: crate::session::TelemetrySample| x.with_car_telemetry(t)), Ok(PacketOutcome::Continue))
        } else if h.packet_id == 7 && d.len() >= car_offset(pidx, CAR_STATUS_SIZE) + CAR_STATUS_SIZE {
            let st = spec_car_status(d, car_offset(pidx, CAR_STATUS_SIZE));
            (merged(s, ts, frame, |x: crate::session::TelemetrySample| x.with_car_status(st)), Ok(PacketOutcome::Continue))
        } else if h.packet_id == 13 && d.len() >= HEADER_SIZE + MOTION_EX_SIZE {
            let ex = spec_motion_ex(d, HEADER_SIZE as int);
            (merged(s, ts, frame, |x: crate::session::TelemetrySample| x.with_motion_ex(ex)), Ok(PacketOutcome::Continue))
        } else {
            (s, Ok(PacketOutcome::Continue))
        }
    }
}

/// The identifier of the session in `s`, or empty.
pub open spec fn session_id_of(s: SessionModel) -> Seq<char> {
    match s.meta {
        Some(m) => m.session_id,
        None => Seq::empty(),
    }
}

/// The start time of the session in `s`, or empty.
pub open spec fn start_time_of(s: SessionModel) -> Seq<char> {
    match s.meta {
        Some(m) => m.start_time,
        None => Seq::empty(),
    }
}

fn same_code(a: [u8; 4], b: [u8; 4]) -> (r: bool)
    ensures
        r == (a == b),
{
    let r = a[0] == b[0] && a[1] == b[1] && a[2] == b[2] && a[3] == b[3];
    if r {
        broadcast use vstd::array::axiom_array_ext_equal;
        assert(a =~= b);
    }
    r
}

/// Applies one raw packet to the session state and tells the receiver what
/// else to do.
pub fn process_packet(data: &[u8], state: &mut SessionState) -> (r: Result<PacketOutcome, PacketError>)
    ensures
        (final(state)@, r) == packet_step(
            old(state)@,
            data@,
            session_id_of(final(state)@),
            start_time_of(final(state)@),
            final(state)@.last_lap_id(),
        ),
        r == Ok::<PacketOutcome, PacketError>(PacketOutcome::SessionStarted) ==> {
            &&& final(state)@.meta is Some
            &&& is_uuid_v4_text(session_id_of(final(state)@))
            &&& is_rfc3339_utc_text(start_time_of(final(state)@))
        },
        final(state)@.laps.len() > old(state)@.laps.len() ==> is_uuid_v4_text(
            final(state)@.last_lap_id(),
        ),
{
    let header = match parse_header(data) {
        Some(h) => h,
        None => return Err(PacketError::HeaderTooShort),
    };
    let packet_id = match PacketId::from_u8(header.packet_id) {
        Some(p) => p,
        None => return Err(PacketError::UnknownPacketId(header.packet_id)),
    };

    match packet_id {
        PacketId::Event => {
            if let Some(code) = parse_event_code(data) {
                if same_code(code, SESSION_STARTED) {
                    if state.active {
                        state.end_session();
                        return Ok(PacketOutcome::SessionEnded);
                    }
                } else if same_code(code, SESSION_ENDED) {
                    state.end_session();
                    return Ok(PacketOutcome::SessionEnded);
                } else if state.active {
                    state.add_event(header.session_time, header.frame_identifier, code);
                }
            }
        },
        PacketId::Session => {
            if let Some(session_data) = parse_session_data(data) {
                if !state.active {
                    state.start_session(
                        &session_data,
                        header.session_uid,
                        header.game_year,
                        header.game_major_version,
                        header.game_minor_version,
                    );
                    return Ok(PacketOutcome::SessionStarted);
                }
            }
        },
        PacketId::LapData => {
            if !state.active {
                return Ok(PacketOutcome::Continue);
            }
            if let Some(lap) = parse_player_lap_data(data, header.player_car_index) {
                state.check_lap_completion(&lap);
                let ghost mid = state@;
                let sample = state.get_sample(header.session_time, header.frame_identifier);
                sample.merge_lap_data(&lap);
                assert(mid.last_lap_id() == state@.last_lap_id());
            }
        },
        PacketId::Motion => {
            if !state.active {
                return Ok(PacketOutcome::Continue);
            }
            if let Some(motion) = parse_player_motion(data, header.player_car_index) {
                let sample = state.get_sample(header.session_time, header.frame_identifier);
                sample.merge_motion(&motion);
            }
        },
        PacketId::CarTelemetry => {
            if !state.active {
                return Ok(PacketOutcome::Continue);
            }
            if let Some(telem) = parse_player_car_telemetry(data, header.player_car_index) {
                let sample = state.get_sample(header.session_time, header.frame_identifier);
                sample.merge_car_telemetry(&telem);
            }
        },
        PacketId::CarStatus => {
            if !state.active {
                return Ok(PacketOutcome::Continue);
            }
            if let Some(status) = parse_player_car_status(data, header.player_car_index) {
                let sample = state.get_sample(header.session_time, header.frame_identifier);
                sample.merge_car_status(&status);
            }
        },
        PacketId::MotionEx => {
            if !state.active {
                return Ok(PacketOutcome::Continue);
            }
            if let Some(ex) = parse_motion_ex(data) {
                let sample = state.get_sample(header.session_time, header.frame_identifier);
                sample.merge_motion_ex(&ex);
            }
        },
        _ => {},  // Other packets are not needed
    }
    Ok(PacketOutcome::Continue)
}


/// Whether the recorded history of `s` (samples, laps, events) is kept as
/// the beginning of that of `n`.
pub open spec fn history_kept(s: SessionModel, n: SessionModel) -> bool {
    &&& s.telemetry.is_prefix_of(n.telemetry)
    &&& s.laps.is_prefix_of(n.laps)
    &&& s.events.is_prefix_of(n.events)
}

proof fn lemma_push_keeps_prefix<A>(s: Seq<A>, x: A)
    ensures
        s.is_prefix_of(s.push(x)),
{
    assert(s =~= s.push(x).subrange(0, s.len() as int));
}

proof fn lemma_prefix_refl<A>(s: Seq<A>)
    ensures
        s.is_prefix_of(s),
{
    assert(s =~= s.subrange(0, s.len() as int));
}

proof fn lemma_prefix_trans<A>(a: Seq<A>, b: Seq<A>, c: Seq<A>)
    requires
        a.is_prefix_of(b),
        b.is_prefix_of(c),
    ensures
        a.is_prefix_of(c),
{
    assert(a =~= c.subrange(0, a.len() as int));
}

proof fn lemma_with_sample_keeps_history(s: SessionModel, ts: u32, frame: u32, x: crate::session::TelemetrySample)
    ensures
        history_kept(s, s.with_sample(ts, frame).set_sample(x)),
{
    lemma_prefix_refl(s.telemetry);
    lemma_prefix_refl(s.laps);
    lemma_prefix_refl(s.events);
    if let Some(p) = s.current_sample {
        lemma_push_keeps_prefix(s.telemetry, p);
    }
}

/// Packets only ever add to the recorded history: apart from the start of a
/// new session, which clears it, no packet removes or changes a sample, a
/// lap or an event that was already recorded.
pub proof fn lemma_packet_keeps_history(
    s: SessionModel,
    d: Seq<u8>,
    session_id: Seq<char>,
    start_time: Seq<char>,
    lap_id: Seq<char>,
)
    ensures
        packet_step(s, d, session_id, start_time, lap_id).1 != Ok::<_, PacketError>(PacketOutcome::SessionStarted)
            ==> history_kept(s, packet_step(s, d, session_id, start_time, lap_id).0),
{
    lemma_prefix_refl(s.telemetry);
    lemma_prefix_refl(s.laps);
    lemma_prefix_refl(s.events);
    if let Some(p) = s.current_sample {
        lemma_push_keeps_prefix(s.telemetry, p);
    }
    if d.len() >= HEADER_SIZE {
        let h = spec_header(d);
        let pidx = h.player_car_index;
        if h.packet_id == 3 && d.len() >= HEADER_SIZE + 4 {
            let code = bytes4(d, HEADER_SIZE as int);
            lemma_push_keeps_prefix(
                s.events,
                crate::session::EventRecordView {
                    timestamp: h.session_time,
                    frame: h.frame_identifier,
                    event_code: utf8_lossy(code@),
                },
            );
        }
        if s.active && h.packet_id == 2 && d.len() >= car_offset(pidx, LAP_DATA_SIZE) + LAP_DATA_SIZE {
            let lap = spec_lap_data(d, car_offset(pidx, LAP_DATA_SIZE));
            let a = s.after_lap_data(lap, lap_id);
            lemma_push_keeps_prefix(s.laps, s.completed_lap(lap, lap_id));
            assert(history_kept(s, a));
            let m = a.with_sample(h.session_time, h.frame_identifier);
            lemma_with_sample_keeps_history(a, h.session_time, h.frame_identifier, m.current_sample.unwrap().with_lap_data(lap));
            lemma_prefix_trans(s.telemetry, a.telemetry, packet_step(s, d, session_id, start_time, lap_id).0.telemetry);
            lemma_prefix_trans(s.laps, a.laps, packet_step(s, d, session_id, start_time, lap_id).0.laps);
            lemma_prefix_trans(s.events, a.events, packet_step(s, d, session_id, start_time, lap_id).0.events);
        }
    }
}

/// While no session is active, packets other than session and event
/// packets leave the state unchanged.
pub proof fn lemma_inactive_ignores_data(
    s: SessionModel,
    d: Seq<u8>,
    session_id: Seq<char>,
    start_time: Seq<char>,
    lap_id: Seq<char>,
)
    requires
        !s.active,
        d.len() >= HEADER_SIZE,
        spec_header(d).packet_id != 1,
        spec_header(d).packet_id != 3,
    ensures
        packet_step(s, d, session_id, start_time, lap_id).0 == s,
{
}

/// A packet that is rejected leaves the state unchanged.
pub proof fn lemma_rejected_packet_unchanged(
    s: SessionModel,
    d: Seq<u8>,
    session_id: Seq<char>,
    start_time: Seq<char>,
    lap_id: Seq<char>,
)
    ensures
        packet_step(s, d, session_id, start_time, lap_id).1 is Err ==> packet_step(
            s,
            d,
            session_id,
            start_time,
            lap_id,
        ).0 == s,
{
}

/// A session packet starts a session exactly when none is active; a
/// session that is active is ended by an event packet announcing a session
/// start or a session end.
pub proof fn lemma_session_lifecycle(
    s: SessionModel,
    d: Seq<u8>,
    session_id: Seq<char>,
    start_time: Seq<char>,
    lap_id: Seq<char>,
)
    requires
        d.len() >= HEADER_SIZE + SESSION_DATA_SIZE,
    ensures
        spec_header(d).packet_id == 1 ==> (packet_step(s, d, session_id, start_time, lap_id).1
            == Ok::<_, PacketError>(PacketOutcome::SessionStarted) <==> !s.active),
        spec_header(d).packet_id == 1 && !s.active ==> packet_step(s, d, session_id, start_time, lap_id).0.active,
        spec_header(d).packet_id == 3 && s.active && (bytes4(d, HEADER_SIZE as int) == SESSION_STARTED
            || bytes4(d, HEADER_SIZE as int) == SESSION_ENDED) ==> {
            &&& packet_step(s, d, session_id, start_time, lap_id).1 == Ok::<_, PacketError>(
                PacketOutcome::SessionEnded,
            )
            &&& !packet_step(s, d, session_id, start_time, lap_id).0.active
            &&& packet_step(s, d, session_id, start_time, lap_id).0.latest() == s.latest()
        },
{
}

/// On an active session, a motion packet merges the motion of the player's
/// car (the 60-byte record at `29 + 60 * player index`, the index being
/// byte 27 of the header) into the sample of the packet's frame: position,
/// velocity, g-forces and orientation, each read little-endian.
pub proof fn lemma_motion_packet_reads_player_car(
    s: SessionModel,
    d: Seq<u8>,
    session_id: Seq<char>,
    start_time: Seq<char>,
    lap_id: Seq<char>,
)
    requires
        s.active,
        d.len() >= 29,
        d[6] == 0,
        d.len() >= 29 + 60 * d[27] + 60,
    ensures
        ({
            let p = packet_step(s, d, session_id, start_time, lap_id);
            let x = p.0.current_sample.unwrap();
            let o = 29 + 60 * d[27];
            &&& p.1 == Ok::<PacketOutcome, PacketError>(PacketOutcome::Continue)
            &&& p.0.current_sample is Some
            &&& x.frame == le_u32(d, 19)
            &&& x.world_x == le_u32(d, o)
            &&& x.world_y == le_u32(d, o + 4)
            &&& x.world_z == le_u32(d, o + 8)
            &&& x.velocity_x == le_u32(d, o + 12)
            &&& x.velocity_y == le_u32(d, o + 16)
            &&& x.velocity_z == le_u32(d, o + 20)
            &&& x.g_lateral == le_u32(d, o + 36)
            &&& x.g_longitudinal == le_u32(d, o + 40)
            &&& x.g_vertical == le_u32(d, o + 44)
            &&& x.yaw == le_u32(d, o + 48)
            &&& x.pitch == le_u32(d, o + 52)
            &&& x.roll == le_u32(d, o + 56)
        }),
{
}

/// On an active session, a car telemetry packet merges the telemetry of the
/// player's car (the 60-byte record at `29 + 60 * player index`) into the
/// sample of the packet's frame. The wheel arrays come in the order RL, RR,
/// FL, FR, and each goes to its own corner.
pub proof fn lemma_telemetry_packet_reads_player_car(
    s: SessionModel,
    d: Seq<u8>,
    session_id: Seq<char>,
    start_time: Seq<char>,
    lap_id: Seq<char>,
)
    requires
        s.active,
        d.len() >= 29,
        d[6] == 6,
        d.len() >= 29 + 60 * d[27] + 60,
    ensures
        ({
            let p = packet_step(s, d, session_id, start_time, lap_id);
            let x = p.0.current_sample.unwrap();
            let o = 29 + 60 * d[27];
            &&& p.1 == Ok::<PacketOutcome, PacketError>(PacketOutcome::Continue)
            &&& p.0.current_sample is Some
            &&& x.frame == le_u32(d, 19)
            &&& x.speed == le_u16(d, o)
            &&& x.throttle == le_u32(d, o + 2)
            &&& x.steer == le_u32(d, o + 6)
            &&& x.brake == le_u32(d, o + 10)
            &&& x.clutch == d[o + 14]
            &&& x.gear == d[o + 15] as i8
            &&& x.rpm == le_u16(d, o + 16)
            &&& x.drs == d[o + 18]
            &&& x.brake_temp_rl == le_u16(d, o + 22)
            &&& x.brake_temp_rr == le_u16(d, o + 24)
            &&& x.brake_temp_fl == le_u16(d, o + 26)
            &&& x.brake_temp_fr == le_u16(d, o + 28)
            &&& x.tyre_surface_rl == d[o + 30]
            &&& x.tyre_surface_rr == d[o + 31]
            &&& x.tyre_surface_fl == d[o + 32]
            &&& x.tyre_surface_fr == d[o + 33]
            &&& x.tyre_inner_rl == d[o + 34]
            &&& x.tyre_inner_rr == d[o + 35]
            &&& x.tyre_inner_fl == d[o + 36]
            &&& x.tyre_inner_fr == d[o + 37]
        }),
{
}

/// On an active session, a car status packet merges the status of the
/// player's car (the 55-byte record at `29 + 55 * player index`) into the
/// sample of the packet's frame.
pub proof fn lemma_status_packet_reads_player_car(
    s: SessionModel,
    d: Seq<u8>,
    session_id: Seq<char>,
    start_time: Seq<char>,
    lap_id: Seq<char>,
)
    requires
        s.active,
        d.len() >= 29,
        d[6] == 7,
        d.len() >= 29 + 55 * d[27] + 55,
    ensures
        ({
            let p = packet_step(s, d, session_id, start_time, lap_id);
            let x = p.0.current_sample.unwrap();
            let o = 29 + 55 * d[27];
            &&& p.1 == Ok::<PacketOutcome, PacketError>(PacketOutcome::Continue)
            &&& p.0.current_sample is Some
            &&& x.frame == le_u32(d, 19)
            &&& x.fuel_in_tank == le_u32(d, o + 5)
            &&& x.drs_allowed == d[o + 22]
            &&& x.ers_store_energy == le_u32(d, o + 37)
            &&& x.ers_deploy_mode == d[o + 41]
        }),
{
}

/// On an active session, an extended motion packet (the player's car only,
/// right after the header) merges the suspension and wheel-speed channels
/// into the sample of the packet's frame; each wheel array comes in the
/// order RL, RR, FL, FR.
pub proof fn lemma_motion_ex_packet_reads_wheels(
    s: SessionModel,
    d: Seq<u8>,
    session_id: Seq<char>,
    start_time: Seq<char>,
    lap_id: Seq<char>,
)
    requires
        s.active,
        d.len() >= 29 + 208,
        d[6] == 13,
    ensures
        ({
            let p = packet_step(s, d, session_id, start_time, lap_id);
            let x = p.0.current_sample.unwrap();
            &&& p.1 == Ok::<PacketOutcome, PacketError>(PacketOutcome::Continue)
            &&& p.0.current_sample is Some
            &&& x.frame == le_u32(d, 19)
            &&& x.suspension_pos_rl == le_u32(d, 29)
            &&& x.suspension_pos_rr == le_u32(d, 33)
            &&& x.suspension_pos_fl == le_u32(d, 37)
            &&& x.suspension_pos_fr == le_u32(d, 41)
            &&& x.suspension_vel_rl == le_u32(d, 45)
            &&& x.suspension_vel_rr == le_u32(d, 49)
            &&& x.suspension_vel_fl == le_u32(d, 53)
            &&& x.suspension_vel_fr == le_u32(d, 57)
            &&& x.suspension_acc_rl == le_u32(d, 61)
            &&& x.suspension_acc_rr == le_u32(d, 65)
            &&& x.suspension_acc_fl == le_u32(d, 69)
            &&& x.suspension_acc_fr == le_u32(d, 73)
            &&& x.wheel_speed_rl == le_u32(d, 77)
            &&& x.wheel_speed_rr == le_u32(d, 81)
            &&& x.wheel_speed_fl == le_u32(d, 85)
            &&& x.wheel_speed_fr == le_u32(d, 89)
        }),
{
}

/// On an active session, a lap data packet reads the player's car (the
/// 57-byte record at `29 + 57 * player index`): its lap number, sector and
/// distances go to the session and the frame's sample, a non-zero sector
/// time (minutes byte times 60000 plus the milliseconds) becomes the live
/// sector time, and a move to a later lap with a reported lap time records
/// the finished lap with the cached sector times.
pub proof fn lemma_lap_packet_reads_player_car(
    s: SessionModel,
    d: Seq<u8>,
    session_id: Seq<char>,
    start_time: Seq<char>,
    lap_id: Seq<char>,
)
    requires
        s.active,
        d.len() >= 29,
        d[6] == 2,
        d.len() >= 29 + 57 * d[27] + 57,
    ensures
        ({
            let p = packet_step(s, d, session_id, start_time, lap_id);
            let n = p.0;
            let x = n.current_sample.unwrap();
            let o = 29 + 57 * d[27];
            let s1 = d[o + 10] * 60000 + le_u16(d, o + 8);
            let s2 = d[o + 13] * 60000 + le_u16(d, o + 11);
            let recorded = d[o + 33] > s.current_lap && s.current_lap > 0 && le_u32(d, o) > 0;
            &&& p.1 == Ok::<PacketOutcome, PacketError>(PacketOutcome::Continue)
            &&& n.current_sample is Some
            &&& x.frame == le_u32(d, 19)
            &&& x.lap_number == d[o + 33]
            &&& x.lap_distance == le_u32(d, o + 20)
            &&& x.total_distance == le_u32(d, o + 24)
            &&& n.current_lap == d[o + 33]
            &&& n.current_sector == d[o + 36]
            &&& s1 > 0 ==> n.live_sector1_ms == s1 && n.last_sector1_ms == s1
            &&& s2 > 0 ==> n.live_sector2_ms == s2 && n.last_sector2_ms == s2
            &&& !recorded ==> n.laps == s.laps
            &&& recorded ==> {
                &&& n.laps.len() == s.laps.len() + 1
                &&& n.laps.drop_last() == s.laps
                &&& n.laps.last().lap_number == s.current_lap
                &&& n.laps.last().lap_time_ms == le_u32(d, o)
                &&& n.laps.last().sector1_ms == s.last_sector1_ms
                &&& n.laps.last().sector2_ms == s.last_sector2_ms
                &&& n.laps.last().position == d[o + 32]
                &&& n.laps.last().penalties == d[o + 38]
                &&& n.laps.last().warnings == d[o + 39]
            }
        }),
{
    let p = packet_step(s, d, session_id, start_time, lap_id);
    let o = 29 + 57 * d[27];
    let lap = spec_lap_data(d, o);
    assert(lap.current_lap_num == d[o + 33]);
    if s.lap_recorded(lap) {
        assert(p.0.laps.drop_last() =~= s.laps);
    }
}

/// A session packet while no session is active starts one described by the
/// packet: the session fields right after the header (weather at 29, track
/// and air temperature at 30 and 31, lap count at 32, session type at 35,
/// track at 36) and the header's session uid (bytes 7 to 14).
pub proof fn lemma_session_packet_reads_session(
    s: SessionModel,
    d: Seq<u8>,
    session_id: Seq<char>,
    start_time: Seq<char>,
    lap_id: Seq<char>,
)
    requires
        !s.active,
        d.len() >= 29 + 19,
        d[6] == 1,
    ensures
        ({
            let p = packet_step(s, d, session_id, start_time, lap_id);
            let m = p.0.meta.unwrap();
            &&& p.1 == Ok::<PacketOutcome, PacketError>(PacketOutcome::SessionStarted)
            &&& p.0.active
            &&& p.0.meta is Some
            &&& m.session_uid == le_u64(d, 7)
            &&& m.weather == d[29]
            &&& m.track_temperature == d[30] as i8
            &&& m.air_temperature == d[31] as i8
            &&& m.total_laps == d[32]
            &&& m.session_type == d[35]
            &&& m.track_id == d[36] as i8
            &&& m.session_id == session_id
            &&& m.start_time == start_time
            &&& p.0.laps.len() == 0
            &&& p.0.telemetry.len() == 0
            &&& p.0.events.len() == 0
        }),
{
}

/// On an active session, an event packet whose code (bytes 29 to 32) is
/// neither `SSTA` nor `SEND` records the event: its code decoded from those
/// bytes, with the header's session time (bytes 15 to 18) and frame (bytes
/// 19 to 22). `SEND` ends the session, and `SSTA` ends the running one.
pub proof fn lemma_event_packet_records_event(
    s: SessionModel,
    d: Seq<u8>,
    session_id: Seq<char>,
    start_time: Seq<char>,
    lap_id: Seq<char>,
)
    requires
        s.active,
        d.len() >= 33,
        d[6] == 3,
    ensures
        ({
            let p = packet_step(s, d, session_id, start_time, lap_id);
            let code = seq![d[29], d[30], d[31], d[32]];
            let ssta = d[29] == 83 && d[30] == 83 && d[31] == 84 && d[32] == 65;
            let send = d[29] == 83 && d[30] == 69 && d[31] == 78 && d[32] == 68;
            &&& !ssta && !send ==> {
                &&& p.1 == Ok::<PacketOutcome, PacketError>(PacketOutcome::Continue)
                &&& p.0.events.len() == s.events.len() + 1
                &&& p.0.events.drop_last() == s.events
                &&& p.0.events.last().event_code == utf8_lossy(code)
                &&& p.0.events.last().timestamp == le_u32(d, 15)
                &&& p.0.events.last().frame == le_u32(d, 19)
                &&& p.0.telemetry == s.telemetry
                &&& p.0.laps == s.laps
            }
            &&& ssta || send ==> {
                &&& p.1 == Ok::<PacketOutcome, PacketError>(PacketOutcome::SessionEnded)
                &&& !p.0.active
                &&& p.0.events == s.events
            }
        }),
{
    let p = packet_step(s, d, session_id, start_time, lap_id);
    let code = bytes4(d, 29);
    assert(code@ =~= seq![d[29], d[30], d[31], d[32]]);
    assert(SESSION_STARTED@ =~= seq![83u8, 83, 84, 65]);
    assert(SESSION_ENDED@ =~= seq![83u8, 69, 78, 68]);
    if code == SESSION_STARTED {
        assert(code@ == SESSION_STARTED@);
    }
    if code == SESSION_ENDED {
        assert(code@ == SESSION_ENDED@);
    }
    if d[29] == 83 && d[30] == 83 && d[31] == 84 && d[32] == 65 {
        broadcast use vstd::array::axiom_array_ext_equal;

        assert(code =~= SESSION_STARTED);
    }
    if d[29] == 83 && d[30] == 69 && d[31] == 78 && d[32] == 68 {
        broadcast use vstd::array::axiom_array_ext_equal;

        assert(code =~= SESSION_ENDED);
    }
    if p.0.events.len() == s.events.len() + 1 {
        assert(p.0.events.drop_last() =~= s.events);
    }
}

/// While no session is active, an event packet records nothing: `SEND`
/// (bytes 29 to 32) still reports the session ended, and any other code,
/// `SSTA` included, leaves the state as it was.
pub proof fn lemma_event_packet_while_inactive(
    s: SessionModel,
    d: Seq<u8>,
    session_id: Seq<char>,
    start_time: Seq<char>,
    lap_id: Seq<char>,
)
    requires
        !s.active,
        d.len() >= 33,
        d[6] == 3,
    ensures
        ({
            let p = packet_step(s, d, session_id, start_time, lap_id);
            let send = d[29] == 83 && d[30] == 69 && d[31] == 78 && d[32] == 68;
            &&& p.0.events == s.events
            &&& !p.0.active
            &&& send ==> p.1 == Ok::<PacketOutcome, PacketError>(PacketOutcome::SessionEnded)
            &&& !send ==> p.1 == Ok::<PacketOutcome, PacketError>(PacketOutcome::Continue) && p.0 == s
        }),
{
    let code = bytes4(d, 29);
    if code == SESSION_ENDED {
        assert(code@ == SESSION_ENDED@);
        assert(SESSION_ENDED@ =~= seq![83u8, 69, 78, 68]);
    }
    if d[29] == 83 && d[30] == 69 && d[31] == 78 && d[32] == 68 {
        broadcast use vstd::array::axiom_array_ext_equal;

        assert(code =~= SESSION_ENDED);
    }
}

} // verus!
