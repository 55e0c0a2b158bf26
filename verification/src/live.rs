//! The snapshot of live state sent to the dashboard, and the naming rules
//! the live server applies.

use vstd::prelude::*;
use vstd::string::StrSliceExecFns;

use crate::session::{LapRecord, SessionMeta, TelemetrySample};
use crate::storage::{track_name, track_name_text};
use crate::text::{ascii_alphanumeric, is_alphanumeric, is_ascii_text, unicode_alphanumeric};

verus! {

/// Summary of a completed lap as shown in the live timing table.
#[derive(Debug, Clone, Copy)]
pub struct LapSummary {
    pub lap_number: u8,
    pub lap_time_ms: u32,
    pub sector1_ms: u32,
    pub sector2_ms: u32,
    pub sector3_ms: u32,
    pub position: u8,
}

/// Snapshot of live state sent to the UI. Values the game sends as `f32`
/// are held as their bit patterns; sector times are whole milliseconds.
#[derive(Debug, Clone)]
pub struct LiveFrame {
    // Session
    pub session_active: bool,
    pub track: String,
    pub session_type: String,
    pub current_lap: u8,
    pub total_laps: u8,
    // Telemetry
    pub speed: u16,
    pub rpm: u16,
    pub gear: i8,
    pub throttle: u32,
    pub brake: u32,
    pub steer: u32,
    pub drs: u8,
    pub drs_allowed: u8,
    pub ers_deploy_mode: u8,
    pub ers_store_energy: u32,
    pub fuel_in_tank: u32,
    // Tyres (surface temps)
    pub tyre_fl: u8,
    pub tyre_fr: u8,
    pub tyre_rl: u8,
    pub tyre_rr: u8,
    // Brake temps
    pub brake_temp_fl: u16,
    pub brake_temp_fr: u16,
    pub brake_temp_rl: u16,
    pub brake_temp_rr: u16,
    // Lap timing
    pub lap_distance: u32,
    pub total_distance: u32,
    pub session_time: u32,
    // G-forces
    pub g_lateral: u32,
    pub g_longitudinal: u32,
    // Current lap live sectors
    pub current_sector: u8,
    pub current_sector1_ms: u32,
    pub current_sector2_ms: u32,
    // Last completed laps, newest first
    pub laps: Vec<LapSummary>,
}

/// Display name of session type `t`.
pub open spec fn session_type_text(t: u8) -> Seq<char> {
    match t {
        0 => "Unknown"@,
        1 => "P1"@,
        2 => "P2"@,
        3 => "P3"@,
        4 => "Short Practice"@,
        5 => "Q1"@,
        6 => "Q2"@,
        7 => "Q3"@,
        8 => "Short Quali"@,
        9 => "OSQ"@,
        10 => "Sprint Shootout 1"@,
        11 => "Sprint Shootout 2"@,
        12 => "Sprint Shootout 3"@,
        13 => "Short Sprint Shootout"@,
        14 => "OSS"@,
        15 => "Race"@,
        16 => "Race 2"@,
        17 => "Race 3"@,
        18 => "Time Trial"@,
        _ => "Unknown"@,
    }
}

/// Display name of session type `t`.
pub fn session_type_name(t: u8) -> (r: String)
    ensures
        r@ == session_type_text(t),
{
    let name = match t {
        0 => "Unknown",
        1 => "P1",
        2 => "P2",
        3 => "P3",
        4 => "Short Practice",
        5 => "Q1",
        6 => "Q2",
        7 => "Q3",
        8 => "Short Quali",
        9 => "OSQ",
        10 => "Sprint Shootout 1",
        11 => "Sprint Shootout 2",
        12 => "Sprint Shootout 3",
        13 => "Short Sprint Shootout",
        14 => "OSS",
        15 => "Race",
        16 => "Race 2",
        17 => "Race 3",
        18 => "Time Trial",
        _ => "Unknown",
    };
    name.to_owned()
}

/// The timing-table summary of a lap.
pub open spec fn lap_summary(l: LapRecord) -> LapSummary {
    LapSummary {
        lap_number: l.lap_number,
        lap_time_ms: l.lap_time_ms,
        sector1_ms: l.sector1_ms,
        sector2_ms: l.sector2_ms,
        sector3_ms: l.sector3_ms,
        position: l.position,
    }
}

/// How many laps the live frame shows.
pub const MAX_LIVE_LAPS: usize = 10;

/// Summaries of the most recent laps, newest first, at most ten of them.
pub open spec fn recent_laps(laps: Seq<LapRecord>) -> Seq<LapSummary> {
    let n = if laps.len() < MAX_LIVE_LAPS { laps.len() } else { MAX_LIVE_LAPS as nat };
    Seq::new(n, |i: int| lap_summary(laps[laps.len() - 1 - i]))
}

/// Whether `f` shows the telemetry values of `sample`.
pub open spec fn shows_sample(f: LiveFrame, sample: TelemetrySample) -> bool {
    &&& f.speed == sample.speed
    &&& f.rpm == sample.rpm
    &&& f.gear == sample.gear
    &&& f.throttle == sample.throttle
    &&& f.brake == sample.brake
    &&& f.steer == sample.steer
    &&& f.drs == sample.drs
    &&& f.drs_allowed == sample.drs_allowed
    &&& f.ers_deploy_mode == sample.ers_deploy_mode
    &&& f.ers_store_energy == sample.ers_store_energy
    &&& f.fuel_in_tank == sample.fuel_in_tank
    &&& f.tyre_fl == sample.tyre_surface_fl
    &&& f.tyre_fr == sample.tyre_surface_fr
    &&& f.tyre_rl == sample.tyre_surface_rl
    &&& f.tyre_rr == sample.tyre_surface_rr
    &&& f.brake_temp_fl == sample.brake_temp_fl
    &&& f.brake_temp_fr == sample.brake_temp_fr
    &&& f.brake_temp_rl == sample.brake_temp_rl
    &&& f.brake_temp_rr == sample.brake_temp_rr
    &&& f.lap_distance == sample.lap_distance
    &&& f.total_distance == sample.total_distance
    &&& f.session_time == sample.timestamp
    &&& f.g_lateral == sample.g_lateral
    &&& f.g_longitudinal == sample.g_longitudinal
}

impl LiveFrame {
    /// Builds the snapshot of the live state.
    pub fn from_state(
        sample: &TelemetrySample,
        meta: Option<&SessionMeta>,
        current_lap: u8,
        laps: &[LapRecord],
        current_sector: u8,
        live_sector1_ms: u32,
        live_sector2_ms: u32,
    ) -> (r: Self)
        ensures
            shows_sample(r, *sample),
            r.session_active == (meta is Some),
            r.track@ == (match meta {
                Some(m) => track_name_text(m.track_id),
                None => Seq::empty(),
            }),
            r.session_type@ == (match meta {
                Some(m) => session_type_text(m.session_type),
                None => Seq::empty(),
            }),
            r.total_laps == (match meta {
                Some(m) => m.total_laps,
                None => 0,
            }),
            r.current_lap == current_lap,
            r.current_sector == current_sector,
            r.current_sector1_ms == live_sector1_ms,
            r.current_sector2_ms == live_sector2_ms,
            r.laps@ == recent_laps(laps@),
    {
        let (track, session_type, total_laps, session_active) = match meta {
            Some(m) => (track_name(m.track_id).to_owned(), session_type_name(m.session_type), m.total_laps, true),
            None => (String::new(), String::new(), 0, false),
        };

        let n = laps.len();
        let count = if n < MAX_LIVE_LAPS { n } else { MAX_LIVE_LAPS };
        let mut lap_summaries: Vec<LapSummary> = Vec::new();
        let mut i: usize = 0;
        while i < count
            invariant
                n == laps@.len(),
                count <= n,
                count == recent_laps(laps@).len(),
                i <= count,
                lap_summaries@ == recent_laps(laps@).take(i as int),
            decreases count - i,
        {
            let l = &laps[n - 1 - i];
            lap_summaries.push(
                LapSummary {
                    lap_number: l.lap_number,
                    lap_time_ms: l.lap_time_ms,
                    sector1_ms: l.sector1_ms,
                    sector2_ms: l.sector2_ms,
                    sector3_ms: l.sector3_ms,
                    position: l.position,
                },
            );
            i = i + 1;
            assert(lap_summaries@ =~= recent_laps(laps@).take(i as int));
        }
        assert(lap_summaries@ =~= recent_laps(laps@));

        Self {
            session_active,
            track,
            session_type,
            current_lap,
            total_laps,
            speed: sample.speed,
            rpm: sample.rpm,
            gear: sample.gear,
            throttle: sample.throttle,
            brake: sample.brake,
            steer: sample.steer,
            drs: sample.drs,
            drs_allowed: sample.drs_allowed,
            ers_deploy_mode: sample.ers_deploy_mode,
            ers_store_energy: sample.ers_store_energy,
            fuel_in_tank: sample.fuel_in_tank,
            tyre_fl: sample.tyre_surface_fl,
            tyre_fr: sample.tyre_surface_fr,
            tyre_rl: sample.tyre_surface_rl,
            tyre_rr: sample.tyre_surface_rr,
            brake_temp_fl: sample.brake_temp_fl,
            brake_temp_fr: sample.brake_temp_fr,
            brake_temp_rl: sample.brake_temp_rl,
            brake_temp_rr: sample.brake_temp_rr,
            lap_distance: sample.lap_distance,
            total_distance: sample.total_distance,
            session_time: sample.timestamp,
            g_lateral: sample.g_lateral,
            g_longitudinal: sample.g_longitudinal,
            current_sector,
            current_sector1_ms: live_sector1_ms,
            current_sector2_ms: live_sector2_ms,
            laps: lap_summaries,
        }
    }
}

/// Whether `c` may appear in a circuit name requested from the live server.
pub open spec fn circuit_name_char(c: char) -> bool {
    unicode_alphanumeric(c) || c == '_' || c == '-'
}

/// The chars of `s` that may appear in a circuit name, in order.
pub open spec fn circuit_name_chars(s: Seq<char>) -> Seq<char>
    decreases s.len(),
{
    if s.len() == 0 {
        Seq::empty()
    } else {
        circuit_name_chars(s.drop_last()) + (if circuit_name_char(s.last()) {
            seq![s.last()]
        } else {
            Seq::empty()
        })
    }
}

/// Whether the ASCII char `c` may appear in a circuit name: a letter, a
/// digit, `_` or `-`.
pub open spec fn ascii_circuit_name_char(c: char) -> bool {
    ascii_alphanumeric(c) || c == '_' || c == '-'
}

/// The chars of the ASCII text `s` that may appear in a circuit name, in
/// order.
pub open spec fn ascii_circuit_name_chars(s: Seq<char>) -> Seq<char>
    decreases s.len(),
{
    if s.len() == 0 {
        Seq::empty()
    } else {
        ascii_circuit_name_chars(s.drop_last()) + (if ascii_circuit_name_char(s.last()) {
            seq![s.last()]
        } else {
            Seq::empty()
        })
    }
}

proof fn lemma_ascii_circuit_name_chars_kept(s: Seq<char>)
    ensures
        forall|i: int|
            0 <= i < ascii_circuit_name_chars(s).len() ==> ascii_circuit_name_char(
                #[trigger] ascii_circuit_name_chars(s)[i],
            ),
    decreases s.len(),
{
    if s.len() > 0 {
        lemma_ascii_circuit_name_chars_kept(s.drop_last());
        let p = ascii_circuit_name_chars(s.drop_last());
        assert forall|i: int| 0 <= i < ascii_circuit_name_chars(s).len() implies ascii_circuit_name_char(
            #[trigger] ascii_circuit_name_chars(s)[i],
        ) by {
            if i < p.len() {
                assert(ascii_circuit_name_chars(s)[i] == p[i]);
            }
        }
    }
}

/// The SVG file served for a requested circuit `name`: every char other
/// than alphanumerics, `_` and `-` is removed, and `.svg` is appended. For
/// an ASCII name only letters, digits, `_` and `-` stay in the stem, so it
/// holds no `/` and no `.`.
pub fn circuit_svg_file_name(name: &str) -> (r: String)
    ensures
        r@ == circuit_name_chars(name@) + ".svg"@,
        is_ascii_text(name@) ==> r@ == ascii_circuit_name_chars(name@) + ".svg"@,
        is_ascii_text(name@) ==> forall|i: int|
            0 <= i < r@.len() - 4 ==> ascii_circuit_name_char(#[trigger] r@[i]),
{
    let len = name.unicode_len();
    let mut out = String::new();
    let mut i: usize = 0;
    while i < len
        invariant
            len == name@.len(),
            i <= len,
            out@ == circuit_name_chars(name@.take(i as int)),
            is_ascii_text(name@) ==> out@ == ascii_circuit_name_chars(name@.take(i as int)),
        decreases len - i,
    {
        let c = name.get_char(i);
        proof {
            if is_ascii_text(name@) {
                assert('\0' <= name@[i as int] <= '\u{7f}');
                assert((c as u32) < 128);
            }
        }
        if is_alphanumeric(c) || c == '_' || c == '-' {
            out.append(name.substring_char(i, i + 1));
        }
        assert(name@.take(i + 1).drop_last() =~= name@.take(i as int));
        i = i + 1;
    }
    assert(name@.take(len as int) =~= name@);
    out.append(".svg");
    proof {
        reveal_strlit(".svg");
        lemma_ascii_circuit_name_chars_kept(name@);
        if is_ascii_text(name@) {
            let stem = ascii_circuit_name_chars(name@);
            assert forall|i: int| 0 <= i < out@.len() - 4 implies ascii_circuit_name_char(
                #[trigger] out@[i],
            ) by {
                assert(out@[i] == stem[i]);
            }
        }
    }
    out
}


/// The live timing table shows at most ten laps, all of them when there are
/// no more, starting with the most recent one; each shown lap is followed
/// by the lap recorded just before it.
pub proof fn lemma_recent_laps(laps: Seq<LapRecord>)
    ensures
        recent_laps(laps).len() <= MAX_LIVE_LAPS,
        laps.len() <= MAX_LIVE_LAPS ==> recent_laps(laps).len() == laps.len(),
        laps.len() > 0 ==> recent_laps(laps)[0] == lap_summary(laps.last()),
        forall|i: int|
            0 <= i < recent_laps(laps).len() - 1 ==> #[trigger] recent_laps(laps)[i + 1] == lap_summary(
                laps[laps.len() - 2 - i],
            ),
{
}

/// Each lap shown in the live timing table carries the times and place of
/// the lap it stands for: row `i` is the `i`-th most recent lap.
pub proof fn lemma_recent_laps_fields(laps: Seq<LapRecord>)
    ensures
        forall|i: int|
            0 <= i < recent_laps(laps).len() ==> {
                let r = #[trigger] recent_laps(laps)[i];
                let l = laps[laps.len() - 1 - i];
                &&& r.lap_number == l.lap_number
                &&& r.lap_time_ms == l.lap_time_ms
                &&& r.sector1_ms == l.sector1_ms
                &&& r.sector2_ms == l.sector2_ms
                &&& r.sector3_ms == l.sector3_ms
                &&& r.position == l.position
            },
{
}

/// A frame that shows a sample carries each channel under its own name;
/// the tyre and brake temperatures keep their corners.
pub proof fn lemma_frame_channels(f: LiveFrame, x: TelemetrySample)
    requires
        shows_sample(f, x),
    ensures
        f.throttle == x.throttle && f.brake == x.brake && f.steer == x.steer,
        f.speed == x.speed && f.rpm == x.rpm && f.gear == x.gear,
        f.tyre_fl == x.tyre_surface_fl && f.tyre_fr == x.tyre_surface_fr,
        f.tyre_rl == x.tyre_surface_rl && f.tyre_rr == x.tyre_surface_rr,
        f.brake_temp_fl == x.brake_temp_fl && f.brake_temp_fr == x.brake_temp_fr,
        f.brake_temp_rl == x.brake_temp_rl && f.brake_temp_rr == x.brake_temp_rr,
        f.g_lateral == x.g_lateral && f.g_longitudinal == x.g_longitudinal,
        f.lap_distance == x.lap_distance && f.total_distance == x.total_distance,
        f.session_time == x.timestamp,
{
}

} // verus!
