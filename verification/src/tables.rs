//! The tables a saved session is stored as: each table is a list of named,
//! typed columns, and column `k` holds field `k` of every record, in order.
//! Written out by the program as Parquet files, one column per field, so
//! every channel of every sample is kept.

use vstd::prelude::*;

use crate::session::{EventRecord, EventRecordView, LapRecord, LapRecordView, TelemetrySample};

verus! {

/// The type of a stored column.
#[derive(Clone, Copy, Debug, PartialEq, Eq, Structural)]
pub enum ColumnType {
    Float32,
    UInt32,
    UInt16,
    UInt8,
    Int8,
    Utf8,
}

/// The values of one column, in record order.
pub enum ColumnData {
    /// `f32` values, as their bit patterns (`f32::to_bits`).
    Float32(Vec<u32>),
    /// `f32` values that are whole numbers, given as those numbers; each is
    /// stored as the nearest `f32` (exact below 2^24).
    Float32Whole(Vec<u32>),
    UInt32(Vec<u32>),
    UInt16(Vec<u16>),
    UInt8(Vec<u8>),
    Int8(Vec<i8>),
    Utf8(Vec<String>),
}

/// The type of the column `c` holds.
pub open spec fn column_type(c: ColumnData) -> ColumnType {
    match c {
        ColumnData::Float32(_) => ColumnType::Float32,
        ColumnData::Float32Whole(_) => ColumnType::Float32,
        ColumnData::UInt32(_) => ColumnType::UInt32,
        ColumnData::UInt16(_) => ColumnType::UInt16,
        ColumnData::UInt8(_) => ColumnType::UInt8,
        ColumnData::Int8(_) => ColumnType::Int8,
        ColumnData::Utf8(_) => ColumnType::Utf8,
    }
}

/// The number of values in `c`.
pub open spec fn column_len(c: ColumnData) -> nat {
    match c {
        ColumnData::Float32(v) => v@.len(),
        ColumnData::Float32Whole(v) => v@.len(),
        ColumnData::UInt32(v) => v@.len(),
        ColumnData::UInt16(v) => v@.len(),
        ColumnData::UInt8(v) => v@.len(),
        ColumnData::Int8(v) => v@.len(),
        ColumnData::Utf8(v) => v@.len(),
    }
}

/// Value `i` of a numeric column (`f32` columns: the bit pattern, or the
/// whole number); 0 for a text column.
pub open spec fn column_cell(c: ColumnData, i: int) -> int {
    match c {
        ColumnData::Float32(v) => v@[i] as int,
        ColumnData::Float32Whole(v) => v@[i] as int,
        ColumnData::UInt32(v) => v@[i] as int,
        ColumnData::UInt16(v) => v@[i] as int,
        ColumnData::UInt8(v) => v@[i] as int,
        ColumnData::Int8(v) => v@[i] as int,
        ColumnData::Utf8(_) => 0,
    }
}

/// Value `i` of a text column; empty for a numeric column.
pub open spec fn column_text(c: ColumnData, i: int) -> Seq<char> {
    match c {
        ColumnData::Utf8(v) => v@[i]@,
        _ => Seq::empty(),
    }
}

/// The number of columns of the telemetry table: one per sample field.
pub const TELEMETRY_COLUMNS: usize = 57;

/// The name of telemetry column `k`: the name of field `k` of
/// [`TelemetrySample`].
pub open spec fn telemetry_column_name(k: int) -> Seq<char> {
    if k == 0 {
        "timestamp"@
    } else if k == 1 {
        "frame"@
    } else if k == 2 {
        "lap_number"@
    } else if k == 3 {
        "lap_distance"@
    } else if k == 4 {
        "total_distance"@
    } else if k == 5 {
        "throttle"@
    } else if k == 6 {
        "brake"@
    } else if k == 7 {
        "steer"@
    } else if k == 8 {
        "clutch"@
    } else if k == 9 {
        "gear"@
    } else if k == 10 {
        "speed"@
    } else if k == 11 {
        "rpm"@
    } else if k == 12 {
        "drs"@
    } else if k == 13 {
        "drs_allowed"@
    } else if k == 14 {
        "ers_store_energy"@
    } else if k == 15 {
        "ers_deploy_mode"@
    } else if k == 16 {
        "fuel_in_tank"@
    } else if k == 17 {
        "world_x"@
    } else if k == 18 {
        "world_y"@
    } else if k == 19 {
        "world_z"@
    } else if k == 20 {
        "velocity_x"@
    } else if k == 21 {
        "velocity_y"@
    } else if k == 22 {
        "velocity_z"@
    } else if k == 23 {
        "yaw"@
    } else if k == 24 {
        "pitch"@
    } else if k == 25 {
        "roll"@
    } else if k == 26 {
        "g_lateral"@
    } else if k == 27 {
        "g_longitudinal"@
    } else if k == 28 {
        "g_vertical"@
    } else if k == 29 {
        "tyre_surface_fl"@
    } else if k == 30 {
        "tyre_surface_fr"@
    } else if k == 31 {
        "tyre_surface_rl"@
    } else if k == 32 {
        "tyre_surface_rr"@
    } else if k == 33 {
        "tyre_inner_fl"@
    } else if k == 34 {
        "tyre_inner_fr"@
    } else if k == 35 {
        "tyre_inner_rl"@
    } else if k == 36 {
        "tyre_inner_rr"@
    } else if k == 37 {
        "brake_temp_fl"@
    } else if k == 38 {
        "brake_temp_fr"@
    } else if k == 39 {
        "brake_temp_rl"@
    } else if k == 40 {
        "brake_temp_rr"@
    } else if k == 41 {
        "suspension_pos_fl"@
    } else if k == 42 {
        "suspension_pos_fr"@
    } else if k == 43 {
        "suspension_pos_rl"@
    } else if k == 44 {
        "suspension_pos_rr"@
    } else if k == 45 {
        "suspension_vel_fl"@
    } else if k == 46 {
        "suspension_vel_fr"@
    } else if k == 47 {
        "suspension_vel_rl"@
    } else if k == 48 {
        "suspension_vel_rr"@
    } else if k == 49 {
        "suspension_acc_fl"@
    } else if k == 50 {
        "suspension_acc_fr"@
    } else if k == 51 {
        "suspension_acc_rl"@
    } else if k == 52 {
        "suspension_acc_rr"@
    } else if k == 53 {
        "wheel_speed_fl"@
    } else if k == 54 {
        "wheel_speed_fr"@
    } else if k == 55 {
        "wheel_speed_rl"@
    } else if k == 56 {
        "wheel_speed_rr"@
    } else {
        Seq::empty()
    }
}

/// The type of telemetry column `k`.
pub open spec fn telemetry_column_type(k: int) -> ColumnType {
    if k == 0 {
        ColumnType::Float32
    } else if k == 1 {
        ColumnType::UInt32
    } else if k == 2 {
        ColumnType::UInt8
    } else if k == 3 {
        ColumnType::Float32
    } else if k == 4 {
        ColumnType::Float32
    } else if k == 5 {
        ColumnType::Float32
    } else if k == 6 {
        ColumnType::Float32
    } else if k == 7 {
        ColumnType::Float32
    } else if k == 8 {
        ColumnType::UInt8
    } else if k == 9 {
        ColumnType::Int8
    } else if k == 10 {
        ColumnType::UInt16
    } else if k == 11 {
        ColumnType::UInt16
    } else if k == 12 {
        ColumnType::UInt8
    } else if k == 13 {
        ColumnType::UInt8
    } else if k == 14 {
        ColumnType::Float32
    } else if k == 15 {
        ColumnType::UInt8
    } else if k == 16 {
        ColumnType::Float32
    } else if k == 17 {
        ColumnType::Float32
    } else if k == 18 {
        ColumnType::Float32
    } else if k == 19 {
        ColumnType::Float32
    } else if k == 20 {
        ColumnType::Float32
    } else if k == 21 {
        ColumnType::Float32
    } else if k == 22 {
        ColumnType::Float32
    } else if k == 23 {
        ColumnType::Float32
    } else if k == 24 {
        ColumnType::Float32
    } else if k == 25 {
        ColumnType::Float32
    } else if k == 26 {
        ColumnType::Float32
    } else if k == 27 {
        ColumnType::Float32
    } else if k == 28 {
        ColumnType::Float32
    } else if k == 29 {
        ColumnType::UInt8
    } else if k == 30 {
        ColumnType::UInt8
    } else if k == 31 {
        ColumnType::UInt8
    } else if k == 32 {
        ColumnType::UInt8
    } else if k == 33 {
        ColumnType::UInt8
    } else if k == 34 {
        ColumnType::UInt8
    } else if k == 35 {
        ColumnType::UInt8
    } else if k == 36 {
        ColumnType::UInt8
    } else if k == 37 {
        ColumnType::UInt16
    } else if k == 38 {
        ColumnType::UInt16
    } else if k == 39 {
        ColumnType::UInt16
    } else if k == 40 {
        ColumnType::UInt16
    } else if k == 41 {
        ColumnType::Float32
    } else if k == 42 {
        ColumnType::Float32
    } else if k == 43 {
        ColumnType::Float32
    } else if k == 44 {
        ColumnType::Float32
    } else if k == 45 {
        ColumnType::Float32
    } else if k == 46 {
        ColumnType::Float32
    } else if k == 47 {
        ColumnType::Float32
    } else if k == 48 {
        ColumnType::Float32
    } else if k == 49 {
        ColumnType::Float32
    } else if k == 50 {
        ColumnType::Float32
    } else if k == 51 {
        ColumnType::Float32
    } else if k == 52 {
        ColumnType::Float32
    } else if k == 53 {
        ColumnType::Float32
    } else if k == 54 {
        ColumnType::Float32
    } else if k == 55 {
        ColumnType::Float32
    } else if k == 56 {
        ColumnType::Float32
    } else {
        ColumnType::Float32
    }
}

/// Field `k` of `s`, in declaration order (`f32` fields as bit patterns).
pub open spec fn telemetry_cell(s: TelemetrySample, k: int) -> int {
    if k == 0 {
        s.timestamp as int
    } else if k == 1 {
        s.frame as int
    } else if k == 2 {
        s.lap_number as int
    } else if k == 3 {
        s.lap_distance as int
    } else if k == 4 {
        s.total_distance as int
    } else if k == 5 {
        s.throttle as int
    } else if k == 6 {
        s.brake as int
    } else if k == 7 {
        s.steer as int
    } else if k == 8 {
        s.clutch as int
    } else if k == 9 {
        s.gear as int
    } else if k == 10 {
        s.speed as int
    } else if k == 11 {
        s.rpm as int
    } else if k == 12 {
        s.drs as int
    } else if k == 13 {
        s.drs_allowed as int
    } else if k == 14 {
        s.ers_store_energy as int
    } else if k == 15 {
        s.ers_deploy_mode as int
    } else if k == 16 {
        s.fuel_in_tank as int
    } else if k == 17 {
        s.world_x as int
    } else if k == 18 {
        s.world_y as int
    } else if k == 19 {
        s.world_z as int
    } else if k == 20 {
        s.velocity_x as int
    } else if k == 21 {
        s.velocity_y as int
    } else if k == 22 {
        s.velocity_z as int
    } else if k == 23 {
        s.yaw as int
    } else if k == 24 {
        s.pitch as int
    } else if k == 25 {
        s.roll as int
    } else if k == 26 {
        s.g_lateral as int
    } else if k == 27 {
        s.g_longitudinal as int
    } else if k == 28 {
        s.g_vertical as int
    } else if k == 29 {
        s.tyre_surface_fl as int
    } else if k == 30 {
        s.tyre_surface_fr as int
    } else if k == 31 {
        s.tyre_surface_rl as int
    } else if k == 32 {
        s.tyre_surface_rr as int
    } else if k == 33 {
        s.tyre_inner_fl as int
    } else if k == 34 {
        s.tyre_inner_fr as int
    } else if k == 35 {
        s.tyre_inner_rl as int
    } else if k == 36 {
        s.tyre_inner_rr as int
    } else if k == 37 {
        s.brake_temp_fl as int
    } else if k == 38 {
        s.brake_temp_fr as int
    } else if k == 39 {
        s.brake_temp_rl as int
    } else if k == 40 {
        s.brake_temp_rr as int
    } else if k == 41 {
        s.suspension_pos_fl as int
    } else if k == 42 {
        s.suspension_pos_fr as int
    } else if k == 43 {
        s.suspension_pos_rl as int
    } else if k == 44 {
        s.suspension_pos_rr as int
    } else if k == 45 {
        s.suspension_vel_fl as int
    } else if k == 46 {
        s.suspension_vel_fr as int
    } else if k == 47 {
        s.suspension_vel_rl as int
    } else if k == 48 {
        s.suspension_vel_rr as int
    } else if k == 49 {
        s.suspension_acc_fl as int
    } else if k == 50 {
        s.suspension_acc_fr as int
    } else if k == 51 {
        s.suspension_acc_rl as int
    } else if k == 52 {
        s.suspension_acc_rr as int
    } else if k == 53 {
        s.wheel_speed_fl as int
    } else if k == 54 {
        s.wheel_speed_fr as int
    } else if k == 55 {
        s.wheel_speed_rl as int
    } else if k == 56 {
        s.wheel_speed_rr as int
    } else {
        0
    }
}

fn telemetry_column_name_at(k: usize) -> (r: &'static str)
    requires
        k < TELEMETRY_COLUMNS,
    ensures
        r@ == telemetry_column_name(k as int),
{
    match k {
        0 => "timestamp",
        1 => "frame",
        2 => "lap_number",
        3 => "lap_distance",
        4 => "total_distance",
        5 => "throttle",
        6 => "brake",
        7 => "steer",
        8 => "clutch",
        9 => "gear",
        10 => "speed",
        11 => "rpm",
        12 => "drs",
        13 => "drs_allowed",
        14 => "ers_store_energy",
        15 => "ers_deploy_mode",
        16 => "fuel_in_tank",
        17 => "world_x",
        18 => "world_y",
        19 => "world_z",
        20 => "velocity_x",
        21 => "velocity_y",
        22 => "velocity_z",
        23 => "yaw",
        24 => "pitch",
        25 => "roll",
        26 => "g_lateral",
        27 => "g_longitudinal",
        28 => "g_vertical",
        29 => "tyre_surface_fl",
        30 => "tyre_surface_fr",
        31 => "tyre_surface_rl",
        32 => "tyre_surface_rr",
        33 => "tyre_inner_fl",
        34 => "tyre_inner_fr",
        35 => "tyre_inner_rl",
        36 => "tyre_inner_rr",
        37 => "brake_temp_fl",
        38 => "brake_temp_fr",
        39 => "brake_temp_rl",
        40 => "brake_temp_rr",
        41 => "suspension_pos_fl",
        42 => "suspension_pos_fr",
        43 => "suspension_pos_rl",
        44 => "suspension_pos_rr",
        45 => "suspension_vel_fl",
        46 => "suspension_vel_fr",
        47 => "suspension_vel_rl",
        48 => "suspension_vel_rr",
        49 => "suspension_acc_fl",
        50 => "suspension_acc_fr",
        51 => "suspension_acc_rl",
        52 => "suspension_acc_rr",
        53 => "wheel_speed_fl",
        54 => "wheel_speed_fr",
        55 => "wheel_speed_rl",
        56 => "wheel_speed_rr",
        _ => "",
    }
}

fn telemetry_column_type_at(k: usize) -> (r: ColumnType)
    requires
        k < TELEMETRY_COLUMNS,
    ensures
        r == telemetry_column_type(k as int),
{
    match k {
        0 => ColumnType::Float32,
        1 => ColumnType::UInt32,
        2 => ColumnType::UInt8,
        3 => ColumnType::Float32,
        4 => ColumnType::Float32,
        5 => ColumnType::Float32,
        6 => ColumnType::Float32,
        7 => ColumnType::Float32,
        8 => ColumnType::UInt8,
        9 => ColumnType::Int8,
        10 => ColumnType::UInt16,
        11 => ColumnType::UInt16,
        12 => ColumnType::UInt8,
        13 => ColumnType::UInt8,
        14 => ColumnType::Float32,
        15 => ColumnType::UInt8,
        16 => ColumnType::Float32,
        17 => ColumnType::Float32,
        18 => ColumnType::Float32,
        19 => ColumnType::Float32,
        20 => ColumnType::Float32,
        21 => ColumnType::Float32,
        22 => ColumnType::Float32,
        23 => ColumnType::Float32,
        24 => ColumnType::Float32,
        25 => ColumnType::Float32,
        26 => ColumnType::Float32,
        27 => ColumnType::Float32,
        28 => ColumnType::Float32,
        29 => ColumnType::UInt8,
        30 => ColumnType::UInt8,
        31 => ColumnType::UInt8,
        32 => ColumnType::UInt8,
        33 => ColumnType::UInt8,
        34 => ColumnType::UInt8,
        35 => ColumnType::UInt8,
        36 => ColumnType::UInt8,
        37 => ColumnType::UInt16,
        38 => ColumnType::UInt16,
        39 => ColumnType::UInt16,
        40 => ColumnType::UInt16,
        41 => ColumnType::Float32,
        42 => ColumnType::Float32,
        43 => ColumnType::Float32,
        44 => ColumnType::Float32,
        45 => ColumnType::Float32,
        46 => ColumnType::Float32,
        47 => ColumnType::Float32,
        48 => ColumnType::Float32,
        49 => ColumnType::Float32,
        50 => ColumnType::Float32,
        51 => ColumnType::Float32,
        52 => ColumnType::Float32,
        53 => ColumnType::Float32,
        54 => ColumnType::Float32,
        55 => ColumnType::Float32,
        56 => ColumnType::Float32,
        _ => ColumnType::Float32,
    }
}

fn telemetry_cell_at(s: &TelemetrySample, k: usize) -> (r: i64)
    requires
        k < TELEMETRY_COLUMNS,
    ensures
        r == telemetry_cell(*s, k as int),
{
    match k {
        0 => s.timestamp as i64,
        1 => s.frame as i64,
        2 => s.lap_number as i64,
        3 => s.lap_distance as i64,
        4 => s.total_distance as i64,
        5 => s.throttle as i64,
        6 => s.brake as i64,
        7 => s.steer as i64,
        8 => s.clutch as i64,
        9 => s.gear as i64,
        10 => s.speed as i64,
        11 => s.rpm as i64,
        12 => s.drs as i64,
        13 => s.drs_allowed as i64,
        14 => s.ers_store_energy as i64,
        15 => s.ers_deploy_mode as i64,
        16 => s.fuel_in_tank as i64,
        17 => s.world_x as i64,
        18 => s.world_y as i64,
        19 => s.world_z as i64,
        20 => s.velocity_x as i64,
        21 => s.velocity_y as i64,
        22 => s.velocity_z as i64,
        23 => s.yaw as i64,
        24 => s.pitch as i64,
        25 => s.roll as i64,
        26 => s.g_lateral as i64,
        27 => s.g_longitudinal as i64,
        28 => s.g_vertical as i64,
        29 => s.tyre_surface_fl as i64,
        30 => s.tyre_surface_fr as i64,
        31 => s.tyre_surface_rl as i64,
        32 => s.tyre_surface_rr as i64,
        33 => s.tyre_inner_fl as i64,
        34 => s.tyre_inner_fr as i64,
        35 => s.tyre_inner_rl as i64,
        36 => s.tyre_inner_rr as i64,
        37 => s.brake_temp_fl as i64,
        38 => s.brake_temp_fr as i64,
        39 => s.brake_temp_rl as i64,
        40 => s.brake_temp_rr as i64,
        41 => s.suspension_pos_fl as i64,
        42 => s.suspension_pos_fr as i64,
        43 => s.suspension_pos_rl as i64,
        44 => s.suspension_pos_rr as i64,
        45 => s.suspension_vel_fl as i64,
        46 => s.suspension_vel_fr as i64,
        47 => s.suspension_vel_rl as i64,
        48 => s.suspension_vel_rr as i64,
        49 => s.suspension_acc_fl as i64,
        50 => s.suspension_acc_fr as i64,
        51 => s.suspension_acc_rl as i64,
        52 => s.suspension_acc_rr as i64,
        53 => s.wheel_speed_fl as i64,
        54 => s.wheel_speed_fr as i64,
        55 => s.wheel_speed_rl as i64,
        56 => s.wheel_speed_rr as i64,
        _ => 0,
    }
}

proof fn lemma_telemetry_cell_fits(s: TelemetrySample, k: int)
    requires
        0 <= k < TELEMETRY_COLUMNS,
    ensures
        telemetry_column_type(k) == ColumnType::Float32 ==> 0 <= telemetry_cell(s, k) <= u32::MAX,
        telemetry_column_type(k) == ColumnType::UInt32 ==> 0 <= telemetry_cell(s, k) <= u32::MAX,
        telemetry_column_type(k) == ColumnType::UInt16 ==> 0 <= telemetry_cell(s, k) <= u16::MAX,
        telemetry_column_type(k) == ColumnType::UInt8 ==> 0 <= telemetry_cell(s, k) <= u8::MAX,
        telemetry_column_type(k) == ColumnType::Int8 ==> i8::MIN <= telemetry_cell(s, k) <= i8::MAX,
        telemetry_column_type(k) != ColumnType::Utf8,
{
}

/// The telemetry schema: the name and type of each column, in order.
pub fn telemetry_schema() -> (r: Vec<(&'static str, ColumnType)>)
    ensures
        r@.len() == TELEMETRY_COLUMNS,
        forall|k: int|
            0 <= k < TELEMETRY_COLUMNS ==> (#[trigger] r@[k]).0@ == telemetry_column_name(k) && r@[k].1
                == telemetry_column_type(k),
{
    let mut r: Vec<(&'static str, ColumnType)> = Vec::new();
    let mut k: usize = 0;
    while k < TELEMETRY_COLUMNS
        invariant
            k <= TELEMETRY_COLUMNS,
            r@.len() == k,
            forall|j: int|
                0 <= j < k ==> (#[trigger] r@[j]).0@ == telemetry_column_name(j) && r@[j].1
                    == telemetry_column_type(j),
        decreases TELEMETRY_COLUMNS - k,
    {
        r.push((telemetry_column_name_at(k), telemetry_column_type_at(k)));
        k = k + 1;
    }
    r
}

/// Column `k` of the telemetry table of `samples`, whose type is `t`.
fn telemetry_column(samples: &[TelemetrySample], k: usize, t: ColumnType) -> (r: ColumnData)
    requires
        k < TELEMETRY_COLUMNS,
        t == telemetry_column_type(k as int),
    ensures
        column_type(r) == t,
        column_len(r) == samples@.len(),
        forall|i: int|
            0 <= i < samples@.len() ==> #[trigger] column_cell(r, i) == telemetry_cell(samples@[i], k as int),
{
    let n = samples.len();
    match t {
        ColumnType::Float32 | ColumnType::UInt32 => {
            let mut v: Vec<u32> = Vec::new();
            let mut i: usize = 0;
            while i < n
                invariant
                    n == samples@.len(),
                    k < TELEMETRY_COLUMNS,
                    t == telemetry_column_type(k as int),
                    t == ColumnType::Float32 || t == ColumnType::UInt32,
                    i <= n,
                    v@.len() == i,
                    forall|j: int| 0 <= j < i ==> v@[j] as int == telemetry_cell(samples@[j], k as int),
                decreases n - i,
            {
                let x = telemetry_cell_at(&samples[i], k);
                proof {
                    lemma_telemetry_cell_fits(samples@[i as int], k as int);
                }
                v.push(x as u32);
                i = i + 1;
            }
            if t == ColumnType::Float32 {
                ColumnData::Float32(v)
            } else {
                ColumnData::UInt32(v)
            }
        },
        ColumnType::UInt16 => {
            let mut v: Vec<u16> = Vec::new();
            let mut i: usize = 0;
            while i < n
                invariant
                    n == samples@.len(),
                    k < TELEMETRY_COLUMNS,
                    t == telemetry_column_type(k as int),
                    t == ColumnType::UInt16,
                    i <= n,
                    v@.len() == i,
                    forall|j: int| 0 <= j < i ==> v@[j] as int == telemetry_cell(samples@[j], k as int),
                decreases n - i,
            {
                let x = telemetry_cell_at(&samples[i], k);
                proof {
                    lemma_telemetry_cell_fits(samples@[i as int], k as int);
                }
                v.push(x as u16);
                i = i + 1;
            }
            ColumnData::UInt16(v)
        },
        ColumnType::UInt8 => {
            let mut v: Vec<u8> = Vec::new();
            let mut i: usize = 0;
            while i < n
                invariant
                    n == samples@.len(),
                    k < TELEMETRY_COLUMNS,
                    t == telemetry_column_type(k as int),
                    t == ColumnType::UInt8,
                    i <= n,
                    v@.len() == i,
                    forall|j: int| 0 <= j < i ==> v@[j] as int == telemetry_cell(samples@[j], k as int),
                decreases n - i,
            {
                let x = telemetry_cell_at(&samples[i], k);
                proof {
                    lemma_telemetry_cell_fits(samples@[i as int], k as int);
                }
                v.push(x as u8);
                i = i + 1;
            }
            ColumnData::UInt8(v)
        },
        ColumnType::Int8 => {
            let mut v: Vec<i8> = Vec::new();
            let mut i: usize = 0;
            while i < n
                invariant
                    n == samples@.len(),
                    k < TELEMETRY_COLUMNS,
                    t == telemetry_column_type(k as int),
                    t == ColumnType::Int8,
                    i <= n,
                    v@.len() == i,
                    forall|j: int| 0 <= j < i ==> v@[j] as int == telemetry_cell(samples@[j], k as int),
                decreases n - i,
            {
                let x = telemetry_cell_at(&samples[i], k);
                proof {
                    lemma_telemetry_cell_fits(samples@[i as int], k as int);
                }
                v.push(x as i8);
                i = i + 1;
            }
            ColumnData::Int8(v)
        },
        ColumnType::Utf8 => {
            proof {
                lemma_telemetry_cell_fits(TelemetrySample::zeroed(), k as int);
            }
            ColumnData::Utf8(Vec::new())
        },
    }
}

/// The telemetry table of `samples`: column `k` has the type of telemetry
/// column `k` and holds field `k` of every sample, in order.
pub fn telemetry_table(samples: &[TelemetrySample]) -> (r: Vec<ColumnData>)
    ensures
        r@.len() == TELEMETRY_COLUMNS,
        forall|k: int|
            0 <= k < TELEMETRY_COLUMNS ==> column_type(#[trigger] r@[k]) == telemetry_column_type(k)
                && column_len(r@[k]) == samples@.len(),
        forall|k: int, i: int|
            0 <= k < TELEMETRY_COLUMNS && 0 <= i < samples@.len() ==> #[trigger] column_cell(r@[k], i)
                == telemetry_cell(samples@[i], k),
{
    let mut r: Vec<ColumnData> = Vec::new();
    let mut k: usize = 0;
    while k < TELEMETRY_COLUMNS
        invariant
            k <= TELEMETRY_COLUMNS,
            r@.len() == k,
            forall|j: int|
                0 <= j < k ==> column_type(#[trigger] r@[j]) == telemetry_column_type(j) && column_len(r@[j])
                    == samples@.len(),
            forall|j: int, i: int|
                0 <= j < k && 0 <= i < samples@.len() ==> #[trigger] column_cell(r@[j], i) == telemetry_cell(
                    samples@[i],
                    j,
                ),
        decreases TELEMETRY_COLUMNS - k,
    {
        let c = telemetry_column(samples, k, telemetry_column_type_at(k));
        let ghost pre = r@;
        r.push(c);
        assert forall|j: int, i: int|
            0 <= j < k + 1 && 0 <= i < samples@.len() implies #[trigger] column_cell(r@[j], i)
                == telemetry_cell(samples@[i], j) by {
            if j < k {
                assert(r@[j] == pre[j]);
            }
        }
        k = k + 1;
    }
    r
}

/// The field of `s` called `name`, as stored (0 for any other name).
pub open spec fn telemetry_field_named(s: TelemetrySample, name: Seq<char>) -> int {
    if name == "timestamp"@ {
        s.timestamp as int
    } else if name == "frame"@ {
        s.frame as int
    } else if name == "lap_number"@ {
        s.lap_number as int
    } else if name == "lap_distance"@ {
        s.lap_distance as int
    } else if name == "total_distance"@ {
        s.total_distance as int
    } else if name == "throttle"@ {
        s.throttle as int
    } else if name == "brake"@ {
        s.brake as int
    } else if name == "steer"@ {
        s.steer as int
    } else if name == "clutch"@ {
        s.clutch as int
    } else if name == "gear"@ {
        s.gear as int
    } else if name == "speed"@ {
        s.speed as int
    } else if name == "rpm"@ {
        s.rpm as int
    } else if name == "drs"@ {
        s.drs as int
    } else if name == "drs_allowed"@ {
        s.drs_allowed as int
    } else if name == "ers_store_energy"@ {
        s.ers_store_energy as int
    } else if name == "ers_deploy_mode"@ {
        s.ers_deploy_mode as int
    } else if name == "fuel_in_tank"@ {
        s.fuel_in_tank as int
    } else if name == "world_x"@ {
        s.world_x as int
    } else if name == "world_y"@ {
        s.world_y as int
    } else if name == "world_z"@ {
        s.world_z as int
    } else if name == "velocity_x"@ {
        s.velocity_x as int
    } else if name == "velocity_y"@ {
        s.velocity_y as int
    } else if name == "velocity_z"@ {
        s.velocity_z as int
    } else if name == "yaw"@ {
        s.yaw as int
    } else if name == "pitch"@ {
        s.pitch as int
    } else if name == "roll"@ {
        s.roll as int
    } else if name == "g_lateral"@ {
        s.g_lateral as int
    } else if name == "g_longitudinal"@ {
        s.g_longitudinal as int
    } else if name == "g_vertical"@ {
        s.g_vertical as int
    } else if name == "tyre_surface_fl"@ {
        s.tyre_surface_fl as int
    } else if name == "tyre_surface_fr"@ {
        s.tyre_surface_fr as int
    } else if name == "tyre_surface_rl"@ {
        s.tyre_surface_rl as int
    } else if name == "tyre_surface_rr"@ {
        s.tyre_surface_rr as int
    } else if name == "tyre_inner_fl"@ {
        s.tyre_inner_fl as int
    } else if name == "tyre_inner_fr"@ {
        s.tyre_inner_fr as int
    } else if name == "tyre_inner_rl"@ {
        s.tyre_inner_rl as int
    } else if name == "tyre_inner_rr"@ {
        s.tyre_inner_rr as int
    } else if name == "brake_temp_fl"@ {
        s.brake_temp_fl as int
    } else if name == "brake_temp_fr"@ {
        s.brake_temp_fr as int
    } else if name == "brake_temp_rl"@ {
        s.brake_temp_rl as int
    } else if name == "brake_temp_rr"@ {
        s.brake_temp_rr as int
    } else if name == "suspension_pos_fl"@ {
        s.suspension_pos_fl as int
    } else if name == "suspension_pos_fr"@ {
        s.suspension_pos_fr as int
    } else if name == "suspension_pos_rl"@ {
        s.suspension_pos_rl as int
    } else if name == "suspension_pos_rr"@ {
        s.suspension_pos_rr as int
    } else if name == "suspension_vel_fl"@ {
        s.suspension_vel_fl as int
    } else if name == "suspension_vel_fr"@ {
        s.suspension_vel_fr as int
    } else if name == "suspension_vel_rl"@ {
        s.suspension_vel_rl as int
    } else if name == "suspension_vel_rr"@ {
        s.suspension_vel_rr as int
    } else if name == "suspension_acc_fl"@ {
        s.suspension_acc_fl as int
    } else if name == "suspension_acc_fr"@ {
        s.suspension_acc_fr as int
    } else if name == "suspension_acc_rl"@ {
        s.suspension_acc_rl as int
    } else if name == "suspension_acc_rr"@ {
        s.suspension_acc_rr as int
    } else if name == "wheel_speed_fl"@ {
        s.wheel_speed_fl as int
    } else if name == "wheel_speed_fr"@ {
        s.wheel_speed_fr as int
    } else if name == "wheel_speed_rl"@ {
        s.wheel_speed_rl as int
    } else if name == "wheel_speed_rr"@ {
        s.wheel_speed_rr as int
    } else {
        0
    }
}

/// The stored type of the sample field called `name`: its declared type,
/// with the `f32` channels (held as bit patterns) stored as `Float32`.
pub open spec fn telemetry_type_named(name: Seq<char>) -> ColumnType {
    if name == "timestamp"@ {
        ColumnType::Float32
    } else if name == "frame"@ {
        ColumnType::UInt32
    } else if name == "lap_number"@ {
        ColumnType::UInt8
    } else if name == "lap_distance"@ {
        ColumnType::Float32
    } else if name == "total_distance"@ {
        ColumnType::Float32
    } else if name == "throttle"@ {
        ColumnType::Float32
    } else if name == "brake"@ {
        ColumnType::Float32
    } else if name == "steer"@ {
        ColumnType::Float32
    } else if name == "clutch"@ {
        ColumnType::UInt8
    } else if name == "gear"@ {
        ColumnType::Int8
    } else if name == "speed"@ {
        ColumnType::UInt16
    } else if name == "rpm"@ {
        ColumnType::UInt16
    } else if name == "drs"@ {
        ColumnType::UInt8
    } else if name == "drs_allowed"@ {
        ColumnType::UInt8
    } else if name == "ers_store_energy"@ {
        ColumnType::Float32
    } else if name == "ers_deploy_mode"@ {
        ColumnType::UInt8
    } else if name == "fuel_in_tank"@ {
        ColumnType::Float32
    } else if name == "world_x"@ {
        ColumnType::Float32
    } else if name == "world_y"@ {
        ColumnType::Float32
    } else if name == "world_z"@ {
        ColumnType::Float32
    } else if name == "velocity_x"@ {
        ColumnType::Float32
    } else if name == "velocity_y"@ {
        ColumnType::Float32
    } else if name == "velocity_z"@ {
        ColumnType::Float32
    } else if name == "yaw"@ {
        ColumnType::Float32
    } else if name == "pitch"@ {
        ColumnType::Float32
    } else if name == "roll"@ {
        ColumnType::Float32
    } else if name == "g_lateral"@ {
        ColumnType::Float32
    } else if name == "g_longitudinal"@ {
        ColumnType::Float32
    } else if name == "g_vertical"@ {
        ColumnType::Float32
    } else if name == "tyre_surface_fl"@ {
        ColumnType::UInt8
    } else if name == "tyre_surface_fr"@ {
        ColumnType::UInt8
    } else if name == "tyre_surface_rl"@ {
        ColumnType::UInt8
    } else if name == "tyre_surface_rr"@ {
        ColumnType::UInt8
    } else if name == "tyre_inner_fl"@ {
        ColumnType::UInt8
    } else if name == "tyre_inner_fr"@ {
        ColumnType::UInt8
    } else if name == "tyre_inner_rl"@ {
        ColumnType::UInt8
    } else if name == "tyre_inner_rr"@ {
        ColumnType::UInt8
    } else if name == "brake_temp_fl"@ {
        ColumnType::UInt16
    } else if name == "brake_temp_fr"@ {
        ColumnType::UInt16
    } else if name == "brake_temp_rl"@ {
        ColumnType::UInt16
    } else if name == "brake_temp_rr"@ {
        ColumnType::UInt16
    } else if name == "suspension_pos_fl"@ {
        ColumnType::Float32
    } else if name == "suspension_pos_fr"@ {
        ColumnType::Float32
    } else if name == "suspension_pos_rl"@ {
        ColumnType::Float32
    } else if name == "suspension_pos_rr"@ {
        ColumnType::Float32
    } else if name == "suspension_vel_fl"@ {
        ColumnType::Float32
    } else if name == "suspension_vel_fr"@ {
        ColumnType::Float32
    } else if name == "suspension_vel_rl"@ {
        ColumnType::Float32
    } else if name == "suspension_vel_rr"@ {
        ColumnType::Float32
    } else if name == "suspension_acc_fl"@ {
        ColumnType::Float32
    } else if name == "suspension_acc_fr"@ {
        ColumnType::Float32
    } else if name == "suspension_acc_rl"@ {
        ColumnType::Float32
    } else if name == "suspension_acc_rr"@ {
        ColumnType::Float32
    } else if name == "wheel_speed_fl"@ {
        ColumnType::Float32
    } else if name == "wheel_speed_fr"@ {
        ColumnType::Float32
    } else if name == "wheel_speed_rl"@ {
        ColumnType::Float32
    } else if name == "wheel_speed_rr"@ {
        ColumnType::Float32
    } else {
        ColumnType::Utf8
    }
}

/// Every telemetry column holds the sample field it is named after, with
/// that field's type.
pub proof fn lemma_telemetry_columns_hold_named_fields(s: TelemetrySample)
    ensures
        forall|k: int|
            0 <= k < TELEMETRY_COLUMNS ==> #[trigger] telemetry_cell(s, k) == telemetry_field_named(
                s,
                telemetry_column_name(k),
            ) && telemetry_column_type(k) == telemetry_type_named(telemetry_column_name(k)),
{
    reveal_strlit("timestamp");
    reveal_strlit("frame");
    reveal_strlit("lap_number");
    reveal_strlit("lap_distance");
    reveal_strlit("total_distance");
    reveal_strlit("throttle");
    reveal_strlit("brake");
    reveal_strlit("steer");
    reveal_strlit("clutch");
    reveal_strlit("gear");
    reveal_strlit("speed");
    reveal_strlit("rpm");
    reveal_strlit("drs");
    reveal_strlit("drs_allowed");
    reveal_strlit("ers_store_energy");
    reveal_strlit("ers_deploy_mode");
    reveal_strlit("fuel_in_tank");
    reveal_strlit("world_x");
    reveal_strlit("world_y");
    reveal_strlit("world_z");
    reveal_strlit("velocity_x");
    reveal_strlit("velocity_y");
    reveal_strlit("velocity_z");
    reveal_strlit("yaw");
    reveal_strlit("pitch");
    reveal_strlit("roll");
    reveal_strlit("g_lateral");
    reveal_strlit("g_longitudinal");
    reveal_strlit("g_vertical");
    reveal_strlit("tyre_surface_fl");
    reveal_strlit("tyre_surface_fr");
    reveal_strlit("tyre_surface_rl");
    reveal_strlit("tyre_surface_rr");
    reveal_strlit("tyre_inner_fl");
    reveal_strlit("tyre_inner_fr");
    reveal_strlit("tyre_inner_rl");
    reveal_strlit("tyre_inner_rr");
    reveal_strlit("brake_temp_fl");
    reveal_strlit("brake_temp_fr");
    reveal_strlit("brake_temp_rl");
    reveal_strlit("brake_temp_rr");
    reveal_strlit("suspension_pos_fl");
    reveal_strlit("suspension_pos_fr");
    reveal_strlit("suspension_pos_rl");
    reveal_strlit("suspension_pos_rr");
    reveal_strlit("suspension_vel_fl");
    reveal_strlit("suspension_vel_fr");
    reveal_strlit("suspension_vel_rl");
    reveal_strlit("suspension_vel_rr");
    reveal_strlit("suspension_acc_fl");
    reveal_strlit("suspension_acc_fr");
    reveal_strlit("suspension_acc_rl");
    reveal_strlit("suspension_acc_rr");
    reveal_strlit("wheel_speed_fl");
    reveal_strlit("wheel_speed_fr");
    reveal_strlit("wheel_speed_rl");
    reveal_strlit("wheel_speed_rr");
    assert("brake"@.len() == 5);
    assert("brake_temp_fl"@.len() == 13);
    assert("brake_temp_fr"@.len() == 13);
    assert("brake_temp_rl"@.len() == 13);
    assert("brake_temp_rr"@.len() == 13);
    assert("clutch"@.len() == 6);
    assert("drs"@.len() == 3);
    assert("drs_allowed"@.len() == 11);
    assert("ers_deploy_mode"@.len() == 15);
    assert("ers_store_energy"@.len() == 16);
    assert("frame"@.len() == 5);
    assert("fuel_in_tank"@.len() == 12);
    assert("g_lateral"@.len() == 9);
    assert("g_longitudinal"@.len() == 14);
    assert("g_vertical"@.len() == 10);
    assert("gear"@.len() == 4);
    assert("lap_distance"@.len() == 12);
    assert("lap_number"@.len() == 10);
    assert("pitch"@.len() == 5);
    assert("roll"@.len() == 4);
    assert("rpm"@.len() == 3);
    assert("speed"@.len() == 5);
    assert("steer"@.len() == 5);
    assert("suspension_acc_fl"@.len() == 17);
    assert("suspension_acc_fr"@.len() == 17);
    assert("suspension_acc_rl"@.len() == 17);
    assert("suspension_acc_rr"@.len() == 17);
    assert("suspension_pos_fl"@.len() == 17);
    assert("suspension_pos_fr"@.len() == 17);
    assert("suspension_pos_rl"@.len() == 17);
    assert("suspension_pos_rr"@.len() == 17);
    assert("suspension_vel_fl"@.len() == 17);
    assert("suspension_vel_fr"@.len() == 17);
    assert("suspension_vel_rl"@.len() == 17);
    assert("suspension_vel_rr"@.len() == 17);
    assert("throttle"@.len() == 8);
    assert("timestamp"@.len() == 9);
    assert("total_distance"@.len() == 14);
    assert("tyre_inner_fl"@.len() == 13);
    assert("tyre_inner_fr"@.len() == 13);
    assert("tyre_inner_rl"@.len() == 13);
    assert("tyre_inner_rr"@.len() == 13);
    assert("tyre_surface_fl"@.len() == 15);
    assert("tyre_surface_fr"@.len() == 15);
    assert("tyre_surface_rl"@.len() == 15);
    assert("tyre_surface_rr"@.len() == 15);
    assert("velocity_x"@.len() == 10);
    assert("velocity_y"@.len() == 10);
    assert("velocity_z"@.len() == 10);
    assert("wheel_speed_fl"@.len() == 14);
    assert("wheel_speed_fr"@.len() == 14);
    assert("wheel_speed_rl"@.len() == 14);
    assert("wheel_speed_rr"@.len() == 14);
    assert("world_x"@.len() == 7);
    assert("world_y"@.len() == 7);
    assert("world_z"@.len() == 7);
    assert("yaw"@.len() == 3);
    assert("timestamp"@ != "g_lateral"@) by {
        assert("timestamp"@[0] != "g_lateral"@[0]);
    }
    assert("frame"@ != "brake"@) by {
        assert("frame"@[0] != "brake"@[0]);
    }
    assert("frame"@ != "steer"@) by {
        assert("frame"@[0] != "steer"@[0]);
    }
    assert("frame"@ != "speed"@) by {
        assert("frame"@[0] != "speed"@[0]);
    }
    assert("frame"@ != "pitch"@) by {
        assert("frame"@[0] != "pitch"@[0]);
    }
    assert("lap_number"@ != "velocity_x"@) by {
        assert("lap_number"@[0] != "velocity_x"@[0]);
    }
    assert("lap_number"@ != "velocity_y"@) by {
        assert("lap_number"@[0] != "velocity_y"@[0]);
    }
    assert("lap_number"@ != "velocity_z"@) by {
        assert("lap_number"@[0] != "velocity_z"@[0]);
    }
    assert("lap_number"@ != "g_vertical"@) by {
        assert("lap_number"@[0] != "g_vertical"@[0]);
    }
    assert("lap_distance"@ != "fuel_in_tank"@) by {
        assert("lap_distance"@[0] != "fuel_in_tank"@[0]);
    }
    assert("total_distance"@ != "g_longitudinal"@) by {
        assert("total_distance"@[0] != "g_longitudinal"@[0]);
    }
    assert("total_distance"@ != "wheel_speed_fl"@) by {
        assert("total_distance"@[0] != "wheel_speed_fl"@[0]);
    }
    assert("total_distance"@ != "wheel_speed_fr"@) by {
        assert("total_distance"@[0] != "wheel_speed_fr"@[0]);
    }
    assert("total_distance"@ != "wheel_speed_rl"@) by {
        assert("total_distance"@[0] != "wheel_speed_rl"@[0]);
    }
    assert("total_distance"@ != "wheel_speed_rr"@) by {
        assert("total_distance"@[0] != "wheel_speed_rr"@[0]);
    }
    assert("brake"@ != "steer"@) by {
        assert("brake"@[0] != "steer"@[0]);
    }
    assert("brake"@ != "speed"@) by {
        assert("brake"@[0] != "speed"@[0]);
    }
    assert("brake"@ != "pitch"@) by {
        assert("brake"@[0] != "pitch"@[0]);
    }
    assert("steer"@ != "speed"@) by {
        assert("steer"@[1] != "speed"@[1]);
    }
    assert("steer"@ != "pitch"@) by {
        assert("steer"@[0] != "pitch"@[0]);
    }
    assert("gear"@ != "roll"@) by {
        assert("gear"@[0] != "roll"@[0]);
    }
    assert("speed"@ != "pitch"@) by {
        assert("speed"@[0] != "pitch"@[0]);
    }
    assert("rpm"@ != "drs"@) by {
        assert("rpm"@[0] != "drs"@[0]);
    }
    assert("rpm"@ != "yaw"@) by {
        assert("rpm"@[0] != "yaw"@[0]);
    }
    assert("drs"@ != "yaw"@) by {
        assert("drs"@[0] != "yaw"@[0]);
    }
    assert("ers_deploy_mode"@ != "tyre_surface_fl"@) by {
        assert("ers_deploy_mode"@[0] != "tyre_surface_fl"@[0]);
    }
    assert("ers_deploy_mode"@ != "tyre_surface_fr"@) by {
        assert("ers_deploy_mode"@[0] != "tyre_surface_fr"@[0]);
    }
    assert("ers_deploy_mode"@ != "tyre_surface_rl"@) by {
        assert("ers_deploy_mode"@[0] != "tyre_surface_rl"@[0]);
    }
    assert("ers_deploy_mode"@ != "tyre_surface_rr"@) by {
        assert("ers_deploy_mode"@[0] != "tyre_surface_rr"@[0]);
    }
    assert("world_x"@ != "world_y"@) by {
        assert("world_x"@[6] != "world_y"@[6]);
    }
    assert("world_x"@ != "world_z"@) by {
        assert("world_x"@[6] != "world_z"@[6]);
    }
    assert("world_y"@ != "world_z"@) by {
        assert("world_y"@[6] != "world_z"@[6]);
    }
    assert("velocity_x"@ != "velocity_y"@) by {
        assert("velocity_x"@[9] != "velocity_y"@[9]);
    }
    assert("velocity_x"@ != "velocity_z"@) by {
        assert("velocity_x"@[9] != "velocity_z"@[9]);
    }
    assert("velocity_x"@ != "g_vertical"@) by {
        assert("velocity_x"@[0] != "g_vertical"@[0]);
    }
    assert("velocity_y"@ != "velocity_z"@) by {
        assert("velocity_y"@[9] != "velocity_z"@[9]);
    }
    assert("velocity_y"@ != "g_vertical"@) by {
        assert("velocity_y"@[0] != "g_vertical"@[0]);
    }
    assert("velocity_z"@ != "g_vertical"@) by {
        assert("velocity_z"@[0] != "g_vertical"@[0]);
    }
    assert("g_longitudinal"@ != "wheel_speed_fl"@) by {
        assert("g_longitudinal"@[0] != "wheel_speed_fl"@[0]);
    }
    assert("g_longitudinal"@ != "wheel_speed_fr"@) by {
        assert("g_longitudinal"@[0] != "wheel_speed_fr"@[0]);
    }
    assert("g_longitudinal"@ != "wheel_speed_rl"@) by {
        assert("g_longitudinal"@[0] != "wheel_speed_rl"@[0]);
    }
    assert("g_longitudinal"@ != "wheel_speed_rr"@) by {
        assert("g_longitudinal"@[0] != "wheel_speed_rr"@[0]);
    }
    assert("tyre_surface_fl"@ != "tyre_surface_fr"@) by {
        assert("tyre_surface_fl"@[14] != "tyre_surface_fr"@[14]);
    }
    assert("tyre_surface_fl"@ != "tyre_surface_rl"@) by {
        assert("tyre_surface_fl"@[13] != "tyre_surface_rl"@[13]);
    }
    assert("tyre_surface_fl"@ != "tyre_surface_rr"@) by {
        assert("tyre_surface_fl"@[13] != "tyre_surface_rr"@[13]);
    }
    assert("tyre_surface_fr"@ != "tyre_surface_rl"@) by {
        assert("tyre_surface_fr"@[13] != "tyre_surface_rl"@[13]);
    }
    assert("tyre_surface_fr"@ != "tyre_surface_rr"@) by {
        assert("tyre_surface_fr"@[13] != "tyre_surface_rr"@[13]);
    }
    assert("tyre_surface_rl"@ != "tyre_surface_rr"@) by {
        assert("tyre_surface_rl"@[14] != "tyre_surface_rr"@[14]);
    }
    assert("tyre_inner_fl"@ != "tyre_inner_fr"@) by {
        assert("tyre_inner_fl"@[12] != "tyre_inner_fr"@[12]);
    }
    assert("tyre_inner_fl"@ != "tyre_inner_rl"@) by {
        assert("tyre_inner_fl"@[11] != "tyre_inner_rl"@[11]);
    }
    assert("tyre_inner_fl"@ != "tyre_inner_rr"@) by {
        assert("tyre_inner_fl"@[11] != "tyre_inner_rr"@[11]);
    }
    assert("tyre_inner_fl"@ != "brake_temp_fl"@) by {
        assert("tyre_inner_fl"@[0] != "brake_temp_fl"@[0]);
    }
    assert("tyre_inner_fl"@ != "brake_temp_fr"@) by {
        assert("tyre_inner_fl"@[0] != "brake_temp_fr"@[0]);
    }
    assert("tyre_inner_fl"@ != "brake_temp_rl"@) by {
        assert("tyre_inner_fl"@[0] != "brake_temp_rl"@[0]);
    }
    assert("tyre_inner_fl"@ != "brake_temp_rr"@) by {
        assert("tyre_inner_fl"@[0] != "brake_temp_rr"@[0]);
    }
    assert("tyre_inner_fr"@ != "tyre_inner_rl"@) by {
        assert("tyre_inner_fr"@[11] != "tyre_inner_rl"@[11]);
    }
    assert("tyre_inner_fr"@ != "tyre_inner_rr"@) by {
        assert("tyre_inner_fr"@[11] != "tyre_inner_rr"@[11]);
    }
    assert("tyre_inner_fr"@ != "brake_temp_fl"@) by {
        assert("tyre_inner_fr"@[0] != "brake_temp_fl"@[0]);
    }
    assert("tyre_inner_fr"@ != "brake_temp_fr"@) by {
        assert("tyre_inner_fr"@[0] != "brake_temp_fr"@[0]);
    }
    assert("tyre_inner_fr"@ != "brake_temp_rl"@) by {
        assert("tyre_inner_fr"@[0] != "brake_temp_rl"@[0]);
    }
    assert("tyre_inner_fr"@ != "brake_temp_rr"@) by {
        assert("tyre_inner_fr"@[0] != "brake_temp_rr"@[0]);
    }
    assert("tyre_inner_rl"@ != "tyre_inner_rr"@) by {
        assert("tyre_inner_rl"@[12] != "tyre_inner_rr"@[12]);
    }
    assert("tyre_inner_rl"@ != "brake_temp_fl"@) by {
        assert("tyre_inner_rl"@[0] != "brake_temp_fl"@[0]);
    }
    assert("tyre_inner_rl"@ != "brake_temp_fr"@) by {
        assert("tyre_inner_rl"@[0] != "brake_temp_fr"@[0]);
    }
    assert("tyre_inner_rl"@ != "brake_temp_rl"@) by {
        assert("tyre_inner_rl"@[0] != "brake_temp_rl"@[0]);
    }
    assert("tyre_inner_rl"@ != "brake_temp_rr"@) by {
        assert("tyre_inner_rl"@[0] != "brake_temp_rr"@[0]);
    }
    assert("tyre_inner_rr"@ != "brake_temp_fl"@) by {
        assert("tyre_inner_rr"@[0] != "brake_temp_fl"@[0]);
    }
    assert("tyre_inner_rr"@ != "brake_temp_fr"@) by {
        assert("tyre_inner_rr"@[0] != "brake_temp_fr"@[0]);
    }
    assert("tyre_inner_rr"@ != "brake_temp_rl"@) by {
        assert("tyre_inner_rr"@[0] != "brake_temp_rl"@[0]);
    }
    assert("tyre_inner_rr"@ != "brake_temp_rr"@) by {
        assert("tyre_inner_rr"@[0] != "brake_temp_rr"@[0]);
    }
    assert("brake_temp_fl"@ != "brake_temp_fr"@) by {
        assert("brake_temp_fl"@[12] != "brake_temp_fr"@[12]);
    }
    assert("brake_temp_fl"@ != "brake_temp_rl"@) by {
        assert("brake_temp_fl"@[11] != "brake_temp_rl"@[11]);
    }
    assert("brake_temp_fl"@ != "brake_temp_rr"@) by {
        assert("brake_temp_fl"@[11] != "brake_temp_rr"@[11]);
    }
    assert("brake_temp_fr"@ != "brake_temp_rl"@) by {
        assert("brake_temp_fr"@[11] != "brake_temp_rl"@[11]);
    }
    assert("brake_temp_fr"@ != "brake_temp_rr"@) by {
        assert("brake_temp_fr"@[11] != "brake_temp_rr"@[11]);
    }
    assert("brake_temp_rl"@ != "brake_temp_rr"@) by {
        assert("brake_temp_rl"@[12] != "brake_temp_rr"@[12]);
    }
    assert("suspension_pos_fl"@ != "suspension_pos_fr"@) by {
        assert("suspension_pos_fl"@[16] != "suspension_pos_fr"@[16]);
    }
    assert("suspension_pos_fl"@ != "suspension_pos_rl"@) by {
        assert("suspension_pos_fl"@[15] != "suspension_pos_rl"@[15]);
    }
    assert("suspension_pos_fl"@ != "suspension_pos_rr"@) by {
        assert("suspension_pos_fl"@[15] != "suspension_pos_rr"@[15]);
    }
    assert("suspension_pos_fl"@ != "suspension_vel_fl"@) by {
        assert("suspension_pos_fl"@[11] != "suspension_vel_fl"@[11]);
    }
    assert("suspension_pos_fl"@ != "suspension_vel_fr"@) by {
        assert("suspension_pos_fl"@[11] != "suspension_vel_fr"@[11]);
    }
    assert("suspension_pos_fl"@ != "suspension_vel_rl"@) by {
        assert("suspension_pos_fl"@[11] != "suspension_vel_rl"@[11]);
    }
    assert("suspension_pos_fl"@ != "suspension_vel_rr"@) by {
        assert("suspension_pos_fl"@[11] != "suspension_vel_rr"@[11]);
    }
    assert("suspension_pos_fl"@ != "suspension_acc_fl"@) by {
        assert("suspension_pos_fl"@[11] != "suspension_acc_fl"@[11]);
    }
    assert("suspension_pos_fl"@ != "suspension_acc_fr"@) by {
        assert("suspension_pos_fl"@[11] != "suspension_acc_fr"@[11]);
    }
    assert("suspension_pos_fl"@ != "suspension_acc_rl"@) by {
        assert("suspension_pos_fl"@[11] != "suspension_acc_rl"@[11]);
    }
    assert("suspension_pos_fl"@ != "suspension_acc_rr"@) by {
        assert("suspension_pos_fl"@[11] != "suspension_acc_rr"@[11]);
    }
    assert("suspension_pos_fr"@ != "suspension_pos_rl"@) by {
        assert("suspension_pos_fr"@[15] != "suspension_pos_rl"@[15]);
    }
    assert("suspension_pos_fr"@ != "suspension_pos_rr"@) by {
        assert("suspension_pos_fr"@[15] != "suspension_pos_rr"@[15]);
    }
    assert("suspension_pos_fr"@ != "suspension_vel_fl"@) by {
        assert("suspension_pos_fr"@[11] != "suspension_vel_fl"@[11]);
    }
    assert("suspension_pos_fr"@ != "suspension_vel_fr"@) by {
        assert("suspension_pos_fr"@[11] != "suspension_vel_fr"@[11]);
    }
    assert("suspension_pos_fr"@ != "suspension_vel_rl"@) by {
        assert("suspension_pos_fr"@[11] != "suspension_vel_rl"@[11]);
    }
    assert("suspension_pos_fr"@ != "suspension_vel_rr"@) by {
        assert("suspension_pos_fr"@[11] != "suspension_vel_rr"@[11]);
    }
    assert("suspension_pos_fr"@ != "suspension_acc_fl"@) by {
        assert("suspension_pos_fr"@[11] != "suspension_acc_fl"@[11]);
    }
    assert("suspension_pos_fr"@ != "suspension_acc_fr"@) by {
        assert("suspension_pos_fr"@[11] != "suspension_acc_fr"@[11]);
    }
    assert("suspension_pos_fr"@ != "suspension_acc_rl"@) by {
        assert("suspension_pos_fr"@[11] != "suspension_acc_rl"@[11]);
    }
    assert("suspension_pos_fr"@ != "suspension_acc_rr"@) by {
        assert("suspension_pos_fr"@[11] != "suspension_acc_rr"@[11]);
    }
    assert("suspension_pos_rl"@ != "suspension_pos_rr"@) by {
        assert("suspension_pos_rl"@[16] != "suspension_pos_rr"@[16]);
    }
    assert("suspension_pos_rl"@ != "suspension_vel_fl"@) by {
        assert("suspension_pos_rl"@[11] != "suspension_vel_fl"@[11]);
    }
    assert("suspension_pos_rl"@ != "suspension_vel_fr"@) by {
        assert("suspension_pos_rl"@[11] != "suspension_vel_fr"@[11]);
    }
    assert("suspension_pos_rl"@ != "suspension_vel_rl"@) by {
        assert("suspension_pos_rl"@[11] != "suspension_vel_rl"@[11]);
    }
    assert("suspension_pos_rl"@ != "suspension_vel_rr"@) by {
        assert("suspension_pos_rl"@[11] != "suspension_vel_rr"@[11]);
    }
    assert("suspension_pos_rl"@ != "suspension_acc_fl"@) by {
        assert("suspension_pos_rl"@[11] != "suspension_acc_fl"@[11]);
    }
    assert("suspension_pos_rl"@ != "suspension_acc_fr"@) by {
        assert("suspension_pos_rl"@[11] != "suspension_acc_fr"@[11]);
    }
    assert("suspension_pos_rl"@ != "suspension_acc_rl"@) by {
        assert("suspension_pos_rl"@[11] != "suspension_acc_rl"@[11]);
    }
    assert("suspension_pos_rl"@ != "suspension_acc_rr"@) by {
        assert("suspension_pos_rl"@[11] != "suspension_acc_rr"@[11]);
    }
    assert("suspension_pos_rr"@ != "suspension_vel_fl"@) by {
        assert("suspension_pos_rr"@[11] != "suspension_vel_fl"@[11]);
    }
    assert("suspension_pos_rr"@ != "suspension_vel_fr"@) by {
        assert("suspension_pos_rr"@[11] != "suspension_vel_fr"@[11]);
    }
    assert("suspension_pos_rr"@ != "suspension_vel_rl"@) by {
        assert("suspension_pos_rr"@[11] != "suspension_vel_rl"@[11]);
    }
    assert("suspension_pos_rr"@ != "suspension_vel_rr"@) by {
        assert("suspension_pos_rr"@[11] != "suspension_vel_rr"@[11]);
    }
    assert("suspension_pos_rr"@ != "suspension_acc_fl"@) by {
        assert("suspension_pos_rr"@[11] != "suspension_acc_fl"@[11]);
    }
    assert("suspension_pos_rr"@ != "suspension_acc_fr"@) by {
        assert("suspension_pos_rr"@[11] != "suspension_acc_fr"@[11]);
    }
    assert("suspension_pos_rr"@ != "suspension_acc_rl"@) by {
        assert("suspension_pos_rr"@[11] != "suspension_acc_rl"@[11]);
    }
    assert("suspension_pos_rr"@ != "suspension_acc_rr"@) by {
        assert("suspension_pos_rr"@[11] != "suspension_acc_rr"@[11]);
    }
    assert("suspension_vel_fl"@ != "suspension_vel_fr"@) by {
        assert("suspension_vel_fl"@[16] != "suspension_vel_fr"@[16]);
    }
    assert("suspension_vel_fl"@ != "suspension_vel_rl"@) by {
        assert("suspension_vel_fl"@[15] != "suspension_vel_rl"@[15]);
    }
    assert("suspension_vel_fl"@ != "suspension_vel_rr"@) by {
        assert("suspension_vel_fl"@[15] != "suspension_vel_rr"@[15]);
    }
    assert("suspension_vel_fl"@ != "suspension_acc_fl"@) by {
        assert("suspension_vel_fl"@[11] != "suspension_acc_fl"@[11]);
    }
    assert("suspension_vel_fl"@ != "suspension_acc_fr"@) by {
        assert("suspension_vel_fl"@[11] != "suspension_acc_fr"@[11]);
    }
    assert("suspension_vel_fl"@ != "suspension_acc_rl"@) by {
        assert("suspension_vel_fl"@[11] != "suspension_acc_rl"@[11]);
    }
    assert("suspension_vel_fl"@ != "suspension_acc_rr"@) by {
        assert("suspension_vel_fl"@[11] != "suspension_acc_rr"@[11]);
    }
    assert("suspension_vel_fr"@ != "suspension_vel_rl"@) by {
        assert("suspension_vel_fr"@[15] != "suspension_vel_rl"@[15]);
    }
    assert("suspension_vel_fr"@ != "suspension_vel_rr"@) by {
        assert("suspension_vel_fr"@[15] != "suspension_vel_rr"@[15]);
    }
    assert("suspension_vel_fr"@ != "suspension_acc_fl"@) by {
        assert("suspension_vel_fr"@[11] != "suspension_acc_fl"@[11]);
    }
    assert("suspension_vel_fr"@ != "suspension_acc_fr"@) by {
        assert("suspension_vel_fr"@[11] != "suspension_acc_fr"@[11]);
    }
    assert("suspension_vel_fr"@ != "suspension_acc_rl"@) by {
        assert("suspension_vel_fr"@[11] != "suspension_acc_rl"@[11]);
    }
    assert("suspension_vel_fr"@ != "suspension_acc_rr"@) by {
        assert("suspension_vel_fr"@[11] != "suspension_acc_rr"@[11]);
    }
    assert("suspension_vel_rl"@ != "suspension_vel_rr"@) by {
        assert("suspension_vel_rl"@[16] != "suspension_vel_rr"@[16]);
    }
    assert("suspension_vel_rl"@ != "suspension_acc_fl"@) by {
        assert("suspension_vel_rl"@[11] != "suspension_acc_fl"@[11]);
    }
    assert("suspension_vel_rl"@ != "suspension_acc_fr"@) by {
        assert("suspension_vel_rl"@[11] != "suspension_acc_fr"@[11]);
    }
    assert("suspension_vel_rl"@ != "suspension_acc_rl"@) by {
        assert("suspension_vel_rl"@[11] != "suspension_acc_rl"@[11]);
    }
    assert("suspension_vel_rl"@ != "suspension_acc_rr"@) by {
        assert("suspension_vel_rl"@[11] != "suspension_acc_rr"@[11]);
    }
    assert("suspension_vel_rr"@ != "suspension_acc_fl"@) by {
        assert("suspension_vel_rr"@[11] != "suspension_acc_fl"@[11]);
    }
    assert("suspension_vel_rr"@ != "suspension_acc_fr"@) by {
        assert("suspension_vel_rr"@[11] != "suspension_acc_fr"@[11]);
    }
    assert("suspension_vel_rr"@ != "suspension_acc_rl"@) by {
        assert("suspension_vel_rr"@[11] != "suspension_acc_rl"@[11]);
    }
    assert("suspension_vel_rr"@ != "suspension_acc_rr"@) by {
        assert("suspension_vel_rr"@[11] != "suspension_acc_rr"@[11]);
    }
    assert("suspension_acc_fl"@ != "suspension_acc_fr"@) by {
        assert("suspension_acc_fl"@[16] != "suspension_acc_fr"@[16]);
    }
    assert("suspension_acc_fl"@ != "suspension_acc_rl"@) by {
        assert("suspension_acc_fl"@[15] != "suspension_acc_rl"@[15]);
    }
    assert("suspension_acc_fl"@ != "suspension_acc_rr"@) by {
        assert("suspension_acc_fl"@[15] != "suspension_acc_rr"@[15]);
    }
    assert("suspension_acc_fr"@ != "suspension_acc_rl"@) by {
        assert("suspension_acc_fr"@[15] != "suspension_acc_rl"@[15]);
    }
    assert("suspension_acc_fr"@ != "suspension_acc_rr"@) by {
        assert("suspension_acc_fr"@[15] != "suspension_acc_rr"@[15]);
    }
    assert("suspension_acc_rl"@ != "suspension_acc_rr"@) by {
        assert("suspension_acc_rl"@[16] != "suspension_acc_rr"@[16]);
    }
    assert("wheel_speed_fl"@ != "wheel_speed_fr"@) by {
        assert("wheel_speed_fl"@[13] != "wheel_speed_fr"@[13]);
    }
    assert("wheel_speed_fl"@ != "wheel_speed_rl"@) by {
        assert("wheel_speed_fl"@[12] != "wheel_speed_rl"@[12]);
    }
    assert("wheel_speed_fl"@ != "wheel_speed_rr"@) by {
        assert("wheel_speed_fl"@[12] != "wheel_speed_rr"@[12]);
    }
    assert("wheel_speed_fr"@ != "wheel_speed_rl"@) by {
        assert("wheel_speed_fr"@[12] != "wheel_speed_rl"@[12]);
    }
    assert("wheel_speed_fr"@ != "wheel_speed_rr"@) by {
        assert("wheel_speed_fr"@[12] != "wheel_speed_rr"@[12]);
    }
    assert("wheel_speed_rl"@ != "wheel_speed_rr"@) by {
        assert("wheel_speed_rl"@[13] != "wheel_speed_rr"@[13]);
    }
    assert forall|k: int| 0 <= k < TELEMETRY_COLUMNS implies #[trigger] telemetry_cell(s, k)
        == telemetry_field_named(s, telemetry_column_name(k)) && telemetry_column_type(k)
        == telemetry_type_named(telemetry_column_name(k)) by {
        if k == 0 {
        } else if k == 1 {
        } else if k == 2 {
        } else if k == 3 {
        } else if k == 4 {
        } else if k == 5 {
        } else if k == 6 {
        } else if k == 7 {
        } else if k == 8 {
        } else if k == 9 {
        } else if k == 10 {
        } else if k == 11 {
        } else if k == 12 {
        } else if k == 13 {
        } else if k == 14 {
        } else if k == 15 {
        } else if k == 16 {
        } else if k == 17 {
        } else if k == 18 {
        } else if k == 19 {
        } else if k == 20 {
        } else if k == 21 {
        } else if k == 22 {
        } else if k == 23 {
        } else if k == 24 {
        } else if k == 25 {
        } else if k == 26 {
        } else if k == 27 {
        } else if k == 28 {
        } else if k == 29 {
        } else if k == 30 {
        } else if k == 31 {
        } else if k == 32 {
        } else if k == 33 {
        } else if k == 34 {
        } else if k == 35 {
        } else if k == 36 {
        } else if k == 37 {
        } else if k == 38 {
        } else if k == 39 {
        } else if k == 40 {
        } else if k == 41 {
        } else if k == 42 {
        } else if k == 43 {
        } else if k == 44 {
        } else if k == 45 {
        } else if k == 46 {
        } else if k == 47 {
        } else if k == 48 {
        } else if k == 49 {
        } else if k == 50 {
        } else if k == 51 {
        } else if k == 52 {
        } else if k == 53 {
        } else if k == 54 {
        } else if k == 55 {
        } else if k == 56 {
        }
    }
}

/// No channel is lost: two samples whose every telemetry column holds the
/// same value are the same sample.
pub proof fn lemma_telemetry_row_determines_sample(a: TelemetrySample, b: TelemetrySample)
    requires
        forall|k: int| 0 <= k < TELEMETRY_COLUMNS ==> #[trigger] telemetry_cell(a, k) == telemetry_cell(b, k),
    ensures
        a == b,
{
    assert(telemetry_cell(a, 0) == telemetry_cell(b, 0));
    assert(telemetry_cell(a, 1) == telemetry_cell(b, 1));
    assert(telemetry_cell(a, 2) == telemetry_cell(b, 2));
    assert(telemetry_cell(a, 3) == telemetry_cell(b, 3));
    assert(telemetry_cell(a, 4) == telemetry_cell(b, 4));
    assert(telemetry_cell(a, 5) == telemetry_cell(b, 5));
    assert(telemetry_cell(a, 6) == telemetry_cell(b, 6));
    assert(telemetry_cell(a, 7) == telemetry_cell(b, 7));
    assert(telemetry_cell(a, 8) == telemetry_cell(b, 8));
    assert(telemetry_cell(a, 9) == telemetry_cell(b, 9));
    assert(telemetry_cell(a, 10) == telemetry_cell(b, 10));
    assert(telemetry_cell(a, 11) == telemetry_cell(b, 11));
    assert(telemetry_cell(a, 12) == telemetry_cell(b, 12));
    assert(telemetry_cell(a, 13) == telemetry_cell(b, 13));
    assert(telemetry_cell(a, 14) == telemetry_cell(b, 14));
    assert(telemetry_cell(a, 15) == telemetry_cell(b, 15));
    assert(telemetry_cell(a, 16) == telemetry_cell(b, 16));
    assert(telemetry_cell(a, 17) == telemetry_cell(b, 17));
    assert(telemetry_cell(a, 18) == telemetry_cell(b, 18));
    assert(telemetry_cell(a, 19) == telemetry_cell(b, 19));
    assert(telemetry_cell(a, 20) == telemetry_cell(b, 20));
    assert(telemetry_cell(a, 21) == telemetry_cell(b, 21));
    assert(telemetry_cell(a, 22) == telemetry_cell(b, 22));
    assert(telemetry_cell(a, 23) == telemetry_cell(b, 23));
    assert(telemetry_cell(a, 24) == telemetry_cell(b, 24));
    assert(telemetry_cell(a, 25) == telemetry_cell(b, 25));
    assert(telemetry_cell(a, 26) == telemetry_cell(b, 26));
    assert(telemetry_cell(a, 27) == telemetry_cell(b, 27));
    assert(telemetry_cell(a, 28) == telemetry_cell(b, 28));
    assert(telemetry_cell(a, 29) == telemetry_cell(b, 29));
    assert(telemetry_cell(a, 30) == telemetry_cell(b, 30));
    assert(telemetry_cell(a, 31) == telemetry_cell(b, 31));
    assert(telemetry_cell(a, 32) == telemetry_cell(b, 32));
    assert(telemetry_cell(a, 33) == telemetry_cell(b, 33));
    assert(telemetry_cell(a, 34) == telemetry_cell(b, 34));
    assert(telemetry_cell(a, 35) == telemetry_cell(b, 35));
    assert(telemetry_cell(a, 36) == telemetry_cell(b, 36));
    assert(telemetry_cell(a, 37) == telemetry_cell(b, 37));
    assert(telemetry_cell(a, 38) == telemetry_cell(b, 38));
    assert(telemetry_cell(a, 39) == telemetry_cell(b, 39));
    assert(telemetry_cell(a, 40) == telemetry_cell(b, 40));
    assert(telemetry_cell(a, 41) == telemetry_cell(b, 41));
    assert(telemetry_cell(a, 42) == telemetry_cell(b, 42));
    assert(telemetry_cell(a, 43) == telemetry_cell(b, 43));
    assert(telemetry_cell(a, 44) == telemetry_cell(b, 44));
    assert(telemetry_cell(a, 45) == telemetry_cell(b, 45));
    assert(telemetry_cell(a, 46) == telemetry_cell(b, 46));
    assert(telemetry_cell(a, 47) == telemetry_cell(b, 47));
    assert(telemetry_cell(a, 48) == telemetry_cell(b, 48));
    assert(telemetry_cell(a, 49) == telemetry_cell(b, 49));
    assert(telemetry_cell(a, 50) == telemetry_cell(b, 50));
    assert(telemetry_cell(a, 51) == telemetry_cell(b, 51));
    assert(telemetry_cell(a, 52) == telemetry_cell(b, 52));
    assert(telemetry_cell(a, 53) == telemetry_cell(b, 53));
    assert(telemetry_cell(a, 54) == telemetry_cell(b, 54));
    assert(telemetry_cell(a, 55) == telemetry_cell(b, 55));
    assert(telemetry_cell(a, 56) == telemetry_cell(b, 56));
}

/// The number of columns of the laps table.
pub const LAP_COLUMNS: usize = 10;

/// The name of laps column `k`.
pub open spec fn lap_column_name(k: int) -> Seq<char> {
    if k == 0 {
        "lap_id"@
    } else if k == 1 {
        "session_id"@
    } else if k == 2 {
        "lap_number"@
    } else if k == 3 {
        "lap_time_ms"@
    } else if k == 4 {
        "sector1_ms"@
    } else if k == 5 {
        "sector2_ms"@
    } else if k == 6 {
        "sector3_ms"@
    } else if k == 7 {
        "position"@
    } else if k == 8 {
        "penalties"@
    } else if k == 9 {
        "warnings"@
    } else {
        Seq::empty()
    }
}

/// The type of laps column `k`; the sector times are stored as `f32`
/// milliseconds.
pub open spec fn lap_column_type(k: int) -> ColumnType {
    if k == 0 {
        ColumnType::Utf8
    } else if k == 1 {
        ColumnType::Utf8
    } else if k == 2 {
        ColumnType::UInt8
    } else if k == 3 {
        ColumnType::UInt32
    } else if k == 4 {
        ColumnType::Float32
    } else if k == 5 {
        ColumnType::Float32
    } else if k == 6 {
        ColumnType::Float32
    } else {
        ColumnType::UInt8
    }
}

/// Numeric field `k` of the lap `l` (0 for its text columns).
pub open spec fn lap_cell(l: LapRecordView, k: int) -> int {
    if k == 2 {
        l.lap_number as int
    } else if k == 3 {
        l.lap_time_ms as int
    } else if k == 4 {
        l.sector1_ms as int
    } else if k == 5 {
        l.sector2_ms as int
    } else if k == 6 {
        l.sector3_ms as int
    } else if k == 7 {
        l.position as int
    } else if k == 8 {
        l.penalties as int
    } else if k == 9 {
        l.warnings as int
    } else {
        0
    }
}

/// Text field `k` of the lap `l` (empty for its numeric columns).
pub open spec fn lap_text(l: LapRecordView, k: int) -> Seq<char> {
    if k == 0 {
        l.lap_id
    } else if k == 1 {
        l.session_id
    } else {
        Seq::empty()
    }
}

/// The laps schema: the name and type of each column, in order.
pub fn laps_schema() -> (r: Vec<(&'static str, ColumnType)>)
    ensures
        r@.len() == LAP_COLUMNS,
        forall|k: int|
            0 <= k < LAP_COLUMNS ==> (#[trigger] r@[k]).0@ == lap_column_name(k) && r@[k].1 == lap_column_type(k),
{
    let r = vec![
        ("lap_id", ColumnType::Utf8),
        ("session_id", ColumnType::Utf8),
        ("lap_number", ColumnType::UInt8),
        ("lap_time_ms", ColumnType::UInt32),
        ("sector1_ms", ColumnType::Float32),
        ("sector2_ms", ColumnType::Float32),
        ("sector3_ms", ColumnType::Float32),
        ("position", ColumnType::UInt8),
        ("penalties", ColumnType::UInt8),
        ("warnings", ColumnType::UInt8),
    ];
    assert forall|k: int| 0 <= k < LAP_COLUMNS implies (#[trigger] r@[k]).0@ == lap_column_name(k) && r@[k].1
        == lap_column_type(k) by {
        if k == 0 {
        } else if k == 1 {
        } else if k == 2 {
        } else if k == 3 {
        } else if k == 4 {
        } else if k == 5 {
        } else if k == 6 {
        } else if k == 7 {
        } else if k == 8 {
        } else {
        }
    }
    r
}

/// The laps table of `laps`: column `k` has the type of laps column `k` and
/// holds field `k` of every lap, in order.
pub fn laps_table(laps: &[LapRecord]) -> (r: Vec<ColumnData>)
    ensures
        r@.len() == LAP_COLUMNS,
        forall|k: int|
            0 <= k < LAP_COLUMNS ==> column_type(#[trigger] r@[k]) == lap_column_type(k) && column_len(r@[k])
                == laps@.len(),
        forall|k: int, i: int|
            0 <= k < LAP_COLUMNS && 0 <= i < laps@.len() ==> #[trigger] column_cell(r@[k], i) == lap_cell(
                laps@[i]@,
                k,
            ),
        forall|k: int, i: int|
            0 <= k < LAP_COLUMNS && 0 <= i < laps@.len() ==> #[trigger] column_text(r@[k], i) == lap_text(
                laps@[i]@,
                k,
            ),
{
    let n = laps.len();
    let mut lap_id: Vec<String> = Vec::new();
    let mut session_id: Vec<String> = Vec::new();
    let mut lap_number: Vec<u8> = Vec::new();
    let mut lap_time_ms: Vec<u32> = Vec::new();
    let mut sector1_ms: Vec<u32> = Vec::new();
    let mut sector2_ms: Vec<u32> = Vec::new();
    let mut sector3_ms: Vec<u32> = Vec::new();
    let mut position: Vec<u8> = Vec::new();
    let mut penalties: Vec<u8> = Vec::new();
    let mut warnings: Vec<u8> = Vec::new();
    let mut i: usize = 0;
    while i < n
        invariant
            n == laps@.len(),
            i <= n,
            lap_id@.len() == i,
            session_id@.len() == i,
            lap_number@.len() == i,
            lap_time_ms@.len() == i,
            sector1_ms@.len() == i,
            sector2_ms@.len() == i,
            sector3_ms@.len() == i,
            position@.len() == i,
            penalties@.len() == i,
            warnings@.len() == i,
            forall|j: int|
                0 <= j < i ==> {
                    &&& #[trigger] lap_id@[j]@ == laps@[j].lap_id@
                    &&& session_id@[j]@ == laps@[j].session_id@
                    &&& lap_number@[j] == laps@[j].lap_number
                    &&& lap_time_ms@[j] == laps@[j].lap_time_ms
                    &&& sector1_ms@[j] == laps@[j].sector1_ms
                    &&& sector2_ms@[j] == laps@[j].sector2_ms
                    &&& sector3_ms@[j] == laps@[j].sector3_ms
                    &&& position@[j] == laps@[j].position
                    &&& penalties@[j] == laps@[j].penalties
                    &&& warnings@[j] == laps@[j].warnings
                },
        decreases n - i,
    {
        let l = &laps[i];
        lap_id.push(l.lap_id.clone());
        session_id.push(l.session_id.clone());
        lap_number.push(l.lap_number);
        lap_time_ms.push(l.lap_time_ms);
        sector1_ms.push(l.sector1_ms);
        sector2_ms.push(l.sector2_ms);
        sector3_ms.push(l.sector3_ms);
        position.push(l.position);
        penalties.push(l.penalties);
        warnings.push(l.warnings);
        i = i + 1;
    }
    let r = vec![
        ColumnData::Utf8(lap_id),
        ColumnData::Utf8(session_id),
        ColumnData::UInt8(lap_number),
        ColumnData::UInt32(lap_time_ms),
        ColumnData::Float32Whole(sector1_ms),
        ColumnData::Float32Whole(sector2_ms),
        ColumnData::Float32Whole(sector3_ms),
        ColumnData::UInt8(position),
        ColumnData::UInt8(penalties),
        ColumnData::UInt8(warnings),
    ];
    assert forall|k: int, i: int| 0 <= k < LAP_COLUMNS && 0 <= i < laps@.len() implies #[trigger] column_cell(
        r@[k],
        i,
    ) == lap_cell(laps@[i]@, k) && column_type(r@[k]) == lap_column_type(k) && column_len(r@[k]) == laps@.len() by {
        assert(lap_id@[i]@ == laps@[i].lap_id@);
    }
    assert forall|k: int, i: int| 0 <= k < LAP_COLUMNS && 0 <= i < laps@.len() implies #[trigger] column_text(
        r@[k],
        i,
    ) == lap_text(laps@[i]@, k) by {
        assert(lap_id@[i]@ == laps@[i].lap_id@);
        if k == 0 {
            assert(column_text(r@[k], i) == lap_id@[i]@);
        } else if k == 1 {
            assert(column_text(r@[k], i) == session_id@[i]@);
        } else {
            assert(column_text(r@[k], i) =~= Seq::<char>::empty());
        }
    }
    r
}

/// The numeric field of `l` called `name` (0 for any other name).
pub open spec fn lap_field_named(l: LapRecordView, name: Seq<char>) -> int {
    if name == "lap_number"@ {
        l.lap_number as int
    } else if name == "lap_time_ms"@ {
        l.lap_time_ms as int
    } else if name == "sector1_ms"@ {
        l.sector1_ms as int
    } else if name == "sector2_ms"@ {
        l.sector2_ms as int
    } else if name == "sector3_ms"@ {
        l.sector3_ms as int
    } else if name == "position"@ {
        l.position as int
    } else if name == "penalties"@ {
        l.penalties as int
    } else if name == "warnings"@ {
        l.warnings as int
    } else {
        0
    }
}

/// The text field of `l` called `name` (empty for any other name).
pub open spec fn lap_text_named(l: LapRecordView, name: Seq<char>) -> Seq<char> {
    if name == "lap_id"@ {
        l.lap_id
    } else if name == "session_id"@ {
        l.session_id
    } else {
        Seq::empty()
    }
}

/// The stored type of the lap field called `name`: text for the ids,
/// `Float32` for the sector times, the declared type otherwise.
pub open spec fn lap_type_named(name: Seq<char>) -> ColumnType {
    if name == "lap_id"@ || name == "session_id"@ {
        ColumnType::Utf8
    } else if name == "lap_time_ms"@ {
        ColumnType::UInt32
    } else if name == "sector1_ms"@ || name == "sector2_ms"@ || name == "sector3_ms"@ {
        ColumnType::Float32
    } else {
        ColumnType::UInt8
    }
}

/// Every laps column holds the lap field it is named after, with the
/// type that field is stored as.
pub proof fn lemma_lap_columns_hold_named_fields(l: LapRecordView)
    ensures
        forall|k: int|
            0 <= k < LAP_COLUMNS ==> #[trigger] lap_cell(l, k) == lap_field_named(l, lap_column_name(k))
                && lap_text(l, k) == lap_text_named(l, lap_column_name(k)) && lap_column_type(k)
                == lap_type_named(lap_column_name(k)),
{
    reveal_strlit("lap_id");
    reveal_strlit("session_id");
    reveal_strlit("lap_number");
    reveal_strlit("lap_time_ms");
    reveal_strlit("sector1_ms");
    reveal_strlit("sector2_ms");
    reveal_strlit("sector3_ms");
    reveal_strlit("position");
    reveal_strlit("penalties");
    reveal_strlit("warnings");
    assert("lap_id"@.len() == 6);
    assert("lap_number"@.len() == 10);
    assert("lap_time_ms"@.len() == 11);
    assert("penalties"@.len() == 9);
    assert("position"@.len() == 8);
    assert("sector1_ms"@.len() == 10);
    assert("sector2_ms"@.len() == 10);
    assert("sector3_ms"@.len() == 10);
    assert("session_id"@.len() == 10);
    assert("warnings"@.len() == 8);
    assert("session_id"@ != "lap_number"@) by {
        assert("session_id"@[0] != "lap_number"@[0]);
    }
    assert("session_id"@ != "sector1_ms"@) by {
        assert("session_id"@[2] != "sector1_ms"@[2]);
    }
    assert("session_id"@ != "sector2_ms"@) by {
        assert("session_id"@[2] != "sector2_ms"@[2]);
    }
    assert("session_id"@ != "sector3_ms"@) by {
        assert("session_id"@[2] != "sector3_ms"@[2]);
    }
    assert("lap_number"@ != "sector1_ms"@) by {
        assert("lap_number"@[0] != "sector1_ms"@[0]);
    }
    assert("lap_number"@ != "sector2_ms"@) by {
        assert("lap_number"@[0] != "sector2_ms"@[0]);
    }
    assert("lap_number"@ != "sector3_ms"@) by {
        assert("lap_number"@[0] != "sector3_ms"@[0]);
    }
    assert("sector1_ms"@ != "sector2_ms"@) by {
        assert("sector1_ms"@[6] != "sector2_ms"@[6]);
    }
    assert("sector1_ms"@ != "sector3_ms"@) by {
        assert("sector1_ms"@[6] != "sector3_ms"@[6]);
    }
    assert("sector2_ms"@ != "sector3_ms"@) by {
        assert("sector2_ms"@[6] != "sector3_ms"@[6]);
    }
    assert("position"@ != "warnings"@) by {
        assert("position"@[0] != "warnings"@[0]);
    }
    assert forall|k: int| 0 <= k < LAP_COLUMNS implies #[trigger] lap_cell(l, k) == lap_field_named(
        l,
        lap_column_name(k),
    ) && lap_text(l, k) == lap_text_named(l, lap_column_name(k)) && lap_column_type(k) == lap_type_named(
        lap_column_name(k),
    ) by {
        if k == 0 {
        } else if k == 1 {
        } else if k == 2 {
        } else if k == 3 {
        } else if k == 4 {
        } else if k == 5 {
        } else if k == 6 {
        } else if k == 7 {
        } else if k == 8 {
        } else if k == 9 {
        }
    }
}

/// No lap field is lost: two laps whose every laps column holds the same
/// value are the same lap.
pub proof fn lemma_lap_row_determines_lap(a: LapRecordView, b: LapRecordView)
    requires
        forall|k: int| 0 <= k < LAP_COLUMNS ==> #[trigger] lap_cell(a, k) == lap_cell(b, k),
        forall|k: int| 0 <= k < LAP_COLUMNS ==> #[trigger] lap_text(a, k) == lap_text(b, k),
    ensures
        a == b,
{
    assert(lap_text(a, 0) == lap_text(b, 0));
    assert(lap_text(a, 1) == lap_text(b, 1));
    assert(lap_cell(a, 2) == lap_cell(b, 2));
    assert(lap_cell(a, 3) == lap_cell(b, 3));
    assert(lap_cell(a, 4) == lap_cell(b, 4));
    assert(lap_cell(a, 5) == lap_cell(b, 5));
    assert(lap_cell(a, 6) == lap_cell(b, 6));
    assert(lap_cell(a, 7) == lap_cell(b, 7));
    assert(lap_cell(a, 8) == lap_cell(b, 8));
    assert(lap_cell(a, 9) == lap_cell(b, 9));
}

/// The number of columns of the events table.
pub const EVENT_COLUMNS: usize = 3;

/// The name of events column `k`.
pub open spec fn event_column_name(k: int) -> Seq<char> {
    if k == 0 {
        "timestamp"@
    } else if k == 1 {
        "frame"@
    } else if k == 2 {
        "event_code"@
    } else {
        Seq::empty()
    }
}

/// The type of events column `k`.
pub open spec fn event_column_type(k: int) -> ColumnType {
    if k == 0 {
        ColumnType::Float32
    } else if k == 1 {
        ColumnType::UInt32
    } else {
        ColumnType::Utf8
    }
}

/// Numeric field `k` of the event `e` (the time as its `f32` bit pattern; 0
/// for the code).
pub open spec fn event_cell(e: EventRecordView, k: int) -> int {
    if k == 0 {
        e.timestamp as int
    } else if k == 1 {
        e.frame as int
    } else {
        0
    }
}

/// Text field `k` of the event `e` (its code; empty otherwise).
pub open spec fn event_text(e: EventRecordView, k: int) -> Seq<char> {
    if k == 2 {
        e.event_code
    } else {
        Seq::empty()
    }
}

/// The events schema: the name and type of each column, in order.
pub fn events_schema() -> (r: Vec<(&'static str, ColumnType)>)
    ensures
        r@.len() == EVENT_COLUMNS,
        forall|k: int|
            0 <= k < EVENT_COLUMNS ==> (#[trigger] r@[k]).0@ == event_column_name(k) && r@[k].1 == event_column_type(
                k,
            ),
{
    let r = vec![
        ("timestamp", ColumnType::Float32),
        ("frame", ColumnType::UInt32),
        ("event_code", ColumnType::Utf8),
    ];
    assert forall|k: int| 0 <= k < EVENT_COLUMNS implies (#[trigger] r@[k]).0@ == event_column_name(k) && r@[k].1
        == event_column_type(k) by {
        if k == 0 {
        } else if k == 1 {
        } else {
        }
    }
    r
}

/// The events table of `events`: column `k` has the type of events column
/// `k` and holds field `k` of every event, in order.
pub fn events_table(events: &[EventRecord]) -> (r: Vec<ColumnData>)
    ensures
        r@.len() == EVENT_COLUMNS,
        forall|k: int|
            0 <= k < EVENT_COLUMNS ==> column_type(#[trigger] r@[k]) == event_column_type(k) && column_len(r@[k])
                == events@.len(),
        forall|k: int, i: int|
            0 <= k < EVENT_COLUMNS && 0 <= i < events@.len() ==> #[trigger] column_cell(r@[k], i) == event_cell(
                events@[i]@,
                k,
            ),
        forall|k: int, i: int|
            0 <= k < EVENT_COLUMNS && 0 <= i < events@.len() ==> #[trigger] column_text(r@[k], i) == event_text(
                events@[i]@,
                k,
            ),
{
    let n = events.len();
    let mut timestamp: Vec<u32> = Vec::new();
    let mut frame: Vec<u32> = Vec::new();
    let mut event_code: Vec<String> = Vec::new();
    let mut i: usize = 0;
    while i < n
        invariant
            n == events@.len(),
            i <= n,
            timestamp@.len() == i,
            frame@.len() == i,
            event_code@.len() == i,
            forall|j: int|
                0 <= j < i ==> {
                    &&& #[trigger] timestamp@[j] == events@[j].timestamp
                    &&& frame@[j] == events@[j].frame
                    &&& event_code@[j]@ == events@[j].event_code@
                },
        decreases n - i,
    {
        let e = &events[i];
        timestamp.push(e.timestamp);
        frame.push(e.frame);
        event_code.push(e.event_code.clone());
        i = i + 1;
    }
    let r = vec![ColumnData::Float32(timestamp), ColumnData::UInt32(frame), ColumnData::Utf8(event_code)];
    assert forall|k: int, i: int| 0 <= k < EVENT_COLUMNS && 0 <= i < events@.len() implies #[trigger] column_cell(
        r@[k],
        i,
    ) == event_cell(events@[i]@, k) && column_type(r@[k]) == event_column_type(k) && column_len(r@[k]) == events@.len() by {
        assert(timestamp@[i] == events@[i].timestamp);
    }
    assert forall|k: int, i: int| 0 <= k < EVENT_COLUMNS && 0 <= i < events@.len() implies #[trigger] column_text(
        r@[k],
        i,
    ) == event_text(events@[i]@, k) by {
        assert(timestamp@[i] == events@[i].timestamp);
        if k == 2 {
            assert(column_text(r@[k], i) == event_code@[i]@);
        } else {
            assert(column_text(r@[k], i) =~= Seq::<char>::empty());
        }
    }
    r
}

/// The numeric field of `e` called `name` (0 for any other name).
pub open spec fn event_field_named(e: EventRecordView, name: Seq<char>) -> int {
    if name == "timestamp"@ {
        e.timestamp as int
    } else if name == "frame"@ {
        e.frame as int
    } else {
        0
    }
}

/// The text field of `e` called `name` (empty for any other name).
pub open spec fn event_text_named(e: EventRecordView, name: Seq<char>) -> Seq<char> {
    if name == "event_code"@ {
        e.event_code
    } else {
        Seq::empty()
    }
}

/// The stored type of the event field called `name`.
pub open spec fn event_type_named(name: Seq<char>) -> ColumnType {
    if name == "timestamp"@ {
        ColumnType::Float32
    } else if name == "frame"@ {
        ColumnType::UInt32
    } else {
        ColumnType::Utf8
    }
}

/// Every events column holds the event field it is named after, with the
/// type that field is stored as.
pub proof fn lemma_event_columns_hold_named_fields(e: EventRecordView)
    ensures
        forall|k: int|
            0 <= k < EVENT_COLUMNS ==> #[trigger] event_cell(e, k) == event_field_named(e, event_column_name(k))
                && event_text(e, k) == event_text_named(e, event_column_name(k)) && event_column_type(k)
                == event_type_named(event_column_name(k)),
{
    reveal_strlit("timestamp");
    reveal_strlit("frame");
    reveal_strlit("event_code");
    assert("event_code"@.len() == 10);
    assert("frame"@.len() == 5);
    assert("timestamp"@.len() == 9);
    assert forall|k: int| 0 <= k < EVENT_COLUMNS implies #[trigger] event_cell(e, k) == event_field_named(
        e,
        event_column_name(k),
    ) && event_text(e, k) == event_text_named(e, event_column_name(k)) && event_column_type(k)
        == event_type_named(event_column_name(k)) by {
        if k == 0 {
        } else if k == 1 {
        } else {
        }
    }
}

/// No event field is lost: two events whose every events column holds the
/// same value are the same event.
pub proof fn lemma_event_row_determines_event(a: EventRecordView, b: EventRecordView)
    requires
        forall|k: int| 0 <= k < EVENT_COLUMNS ==> #[trigger] event_cell(a, k) == event_cell(b, k),
        forall|k: int| 0 <= k < EVENT_COLUMNS ==> #[trigger] event_text(a, k) == event_text(b, k),
    ensures
        a == b,
{
    assert(event_cell(a, 0) == event_cell(b, 0));
    assert(event_cell(a, 1) == event_cell(b, 1));
    assert(event_text(a, 2) == event_text(b, 2));
}

} // verus!
