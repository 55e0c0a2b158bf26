use pitwall::session::{EventRecord, LapRecord, TelemetrySample};
use pitwall::tables::{
    events_schema, events_table, laps_schema, laps_table, telemetry_schema, telemetry_table, ColumnData,
    ColumnType, TELEMETRY_COLUMNS,
};

fn floats(c: &ColumnData) -> Vec<f32> {
    match c {
        ColumnData::Float32(v) => v.iter().map(|b| f32::from_bits(*b)).collect(),
        ColumnData::Float32Whole(v) => v.iter().map(|x| *x as f32).collect(),
        _ => panic!("not a float column"),
    }
}

fn sample(i: u32) -> TelemetrySample {
    let mut s = TelemetrySample::default();
    s.timestamp = (i as f32 * 0.5).to_bits();
    s.frame = 100 + i;
    s.lap_number = 3;
    s.throttle = 0.75f32.to_bits();
    s.brake = 0.25f32.to_bits();
    s.gear = -1;
    s.speed = 301;
    s.tyre_surface_rl = 95;
    s.brake_temp_fr = 812;
    s.wheel_speed_rr = 88.5f32.to_bits();
    s
}

#[test]
fn telemetry_schema_lists_every_field_in_order() {
    let schema = telemetry_schema();
    assert_eq!(schema.len(), TELEMETRY_COLUMNS);
    assert_eq!(schema[0], ("timestamp", ColumnType::Float32));
    assert_eq!(schema[1], ("frame", ColumnType::UInt32));
    assert_eq!(schema[2], ("lap_number", ColumnType::UInt8));
    assert_eq!(schema[5], ("throttle", ColumnType::Float32));
    assert_eq!(schema[6], ("brake", ColumnType::Float32));
    assert_eq!(schema[9], ("gear", ColumnType::Int8));
    assert_eq!(schema[10], ("speed", ColumnType::UInt16));
    assert_eq!(schema[37], ("brake_temp_fl", ColumnType::UInt16));
    assert_eq!(schema[56], ("wheel_speed_rr", ColumnType::Float32));
    let mut names: Vec<&str> = schema.iter().map(|(n, _)| *n).collect();
    names.sort();
    names.dedup();
    assert_eq!(names.len(), TELEMETRY_COLUMNS);
}

#[test]
fn telemetry_table_holds_every_channel() {
    let samples = vec![sample(0), sample(1), sample(2)];
    let table = telemetry_table(&samples);
    assert_eq!(table.len(), TELEMETRY_COLUMNS);
    assert_eq!(floats(&table[0]), vec![0.0, 0.5, 1.0]);
    assert!(matches!(&table[1], ColumnData::UInt32(v) if v == &vec![100, 101, 102]));
    assert_eq!(floats(&table[5]), vec![0.75; 3]);
    assert_eq!(floats(&table[6]), vec![0.25; 3]);
    assert!(matches!(&table[9], ColumnData::Int8(v) if v == &vec![-1; 3]));
    assert!(matches!(&table[10], ColumnData::UInt16(v) if v == &vec![301; 3]));
    assert!(matches!(&table[31], ColumnData::UInt8(v) if v == &vec![95; 3]));
    assert!(matches!(&table[38], ColumnData::UInt16(v) if v == &vec![812; 3]));
    assert_eq!(floats(&table[56]), vec![88.5; 3]);
    assert!(matches!(&table[55], ColumnData::Float32(v) if v == &vec![0; 3]));
    let empty = telemetry_table(&[]);
    assert_eq!(empty.len(), TELEMETRY_COLUMNS);
    assert!(matches!(&empty[0], ColumnData::Float32(v) if v.is_empty()));
}

#[test]
fn laps_and_events_tables() {
    let laps = vec![LapRecord {
        lap_id: "L1".to_string(),
        session_id: "S".to_string(),
        lap_number: 4,
        lap_time_ms: 90_123,
        sector1_ms: 30_000,
        sector2_ms: 30_100,
        sector3_ms: 30_023,
        position: 2,
        penalties: 0,
        warnings: 1,
    }];
    let names: Vec<&str> = laps_schema().iter().map(|(n, _)| *n).collect();
    assert_eq!(
        names,
        vec![
            "lap_id", "session_id", "lap_number", "lap_time_ms", "sector1_ms", "sector2_ms", "sector3_ms",
            "position", "penalties", "warnings"
        ]
    );
    assert_eq!(laps_schema()[4].1, ColumnType::Float32);
    let t = laps_table(&laps);
    assert!(matches!(&t[0], ColumnData::Utf8(v) if v == &vec!["L1".to_string()]));
    assert!(matches!(&t[1], ColumnData::Utf8(v) if v == &vec!["S".to_string()]));
    assert!(matches!(&t[3], ColumnData::UInt32(v) if v == &vec![90_123]));
    assert_eq!(floats(&t[6]), vec![30_023.0]);
    assert!(matches!(&t[9], ColumnData::UInt8(v) if v == &vec![1]));

    let events = vec![EventRecord { timestamp: 12.5f32.to_bits(), frame: 7, event_code: "FTLP".to_string() }];
    assert_eq!(events_schema(), vec![
        ("timestamp", ColumnType::Float32),
        ("frame", ColumnType::UInt32),
        ("event_code", ColumnType::Utf8),
    ]);
    let e = events_table(&events);
    assert_eq!(floats(&e[0]), vec![12.5]);
    assert!(matches!(&e[1], ColumnData::UInt32(v) if v == &vec![7]));
    assert!(matches!(&e[2], ColumnData::Utf8(v) if v == &vec!["FTLP".to_string()]));
}
