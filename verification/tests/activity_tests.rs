use std::collections::HashMap;

use fit_transcoder::TranscodeError;
use fit_transcoder::activity::{
    Position, SessionSummary, TelemetrySample, build_activity_messages, summary_in_range,
};
use fit_transcoder::codec::{decode_altitude, encode_altitude, mmh_to_mms, ms_to_s, unbias_target};
use fit_transcoder::messages::{DataRecord, DefinitionRecord, FitMessage, FitValue};

fn summary() -> SessionSummary {
    SessionSummary {
        title: "morning ride".to_string(),
        start_time_ms: 1_000_000,
        end_time_ms: 4_600_000,
        elevation_gain: 450,
        elevation_loss: 430,
        distance: 25_000,
        calories: 512_000,
        avg_speed_mmh: 25_000_000,
        max_speed_mmh: 36_000_000,
        max_altitude: 1_200,
        max_grade: 12,
        min_grade: -5,
        avg_heartrate: 140,
        max_heartrate: 181,
        avg_cadence: 85,
        max_cadence: 110,
        power_max: 650,
        power_avg: 180,
        power_tss: 95,
        power_if_milli: 820,
        power_np: 210,
    }
}

fn samples_two() -> Vec<TelemetrySample> {
    vec![
        TelemetrySample {
            heartrate: 150,
            power: 250,
            time_ms: 1_000_000,
            altitude_fifths: 2_500,
            speed_mms: 10_000,
            cadence: 90,
        },
        TelemetrySample {
            heartrate: 300,
            power: 260,
            time_ms: 1_000_500,
            altitude_fifths: -600,
            speed_mms: 70_000,
            cadence: 95,
        },
    ]
}

fn positions_two() -> Vec<Position> {
    vec![
        Position { lat_bits: (39.90_f32).to_bits(), lon_bits: (116.40_f32).to_bits() },
        Position { lat_bits: (39.91_f32).to_bits(), lon_bits: (116.41_f32).to_bits() },
    ]
}

fn as_data(m: &FitMessage) -> &DataRecord {
    match m {
        FitMessage::Data(d) => d,
        FitMessage::Definition(_) => panic!("expected a data message"),
    }
}

fn as_def(m: &FitMessage) -> &DefinitionRecord {
    match m {
        FitMessage::Definition(d) => d,
        FitMessage::Data(_) => panic!("expected a definition message"),
    }
}

fn field<'a>(d: &'a DataRecord, num: u8) -> &'a FitValue {
    &d.fields.iter().find(|f| f.field_num == num).expect("field present").value
}

fn as_u16(v: &FitValue) -> u16 {
    match v {
        FitValue::U16(x) => *x,
        _ => panic!("expected a 16-bit value, got {:?}", v),
    }
}

fn as_u32(v: &FitValue) -> u32 {
    match v {
        FitValue::U32(x) => *x,
        _ => panic!("expected a 32-bit value, got {:?}", v),
    }
}

fn as_time(v: &FitValue) -> u32 {
    match v {
        FitValue::Time(x) => *x,
        _ => panic!("expected a timestamp, got {:?}", v),
    }
}

fn as_u8(v: &FitValue) -> u8 {
    match v {
        FitValue::U8(x) => *x,
        _ => panic!("expected an 8-bit value, got {:?}", v),
    }
}

fn as_i16(v: &FitValue) -> i16 {
    match v {
        FitValue::I16(x) => *x,
        _ => panic!("expected a signed 16-bit value, got {:?}", v),
    }
}

fn as_label(v: &FitValue) -> &str {
    match v {
        FitValue::Label(s) => s.as_str(),
        _ => panic!("expected a label, got {:?}", v),
    }
}

// Scenario D: 100 samples with 99 positions fail with an alignment
// error before any message is built.
#[test]
fn scenario_d_length_mismatch_is_alignment_error() {
    let samples: Vec<TelemetrySample> = (0..100)
        .map(|i| TelemetrySample {
            heartrate: 120,
            power: 200,
            time_ms: 1_000_000 + i * 1000,
            altitude_fifths: 500,
            speed_mms: 5_000,
            cadence: 80,
        })
        .collect();
    let positions: Vec<Position> =
        (0..99).map(|_| Position { lat_bits: 0, lon_bits: 0 }).collect();
    let r = build_activity_messages(&summary(), &samples, &positions);
    assert!(matches!(r, Err(TranscodeError::Alignment)));
}

#[test]
fn sequence_has_fixed_shape() {
    let msgs = build_activity_messages(&summary(), &samples_two(), &positions_two()).unwrap();
    assert_eq!(msgs.len(), 9 + 2 + 9);
    // definitions at their fixed places, data in between
    let defs: Vec<usize> = msgs
        .iter()
        .enumerate()
        .filter(|(_, m)| matches!(m, FitMessage::Definition(_)))
        .map(|(i, _)| i)
        .collect();
    assert_eq!(defs, vec![0, 2, 4, 6, 8, 14, 16, 18]);
    assert_eq!(as_def(&msgs[8]).local_num, 5);
    assert_eq!(as_data(&msgs[9]).local_num, 5);
    assert_eq!(as_data(&msgs[10]).local_num, 5);
}

#[test]
fn start_event_and_closing_events() {
    let msgs = build_activity_messages(&summary(), &samples_two(), &positions_two()).unwrap();
    let start_event = as_data(&msgs[7]);
    assert_eq!(as_time(field(start_event, 253)), 1000);
    assert_eq!(as_label(field(start_event, 0)), "timer");
    assert_eq!(as_label(field(start_event, 1)), "start");
    let stops: Vec<(&str, &str)> = (11..=13)
        .map(|i| {
            let d = as_data(&msgs[i]);
            assert_eq!(as_time(field(d, 253)), 4600);
            (as_label(field(d, 0)), as_label(field(d, 1)))
        })
        .collect();
    assert_eq!(stops, vec![
        ("timer", "stop"),
        ("timer", "stop_all"),
        ("session", "stop_disable_all"),
    ]);
}

#[test]
fn record_values_scaled_and_clamped() {
    let msgs = build_activity_messages(&summary(), &samples_two(), &positions_two()).unwrap();
    let r1 = as_data(&msgs[9]);
    assert_eq!(as_u16(field(r1, 2)), 3_000);
    assert_eq!(as_u8(field(r1, 3)), 150);
    assert_eq!(as_u8(field(r1, 4)), 90);
    assert_eq!(as_u32(field(r1, 5)), 1_000_000);
    assert_eq!(as_u16(field(r1, 6)), 10_000);
    assert_eq!(as_u16(field(r1, 7)), 250);
    assert_eq!(as_time(field(r1, 253)), 1000);
    match field(r1, 0) {
        FitValue::F32Bits(b) => assert_eq!(f32::from_bits(*b), 39.90),
        v => panic!("expected float bits, got {:?}", v),
    }

    let r2 = as_data(&msgs[10]);
    // altitude below the offset floor clamps to zero
    assert_eq!(as_u16(field(r2, 2)), 0);
    // heart rate above the 8-bit range clamps to 255
    assert_eq!(as_u8(field(r2, 3)), 255);
    // speed above the 16-bit range clamps, distance accrues raw*100
    assert_eq!(as_u16(field(r2, 6)), 65_535);
    assert_eq!(as_u32(field(r2, 5)), 1_000_000 + 6_553_500);
}

#[test]
fn session_aggregates_exact() {
    let msgs = build_activity_messages(&summary(), &samples_two(), &positions_two()).unwrap();
    let s = as_data(&msgs[15]);
    assert_eq!(s.fields.len(), 35);
    assert_eq!(as_time(field(s, 253)), 4600);
    assert_eq!(as_time(field(s, 2)), 1000);
    assert_eq!(as_u32(field(s, 7)), 3_600_000);
    assert_eq!(as_u32(field(s, 8)), 3_600_000);
    assert_eq!(as_u32(field(s, 59)), 3_600_000);
    assert_eq!(as_u32(field(s, 9)), 2_500_000);
    assert_eq!(as_u16(field(s, 11)), 512);
    // 25 km/h = 25_000_000 mm/h; rounded to mm/s
    assert_eq!(as_u16(field(s, 14)), 6_944);
    assert_eq!(as_u16(field(s, 15)), 10_000);
    assert_eq!(as_u16(field(s, 20)), 180);
    assert_eq!(as_u16(field(s, 21)), 650);
    assert_eq!(as_u16(field(s, 22)), 450);
    assert_eq!(as_u16(field(s, 23)), 430);
    assert_eq!(as_u16(field(s, 25)), 0);
    assert_eq!(as_u16(field(s, 26)), 1);
    assert_eq!(as_u16(field(s, 34)), 210);
    assert_eq!(as_u16(field(s, 35)), 95);
    assert_eq!(as_u16(field(s, 36)), 820);
    // altitude raws: 3000 and 0 -> average 1500, minimum 0
    assert_eq!(as_u16(field(s, 49)), 1_500);
    assert_eq!(as_u16(field(s, 71)), 0);
    assert_eq!(as_u16(field(s, 50)), 1_200 * 5 + 500);
    assert_eq!(as_i16(field(s, 55)), 1_200);
    assert_eq!(as_i16(field(s, 56)), -500);
    assert_eq!(as_u8(field(s, 16)), 140);
    assert_eq!(as_u8(field(s, 17)), 181);
    assert_eq!(as_u8(field(s, 18)), 85);
    assert_eq!(as_u8(field(s, 19)), 110);
    assert_eq!(as_u8(field(s, 64)), 140);
}

#[test]
fn activity_and_sport_messages() {
    let msgs = build_activity_messages(&summary(), &samples_two(), &positions_two()).unwrap();
    let a = as_data(&msgs[17]);
    assert_eq!(as_time(field(a, 253)), 4600);
    assert_eq!(as_u32(field(a, 0)), 3600);
    assert_eq!(as_time(field(a, 5)), 4600);
    assert_eq!(as_u16(field(a, 1)), 0);
    assert_eq!(as_label(field(a, 2)), "manual");
    assert_eq!(as_label(field(a, 3)), "activity");
    assert_eq!(as_label(field(a, 4)), "stop");
    let sp = as_data(&msgs[19]);
    match field(sp, 3) {
        FitValue::Text(t) => assert_eq!(t, "Road Cycling\0\0\0\0"),
        v => panic!("expected text, got {:?}", v),
    }
    assert_eq!(as_label(field(sp, 0)), "cycling");
    assert_eq!(as_label(field(sp, 1)), "road");
}

fn value_fits_row(v: &FitValue, size: u8, base_type: u8) -> bool {
    match v {
        FitValue::U8(_) => size == 1 && base_type == 2,
        FitValue::I8(_) => size == 1 && base_type == 1,
        FitValue::U16(_) => size == 2 && base_type == 4,
        FitValue::I16(_) => size == 2 && base_type == 3,
        FitValue::U32(_) => size == 4 && base_type == 6,
        FitValue::Time(_) => size == 4 && base_type == 6,
        FitValue::F32Bits(_) => size == 4 && base_type == 8,
        FitValue::Label(_) => (size == 1 && base_type == 0) || (size == 2 && base_type == 4),
        FitValue::Text(s) => base_type == 7 && s.len() == size as usize,
        FitValue::Bytes(b) => base_type == 12 && b.len() == size as usize,
    }
}

// Every data message's field count and each field's number, width and
// value type match the most recently emitted definition sharing its
// local message number.
#[test]
fn every_data_message_matches_its_definition() {
    let msgs = build_activity_messages(&summary(), &samples_two(), &positions_two()).unwrap();
    let mut defs: HashMap<u8, &DefinitionRecord> = HashMap::new();
    let mut data_seen = 0usize;
    for m in &msgs {
        match m {
            FitMessage::Definition(d) => {
                defs.insert(d.local_num, d);
            }
            FitMessage::Data(d) => {
                data_seen += 1;
                let def = defs.get(&d.local_num).expect("data before its definition");
                assert_eq!(def.kind, d.kind);
                assert_eq!(def.fields.len(), d.fields.len());
                for (fv, fd) in d.fields.iter().zip(def.fields.iter()) {
                    assert_eq!(fv.field_num, fd.field_num);
                    assert!(
                        value_fits_row(&fv.value, fd.size, fd.base_type),
                        "field {} does not fit its definition row",
                        fv.field_num
                    );
                }
            }
        }
    }
    assert_eq!(data_seen, 12);
}

// The altitude scale is exactly invertible on 0.2 m boundaries.
#[test]
fn altitude_scale_invertible_on_fifth_meter_boundaries() {
    for fifths in [-2_500i32, -1, 0, 1, 2_500, 12_345, 65_035] {
        let a = fifths as f64 * 0.2;
        let raw = (a * 5.0 + 500.0).round();
        assert_eq!((raw - 500.0) / 5.0, a);
    }
    // the field encoding inverts exactly wherever it is not clamped
    for fifths in [-500i32, -1, 0, 1, 2_500, 12_345, 65_035] {
        assert_eq!(decode_altitude(encode_altitude(fifths)), fifths);
    }
}

#[test]
fn altitude_encoding_saturates_outside_field_range() {
    assert_eq!(encode_altitude(-501), 0);
    assert_eq!(encode_altitude(-500), 0);
    assert_eq!(encode_altitude(65_035), 65_535);
    assert_eq!(encode_altitude(65_036), 65_535);
    assert_eq!(decode_altitude(0), -500);
}

#[test]
fn codec_conversions_exact() {
    assert_eq!(ms_to_s(1_000_000), 1_000);
    assert_eq!(ms_to_s(999), 0);
    // rounding half up at the 3600 divisor
    assert_eq!(mmh_to_mms(36_000_000), 10_000);
    assert_eq!(mmh_to_mms(3_600), 1);
    assert_eq!(mmh_to_mms(1_799), 0);
    assert_eq!(mmh_to_mms(1_800), 1);
    assert_eq!(unbias_target(1_195), 195);
    assert_eq!(unbias_target(999), 0);
}

#[test]
fn summary_range_checker_matches_limits() {
    assert!(summary_in_range(&summary()));
    let mut s = summary();
    s.max_altitude = 13_007;
    assert!(summary_in_range(&s));
    s.max_altitude = 13_008;
    assert!(!summary_in_range(&s));
    let mut s2 = summary();
    s2.max_grade = 328;
    assert!(!summary_in_range(&s2));
    let mut s3 = summary();
    s3.end_time_ms = s3.start_time_ms - 1_000;
    assert!(!summary_in_range(&s3));
}

#[test]
fn single_sample_session() {
    let samples = vec![TelemetrySample {
        heartrate: 120,
        power: 200,
        time_ms: 1_000_000,
        altitude_fifths: 1_000,
        speed_mms: 2_500,
        cadence: 80,
    }];
    let positions = vec![Position { lat_bits: 0, lon_bits: 0 }];
    let msgs = build_activity_messages(&summary(), &samples, &positions).unwrap();
    assert_eq!(msgs.len(), 19);
    let s = as_data(&msgs[14]);
    // one sample: the average and minimum raw altitude are its own
    assert_eq!(as_u16(field(s, 49)), 1_500);
    assert_eq!(as_u16(field(s, 71)), 1_500);
    let r = as_data(&msgs[9]);
    assert_eq!(as_u32(field(r, 5)), 250_000);
}
