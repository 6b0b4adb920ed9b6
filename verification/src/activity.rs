//! The activity message sequencer: a session summary and an ordered
//! telemetry-sample sequence are compiled into the fixed, ordered
//! sequence of definition/data protocol messages of a synthetic
//! activity file.  Each definition and the construction of its data
//! values are authored as one unit, so a data message can never drift
//! from its paired definition.

use vstd::prelude::*;

use crate::TranscodeError;
use crate::codec::{
    clamp_rate_u8, clamp_speed_u16, clamp_u8_spec, clamp_u16_spec, encode_altitude,
    encode_altitude_spec, mmh_to_mms, mmh_to_mms_spec, ms_to_s, ms_to_s_spec, sat_add_u32,
};
use crate::messages::{
    DataModel, DataRecord, DefinitionModel, DefinitionRecord, FieldDef, FieldRecord,
    FieldRecordModel, FitMessage, FitMessageModel, FitValue, FitValueModel, MessageKind,
    data_matches_def, latest_def, lemma_latest_def_push_data, lemma_latest_def_push_def,
    lemma_wf_push_data, lemma_wf_push_def, seq_well_formed, value_fits,
};

verus! {

/// One telemetry sample, one per recorded instant, already reduced to
/// the integer precisions the binary format can carry: time in
/// milliseconds, altitude in 0.2 m units, speed in mm/s.
#[derive(Clone, Copy, Debug, PartialEq, Eq, Structural)]
pub struct TelemetrySample {
    pub heartrate: u16,
    pub power: u16,
    pub time_ms: u64,
    pub altitude_fifths: i32,
    pub speed_mms: u32,
    pub cadence: u16,
}

/// One position, the 32-bit float bit patterns of latitude and
/// longitude, carried through unread.
#[derive(Clone, Copy, Debug, PartialEq, Eq, Structural)]
pub struct Position {
    pub lat_bits: u32,
    pub lon_bits: u32,
}

/// The session summary, fully populated from one upstream document
/// and immutable: times in milliseconds, distance in meters, speeds
/// in mm per hour, the intensity factor scaled by 1000, normalized
/// power and training-stress-score already rounded to integers.
pub struct SessionSummary {
    pub title: String,
    pub start_time_ms: u64,
    pub end_time_ms: u64,
    pub elevation_gain: u16,
    pub elevation_loss: u16,
    pub distance: u32,
    pub calories: u32,
    pub avg_speed_mmh: u32,
    pub max_speed_mmh: u32,
    pub max_altitude: u16,
    pub max_grade: i16,
    pub min_grade: i16,
    pub avg_heartrate: u8,
    pub max_heartrate: u8,
    pub avg_cadence: u8,
    pub max_cadence: u8,
    pub power_max: u16,
    pub power_avg: u16,
    pub power_tss: u16,
    pub power_if_milli: u16,
    pub power_np: u16,
}

/// The session's start time in whole seconds.
pub open spec fn start_s(s: SessionSummary) -> int {
    s.start_time_ms as int / 1000
}

/// The session's end time in whole seconds.
pub open spec fn end_s(s: SessionSummary) -> int {
    s.end_time_ms as int / 1000
}

/// The machine limits that the session aggregation arithmetic needs:
/// every scaled summary field must fit the width of its protocol
/// field, as the source format assumes.
pub open spec fn summary_ok(s: SessionSummary) -> bool {
    &&& start_s(s) <= u32::MAX
    &&& end_s(s) <= u32::MAX
    &&& start_s(s) <= end_s(s)
    &&& (end_s(s) - start_s(s)) * 1000 <= u32::MAX
    &&& s.distance * 100 <= u32::MAX
    &&& s.calories as int / 1000 <= u16::MAX
    &&& mmh_to_mms_spec(s.avg_speed_mmh as int) <= u16::MAX
    &&& mmh_to_mms_spec(s.max_speed_mmh as int) <= u16::MAX
    &&& s.max_altitude * 5 + 500 <= u16::MAX
    &&& i16::MIN <= s.max_grade * 100 <= i16::MAX
    &&& i16::MIN <= s.min_grade * 100 <= i16::MAX
}

/// Decide `summary_ok` at run time, so an unverified caller can test
/// the sequencer's precondition before calling it.
pub fn summary_in_range(s: &SessionSummary) -> (r: bool)
    ensures
        r == summary_ok(*s),
{
    let st: u64 = s.start_time_ms / 1000;
    let en: u64 = s.end_time_ms / 1000;
    st <= 0xFFFF_FFFF && en <= 0xFFFF_FFFF && st <= en && (en - st) <= 4_294_967 && s.distance
        <= 42_949_672 && s.calories / 1000 <= 0xFFFF && mmh_to_mms(s.avg_speed_mmh) <= 0xFFFF
        && mmh_to_mms(s.max_speed_mmh) <= 0xFFFF && s.max_altitude <= 13_007 && s.max_grade <= 327
        && s.max_grade >= -327 && s.min_grade <= 327 && s.min_grade >= -327
}

/// The fixed manufacturer identifier array of the file-id and
/// device-info messages: five identifying bytes padded to 32.
pub open spec fn manufacturer_bytes_spec() -> Seq<u8> {
    seq![119u8, 39, 144, 3, 32] + Seq::new(27nat, |i: int| 0u8)
}

fn manufacturer_bytes() -> (v: Vec<u8>)
    ensures
        v@ == manufacturer_bytes_spec(),
{
    let mut v: Vec<u8> = Vec::new();
    v.push(119);
    v.push(39);
    v.push(144);
    v.push(3);
    v.push(32);
    let mut i: usize = 0;
    while i < 27
        invariant
            0 <= i <= 27,
            v@ == seq![119u8, 39, 144, 3, 32] + Seq::new(i as nat, |j: int| 0u8),
        decreases 27 - i,
    {
        v.push(0);
        proof {
            assert((seq![119u8, 39, 144, 3, 32] + Seq::new(i as nat, |j: int| 0u8)).push(0u8)
                =~= seq![119u8, 39, 144, 3, 32] + Seq::new((i + 1) as nat, |j: int| 0u8));
        }
        i = i + 1;
    }
    proof {
        assert(v@ =~= manufacturer_bytes_spec());
    }
    v
}

/// The file-id definition: local message number 6.
pub open spec fn file_id_def_model() -> FitMessageModel {
    FitMessageModel::Definition(
        DefinitionModel {
            local_num: 6,
            kind: MessageKind::FileId,
            fields: seq![
                FieldDef { field_num: 3, size: 32, big_endian: true, base_type: 12 },
                FieldDef { field_num: 4, size: 4, big_endian: true, base_type: 6 },
                FieldDef { field_num: 1, size: 2, big_endian: true, base_type: 4 },
                FieldDef { field_num: 2, size: 2, big_endian: true, base_type: 4 },
                FieldDef { field_num: 0, size: 1, big_endian: false, base_type: 0 },
            ],
        },
    )
}

/// The file-id data: manufacturer identifier, creation time equal to
/// the session start, product id, and the activity file type.
pub open spec fn file_id_data_model(start: u32) -> FitMessageModel {
    FitMessageModel::Data(
        DataModel {
            local_num: 6,
            kind: MessageKind::FileId,
            fields: seq![
                FieldRecordModel {
                    field_num: 3,
                    value: FitValueModel::Bytes(manufacturer_bytes_spec()),
                },
                FieldRecordModel { field_num: 4, value: FitValueModel::Time(start) },
                FieldRecordModel { field_num: 1, value: FitValueModel::Label("igpsport"@) },
                FieldRecordModel { field_num: 2, value: FitValueModel::U16(200) },
                FieldRecordModel { field_num: 0, value: FitValueModel::Label("activity"@) },
            ],
        },
    )
}

fn build_file_id_def() -> (m: FitMessage)
    ensures
        m@ == file_id_def_model(),
{
    let mut fields: Vec<FieldDef> = Vec::new();
    fields.push(FieldDef::new(3, 32, true, 12));
    fields.push(FieldDef::new(4, 4, true, 6));
    fields.push(FieldDef::new(1, 2, true, 4));
    fields.push(FieldDef::new(2, 2, true, 4));
    fields.push(FieldDef::new(0, 1, false, 0));
    proof {
        assert(fields@ =~= file_id_def_model()->Definition_0.fields);
    }
    FitMessage::Definition(DefinitionRecord { local_num: 6, kind: MessageKind::FileId, fields })
}

fn build_file_id_data(start: u32) -> (m: FitMessage)
    ensures
        m@ == file_id_data_model(start),
{
    let mfg = manufacturer_bytes();
    let mut fields: Vec<FieldRecord> = Vec::new();
    fields.push(FieldRecord::new(3, FitValue::Bytes(mfg)));
    fields.push(FieldRecord::new(4, FitValue::Time(start)));
    fields.push(FieldRecord::new(1, FitValue::Label("igpsport".to_owned())));
    fields.push(FieldRecord::new(2, FitValue::U16(200)));
    fields.push(FieldRecord::new(0, FitValue::Label("activity".to_owned())));
    let m = FitMessage::Data(DataRecord { local_num: 6, kind: MessageKind::FileId, fields });
    proof {
        assert(m@->Data_0.fields =~= file_id_data_model(start)->Data_0.fields);
    }
    m
}

/// The file-creator definition: local message number 7.
pub open spec fn file_creator_def_model() -> FitMessageModel {
    FitMessageModel::Definition(
        DefinitionModel {
            local_num: 7,
            kind: MessageKind::FileCreator,
            fields: seq![
                FieldDef { field_num: 0, size: 2, big_endian: true, base_type: 4 },
                FieldDef { field_num: 1, size: 1, big_endian: false, base_type: 2 },
            ],
        },
    )
}

/// The file-creator data: fixed software and hardware versions.
pub open spec fn file_creator_data_model() -> FitMessageModel {
    FitMessageModel::Data(
        DataModel {
            local_num: 7,
            kind: MessageKind::FileCreator,
            fields: seq![
                FieldRecordModel { field_num: 0, value: FitValueModel::U16(139) },
                FieldRecordModel { field_num: 1, value: FitValueModel::U8(100) },
            ],
        },
    )
}

fn build_file_creator_def() -> (m: FitMessage)
    ensures
        m@ == file_creator_def_model(),
{
    let mut fields: Vec<FieldDef> = Vec::new();
    fields.push(FieldDef::new(0, 2, true, 4));
    fields.push(FieldDef::new(1, 1, false, 2));
    proof {
        assert(fields@ =~= file_creator_def_model()->Definition_0.fields);
    }
    FitMessage::Definition(
        DefinitionRecord { local_num: 7, kind: MessageKind::FileCreator, fields },
    )
}

fn build_file_creator_data() -> (m: FitMessage)
    ensures
        m@ == file_creator_data_model(),
{
    let mut fields: Vec<FieldRecord> = Vec::new();
    fields.push(FieldRecord::new(0, FitValue::U16(139)));
    fields.push(FieldRecord::new(1, FitValue::U8(100)));
    let m = FitMessage::Data(DataRecord { local_num: 7, kind: MessageKind::FileCreator, fields });
    proof {
        assert(m@->Data_0.fields =~= file_creator_data_model()->Data_0.fields);
    }
    m
}

/// The device-info definition: local message number 1.
pub open spec fn device_info_def_model() -> FitMessageModel {
    FitMessageModel::Definition(
        DefinitionModel {
            local_num: 1,
            kind: MessageKind::DeviceInfo,
            fields: seq![
                FieldDef { field_num: 253, size: 4, big_endian: true, base_type: 6 },
                FieldDef { field_num: 3, size: 32, big_endian: true, base_type: 12 },
                FieldDef { field_num: 2, size: 2, big_endian: true, base_type: 4 },
                FieldDef { field_num: 4, size: 2, big_endian: true, base_type: 4 },
                FieldDef { field_num: 5, size: 2, big_endian: true, base_type: 4 },
                FieldDef { field_num: 0, size: 1, big_endian: false, base_type: 2 },
                FieldDef { field_num: 1, size: 1, big_endian: false, base_type: 2 },
                FieldDef { field_num: 6, size: 1, big_endian: false, base_type: 2 },
            ],
        },
    )
}

/// The device-info data: device serial, manufacturer and product
/// constants, at the session start time.
pub open spec fn device_info_data_model(start: u32) -> FitMessageModel {
    FitMessageModel::Data(
        DataModel {
            local_num: 1,
            kind: MessageKind::DeviceInfo,
            fields: seq![
                FieldRecordModel { field_num: 253, value: FitValueModel::Time(start) },
                FieldRecordModel {
                    field_num: 3,
                    value: FitValueModel::Bytes(manufacturer_bytes_spec()),
                },
                FieldRecordModel { field_num: 2, value: FitValueModel::Label("igpsport"@) },
                FieldRecordModel { field_num: 4, value: FitValueModel::U16(200) },
                FieldRecordModel { field_num: 5, value: FitValueModel::U16(139) },
                FieldRecordModel { field_num: 0, value: FitValueModel::U8(255) },
                FieldRecordModel { field_num: 1, value: FitValueModel::U8(0) },
                FieldRecordModel { field_num: 6, value: FitValueModel::U8(100) },
            ],
        },
    )
}

fn build_device_info_def() -> (m: FitMessage)
    ensures
        m@ == device_info_def_model(),
{
    let mut fields: Vec<FieldDef> = Vec::new();
    fields.push(FieldDef::new(253, 4, true, 6));
    fields.push(FieldDef::new(3, 32, true, 12));
    fields.push(FieldDef::new(2, 2, true, 4));
    fields.push(FieldDef::new(4, 2, true, 4));
    fields.push(FieldDef::new(5, 2, true, 4));
    fields.push(FieldDef::new(0, 1, false, 2));
    fields.push(FieldDef::new(1, 1, false, 2));
    fields.push(FieldDef::new(6, 1, false, 2));
    proof {
        assert(fields@ =~= device_info_def_model()->Definition_0.fields);
    }
    FitMessage::Definition(DefinitionRecord { local_num: 1, kind: MessageKind::DeviceInfo, fields })
}

fn build_device_info_data(start: u32) -> (m: FitMessage)
    ensures
        m@ == device_info_data_model(start),
{
    let mfg = manufacturer_bytes();
    let mut fields: Vec<FieldRecord> = Vec::new();
    fields.push(FieldRecord::new(253, FitValue::Time(start)));
    fields.push(FieldRecord::new(3, FitValue::Bytes(mfg)));
    fields.push(FieldRecord::new(2, FitValue::Label("igpsport".to_owned())));
    fields.push(FieldRecord::new(4, FitValue::U16(200)));
    fields.push(FieldRecord::new(5, FitValue::U16(139)));
    fields.push(FieldRecord::new(0, FitValue::U8(255)));
    fields.push(FieldRecord::new(1, FitValue::U8(0)));
    fields.push(FieldRecord::new(6, FitValue::U8(100)));
    let m = FitMessage::Data(DataRecord { local_num: 1, kind: MessageKind::DeviceInfo, fields });
    proof {
        assert(m@->Data_0.fields =~= device_info_data_model(start)->Data_0.fields);
    }
    m
}

/// The event definition: local message number 0, shared by the start
/// event and the closing events.
pub open spec fn event_def_model() -> FitMessageModel {
    FitMessageModel::Definition(
        DefinitionModel {
            local_num: 0,
            kind: MessageKind::Event,
            fields: seq![
                FieldDef { field_num: 253, size: 4, big_endian: true, base_type: 6 },
                FieldDef { field_num: 0, size: 1, big_endian: false, base_type: 0 },
                FieldDef { field_num: 1, size: 1, big_endian: false, base_type: 0 },
            ],
        },
    )
}

/// One event data message: a timestamp, the event label, and the
/// event-type label.
pub open spec fn event_data_model(t: u32, ev: Seq<char>, ev_type: Seq<char>) -> FitMessageModel {
    FitMessageModel::Data(
        DataModel {
            local_num: 0,
            kind: MessageKind::Event,
            fields: seq![
                FieldRecordModel { field_num: 253, value: FitValueModel::Time(t) },
                FieldRecordModel { field_num: 0, value: FitValueModel::Label(ev) },
                FieldRecordModel { field_num: 1, value: FitValueModel::Label(ev_type) },
            ],
        },
    )
}

fn build_event_def() -> (m: FitMessage)
    ensures
        m@ == event_def_model(),
{
    let mut fields: Vec<FieldDef> = Vec::new();
    fields.push(FieldDef::new(253, 4, true, 6));
    fields.push(FieldDef::new(0, 1, false, 0));
    fields.push(FieldDef::new(1, 1, false, 0));
    proof {
        assert(fields@ =~= event_def_model()->Definition_0.fields);
    }
    FitMessage::Definition(DefinitionRecord { local_num: 0, kind: MessageKind::Event, fields })
}

fn build_event_data(t: u32, ev: String, ev_type: String) -> (m: FitMessage)
    ensures
        m@ == event_data_model(t, ev@, ev_type@),
{
    let mut fields: Vec<FieldRecord> = Vec::new();
    fields.push(FieldRecord::new(253, FitValue::Time(t)));
    fields.push(FieldRecord::new(0, FitValue::Label(ev)));
    fields.push(FieldRecord::new(1, FitValue::Label(ev_type)));
    let m = FitMessage::Data(DataRecord { local_num: 0, kind: MessageKind::Event, fields });
    proof {
        assert(m@->Data_0.fields =~= event_data_model(t, ev@, ev_type@)->Data_0.fields);
    }
    m
}

/// The record definition: local message number 5.
pub open spec fn record_def_model() -> FitMessageModel {
    FitMessageModel::Definition(
        DefinitionModel {
            local_num: 5,
            kind: MessageKind::Record,
            fields: seq![
                FieldDef { field_num: 0, size: 4, big_endian: false, base_type: 8 },
                FieldDef { field_num: 1, size: 4, big_endian: false, base_type: 8 },
                FieldDef { field_num: 2, size: 2, big_endian: true, base_type: 4 },
                FieldDef { field_num: 3, size: 1, big_endian: true, base_type: 2 },
                FieldDef { field_num: 4, size: 1, big_endian: true, base_type: 2 },
                FieldDef { field_num: 5, size: 4, big_endian: true, base_type: 6 },
                FieldDef { field_num: 6, size: 2, big_endian: true, base_type: 4 },
                FieldDef { field_num: 7, size: 2, big_endian: true, base_type: 4 },
                FieldDef { field_num: 13, size: 1, big_endian: true, base_type: 1 },
                FieldDef { field_num: 253, size: 4, big_endian: true, base_type: 6 },
            ],
        },
    )
}

fn build_record_def() -> (m: FitMessage)
    ensures
        m@ == record_def_model(),
{
    let mut fields: Vec<FieldDef> = Vec::new();
    fields.push(FieldDef::new(0, 4, false, 8));
    fields.push(FieldDef::new(1, 4, false, 8));
    fields.push(FieldDef::new(2, 2, true, 4));
    fields.push(FieldDef::new(3, 1, true, 2));
    fields.push(FieldDef::new(4, 1, true, 2));
    fields.push(FieldDef::new(5, 4, true, 6));
    fields.push(FieldDef::new(6, 2, true, 4));
    fields.push(FieldDef::new(7, 2, true, 4));
    fields.push(FieldDef::new(13, 1, true, 1));
    fields.push(FieldDef::new(253, 4, true, 6));
    proof {
        assert(fields@ =~= record_def_model()->Definition_0.fields);
    }
    FitMessage::Definition(DefinitionRecord { local_num: 5, kind: MessageKind::Record, fields })
}

/// The activity definition: local message number 4.
pub open spec fn activity_def_model() -> FitMessageModel {
    FitMessageModel::Definition(
        DefinitionModel {
            local_num: 4,
            kind: MessageKind::Activity,
            fields: seq![
                FieldDef { field_num: 253, size: 4, big_endian: true, base_type: 6 },
                FieldDef { field_num: 0, size: 4, big_endian: true, base_type: 6 },
                FieldDef { field_num: 5, size: 4, big_endian: true, base_type: 6 },
                FieldDef { field_num: 1, size: 2, big_endian: true, base_type: 4 },
                FieldDef { field_num: 2, size: 1, big_endian: false, base_type: 0 },
                FieldDef { field_num: 3, size: 1, big_endian: false, base_type: 0 },
                FieldDef { field_num: 4, size: 1, big_endian: false, base_type: 0 },
            ],
        },
    )
}

/// The activity data: total timer time, local timestamp at the
/// session end, and the fixed manual/activity/stop labels.
pub open spec fn activity_data_model(start: u32, end: u32) -> FitMessageModel {
    FitMessageModel::Data(
        DataModel {
            local_num: 4,
            kind: MessageKind::Activity,
            fields: seq![
                FieldRecordModel { field_num: 253, value: FitValueModel::Time(end) },
                FieldRecordModel {
                    field_num: 0,
                    value: FitValueModel::U32((end - start) as u32),
                },
                FieldRecordModel { field_num: 5, value: FitValueModel::Time(end) },
                FieldRecordModel { field_num: 1, value: FitValueModel::U16(0) },
                FieldRecordModel { field_num: 2, value: FitValueModel::Label("manual"@) },
                FieldRecordModel { field_num: 3, value: FitValueModel::Label("activity"@) },
                FieldRecordModel { field_num: 4, value: FitValueModel::Label("stop"@) },
            ],
        },
    )
}

fn build_activity_def() -> (m: FitMessage)
    ensures
        m@ == activity_def_model(),
{
    let mut fields: Vec<FieldDef> = Vec::new();
    fields.push(FieldDef::new(253, 4, true, 6));
    fields.push(FieldDef::new(0, 4, true, 6));
    fields.push(FieldDef::new(5, 4, true, 6));
    fields.push(FieldDef::new(1, 2, true, 4));
    fields.push(FieldDef::new(2, 1, false, 0));
    fields.push(FieldDef::new(3, 1, false, 0));
    fields.push(FieldDef::new(4, 1, false, 0));
    proof {
        assert(fields@ =~= activity_def_model()->Definition_0.fields);
    }
    FitMessage::Definition(DefinitionRecord { local_num: 4, kind: MessageKind::Activity, fields })
}

fn build_activity_data(start: u32, end: u32) -> (m: FitMessage)
    requires
        start <= end,
    ensures
        m@ == activity_data_model(start, end),
{
    let mut fields: Vec<FieldRecord> = Vec::new();
    fields.push(FieldRecord::new(253, FitValue::Time(end)));
    fields.push(FieldRecord::new(0, FitValue::U32(end - start)));
    fields.push(FieldRecord::new(5, FitValue::Time(end)));
    fields.push(FieldRecord::new(1, FitValue::U16(0)));
    fields.push(FieldRecord::new(2, FitValue::Label("manual".to_owned())));
    fields.push(FieldRecord::new(3, FitValue::Label("activity".to_owned())));
    fields.push(FieldRecord::new(4, FitValue::Label("stop".to_owned())));
    let m = FitMessage::Data(DataRecord { local_num: 4, kind: MessageKind::Activity, fields });
    proof {
        assert(m@->Data_0.fields =~= activity_data_model(start, end)->Data_0.fields);
    }
    m
}

/// The sport definition: local message number 10.
pub open spec fn sport_def_model() -> FitMessageModel {
    FitMessageModel::Definition(
        DefinitionModel {
            local_num: 10,
            kind: MessageKind::Sport,
            fields: seq![
                FieldDef { field_num: 3, size: 16, big_endian: false, base_type: 7 },
                FieldDef { field_num: 0, size: 1, big_endian: false, base_type: 0 },
                FieldDef { field_num: 1, size: 1, big_endian: false, base_type: 0 },
            ],
        },
    )
}

/// The sport data: the fixed display name padded to its declared
/// 16-byte width, and the cycling/road tags.
pub open spec fn sport_data_model() -> FitMessageModel {
    FitMessageModel::Data(
        DataModel {
            local_num: 10,
            kind: MessageKind::Sport,
            fields: seq![
                FieldRecordModel {
                    field_num: 3,
                    value: FitValueModel::Text("Road Cycling\0\0\0\0"@),
                },
                FieldRecordModel { field_num: 0, value: FitValueModel::Label("cycling"@) },
                FieldRecordModel { field_num: 1, value: FitValueModel::Label("road"@) },
            ],
        },
    )
}

fn build_sport_def() -> (m: FitMessage)
    ensures
        m@ == sport_def_model(),
{
    let mut fields: Vec<FieldDef> = Vec::new();
    fields.push(FieldDef::new(3, 16, false, 7));
    fields.push(FieldDef::new(0, 1, false, 0));
    fields.push(FieldDef::new(1, 1, false, 0));
    proof {
        assert(fields@ =~= sport_def_model()->Definition_0.fields);
    }
    FitMessage::Definition(DefinitionRecord { local_num: 10, kind: MessageKind::Sport, fields })
}

/// The session definition: local message number 3.
pub open spec fn session_def_model() -> FitMessageModel {
    FitMessageModel::Definition(
        DefinitionModel {
            local_num: 3,
            kind: MessageKind::Session,
            fields: seq![
                FieldDef { field_num: 253, size: 4, big_endian: true, base_type: 6 },
                FieldDef { field_num: 2, size: 4, big_endian: true, base_type: 6 },
                FieldDef { field_num: 7, size: 4, big_endian: true, base_type: 6 },
                FieldDef { field_num: 8, size: 4, big_endian: true, base_type: 6 },
                FieldDef { field_num: 9, size: 4, big_endian: true, base_type: 6 },
                FieldDef { field_num: 59, size: 4, big_endian: true, base_type: 6 },
                FieldDef { field_num: 254, size: 2, big_endian: true, base_type: 4 },
                FieldDef { field_num: 11, size: 2, big_endian: true, base_type: 4 },
                FieldDef { field_num: 14, size: 2, big_endian: true, base_type: 4 },
                FieldDef { field_num: 15, size: 2, big_endian: true, base_type: 4 },
                FieldDef { field_num: 20, size: 2, big_endian: true, base_type: 4 },
                FieldDef { field_num: 21, size: 2, big_endian: true, base_type: 4 },
                FieldDef { field_num: 22, size: 2, big_endian: true, base_type: 4 },
                FieldDef { field_num: 23, size: 2, big_endian: true, base_type: 4 },
                FieldDef { field_num: 25, size: 2, big_endian: true, base_type: 4 },
                FieldDef { field_num: 26, size: 2, big_endian: true, base_type: 4 },
                FieldDef { field_num: 34, size: 2, big_endian: true, base_type: 4 },
                FieldDef { field_num: 35, size: 2, big_endian: true, base_type: 4 },
                FieldDef { field_num: 36, size: 2, big_endian: true, base_type: 4 },
                FieldDef { field_num: 49, size: 2, big_endian: true, base_type: 4 },
                FieldDef { field_num: 50, size: 2, big_endian: true, base_type: 4 },
                FieldDef { field_num: 55, size: 2, big_endian: true, base_type: 3 },
                FieldDef { field_num: 56, size: 2, big_endian: true, base_type: 3 },
                FieldDef { field_num: 71, size: 2, big_endian: true, base_type: 4 },
                FieldDef { field_num: 0, size: 1, big_endian: true, base_type: 0 },
                FieldDef { field_num: 1, size: 1, big_endian: true, base_type: 0 },
                FieldDef { field_num: 5, size: 1, big_endian: true, base_type: 0 },
                FieldDef { field_num: 6, size: 1, big_endian: true, base_type: 0 },
                FieldDef { field_num: 16, size: 1, big_endian: true, base_type: 2 },
                FieldDef { field_num: 17, size: 1, big_endian: true, base_type: 2 },
                FieldDef { field_num: 18, size: 1, big_endian: true, base_type: 2 },
                FieldDef { field_num: 19, size: 1, big_endian: true, base_type: 2 },
                FieldDef { field_num: 57, size: 1, big_endian: true, base_type: 1 },
                FieldDef { field_num: 58, size: 1, big_endian: true, base_type: 1 },
                FieldDef { field_num: 64, size: 1, big_endian: true, base_type: 2 },
            ],
        },
    )
}

fn build_session_def() -> (m: FitMessage)
    ensures
        m@ == session_def_model(),
{
    let mut fields: Vec<FieldDef> = Vec::new();
    fields.push(FieldDef::new(253, 4, true, 6));
    fields.push(FieldDef::new(2, 4, true, 6));
    fields.push(FieldDef::new(7, 4, true, 6));
    fields.push(FieldDef::new(8, 4, true, 6));
    fields.push(FieldDef::new(9, 4, true, 6));
    fields.push(FieldDef::new(59, 4, true, 6));
    fields.push(FieldDef::new(254, 2, true, 4));
    fields.push(FieldDef::new(11, 2, true, 4));
    fields.push(FieldDef::new(14, 2, true, 4));
    fields.push(FieldDef::new(15, 2, true, 4));
    fields.push(FieldDef::new(20, 2, true, 4));
    fields.push(FieldDef::new(21, 2, true, 4));
    fields.push(FieldDef::new(22, 2, true, 4));
    fields.push(FieldDef::new(23, 2, true, 4));
    fields.push(FieldDef::new(25, 2, true, 4));
    fields.push(FieldDef::new(26, 2, true, 4));
    fields.push(FieldDef::new(34, 2, true, 4));
    fields.push(FieldDef::new(35, 2, true, 4));
    fields.push(FieldDef::new(36, 2, true, 4));
    fields.push(FieldDef::new(49, 2, true, 4));
    fields.push(FieldDef::new(50, 2, true, 4));
    fields.push(FieldDef::new(55, 2, true, 3));
    fields.push(FieldDef::new(56, 2, true, 3));
    fields.push(FieldDef::new(71, 2, true, 4));
    fields.push(FieldDef::new(0, 1, true, 0));
    fields.push(FieldDef::new(1, 1, true, 0));
    fields.push(FieldDef::new(5, 1, true, 0));
    fields.push(FieldDef::new(6, 1, true, 0));
    fields.push(FieldDef::new(16, 1, true, 2));
    fields.push(FieldDef::new(17, 1, true, 2));
    fields.push(FieldDef::new(18, 1, true, 2));
    fields.push(FieldDef::new(19, 1, true, 2));
    fields.push(FieldDef::new(57, 1, true, 1));
    fields.push(FieldDef::new(58, 1, true, 1));
    fields.push(FieldDef::new(64, 1, true, 2));
    proof {
        assert(fields@ =~= session_def_model()->Definition_0.fields);
    }
    FitMessage::Definition(DefinitionRecord { local_num: 3, kind: MessageKind::Session, fields })
}

/// The session data: every aggregate of the summary, scaled to its
/// protocol width, plus the altitude aggregates tracked while the
/// records were emitted.
pub open spec fn session_data_model(s: SessionSummary, min_alt: u16, avg_alt: u16)
    -> FitMessageModel {
    let start = start_s(s) as u32;
    let end = end_s(s) as u32;
    let elapsed_ms = ((end_s(s) - start_s(s)) * 1000) as u32;
    FitMessageModel::Data(
        DataModel {
            local_num: 3,
            kind: MessageKind::Session,
            fields: seq![
                FieldRecordModel { field_num: 253, value: FitValueModel::Time(end) },
                FieldRecordModel { field_num: 2, value: FitValueModel::Time(start) },
                FieldRecordModel { field_num: 7, value: FitValueModel::U32(elapsed_ms) },
                FieldRecordModel { field_num: 8, value: FitValueModel::U32(elapsed_ms) },
                FieldRecordModel {
                    field_num: 9,
                    value: FitValueModel::U32((s.distance * 100) as u32),
                },
                FieldRecordModel { field_num: 59, value: FitValueModel::U32(elapsed_ms) },
                FieldRecordModel { field_num: 254, value: FitValueModel::U16(1) },
                FieldRecordModel {
                    field_num: 11,
                    value: FitValueModel::U16((s.calories as int / 1000) as u16),
                },
                FieldRecordModel {
                    field_num: 14,
                    value: FitValueModel::U16(mmh_to_mms_spec(s.avg_speed_mmh as int) as u16),
                },
                FieldRecordModel {
                    field_num: 15,
                    value: FitValueModel::U16(mmh_to_mms_spec(s.max_speed_mmh as int) as u16),
                },
                FieldRecordModel { field_num: 20, value: FitValueModel::U16(s.power_avg) },
                FieldRecordModel { field_num: 21, value: FitValueModel::U16(s.power_max) },
                FieldRecordModel { field_num: 22, value: FitValueModel::U16(s.elevation_gain) },
                FieldRecordModel { field_num: 23, value: FitValueModel::U16(s.elevation_loss) },
                FieldRecordModel { field_num: 25, value: FitValueModel::U16(0) },
                FieldRecordModel { field_num: 26, value: FitValueModel::U16(1) },
                FieldRecordModel { field_num: 34, value: FitValueModel::U16(s.power_np) },
                FieldRecordModel { field_num: 35, value: FitValueModel::U16(s.power_tss) },
                FieldRecordModel { field_num: 36, value: FitValueModel::U16(s.power_if_milli) },
                FieldRecordModel { field_num: 49, value: FitValueModel::U16(avg_alt) },
                FieldRecordModel {
                    field_num: 50,
                    value: FitValueModel::U16((s.max_altitude * 5 + 500) as u16),
                },
                FieldRecordModel {
                    field_num: 55,
                    value: FitValueModel::I16((s.max_grade * 100) as i16),
                },
                FieldRecordModel {
                    field_num: 56,
                    value: FitValueModel::I16((s.min_grade * 100) as i16),
                },
                FieldRecordModel { field_num: 71, value: FitValueModel::U16(min_alt) },
                FieldRecordModel { field_num: 0, value: FitValueModel::Label("session"@) },
                FieldRecordModel { field_num: 1, value: FitValueModel::Label("stop"@) },
                FieldRecordModel { field_num: 5, value: FitValueModel::Label("cycling"@) },
                FieldRecordModel { field_num: 6, value: FitValueModel::Label("road"@) },
                FieldRecordModel { field_num: 16, value: FitValueModel::U8(s.avg_heartrate) },
                FieldRecordModel { field_num: 17, value: FitValueModel::U8(s.max_heartrate) },
                FieldRecordModel { field_num: 18, value: FitValueModel::U8(s.avg_cadence) },
                FieldRecordModel { field_num: 19, value: FitValueModel::U8(s.max_cadence) },
                FieldRecordModel { field_num: 57, value: FitValueModel::I8(25) },
                FieldRecordModel { field_num: 58, value: FitValueModel::I8(25) },
                FieldRecordModel { field_num: 64, value: FitValueModel::U8(s.avg_heartrate) },
            ],
        },
    )
}

fn build_session_data(s: &SessionSummary, min_alt: u16, avg_alt: u16) -> (m: FitMessage)
    requires
        summary_ok(*s),
    ensures
        m@ == session_data_model(*s, min_alt, avg_alt),
{
    let start: u32 = ms_to_s(s.start_time_ms);
    let end: u32 = ms_to_s(s.end_time_ms);
    let elapsed_ms: u32 = (end - start) * 1000;
    let mut fields: Vec<FieldRecord> = Vec::new();
    fields.push(FieldRecord::new(253, FitValue::Time(end)));
    fields.push(FieldRecord::new(2, FitValue::Time(start)));
    fields.push(FieldRecord::new(7, FitValue::U32(elapsed_ms)));
    fields.push(FieldRecord::new(8, FitValue::U32(elapsed_ms)));
    fields.push(FieldRecord::new(9, FitValue::U32(s.distance * 100)));
    fields.push(FieldRecord::new(59, FitValue::U32(elapsed_ms)));
    fields.push(FieldRecord::new(254, FitValue::U16(1)));
    fields.push(FieldRecord::new(11, FitValue::U16((s.calories / 1000) as u16)));
    fields.push(FieldRecord::new(14, FitValue::U16(mmh_to_mms(s.avg_speed_mmh) as u16)));
    fields.push(FieldRecord::new(15, FitValue::U16(mmh_to_mms(s.max_speed_mmh) as u16)));
    fields.push(FieldRecord::new(20, FitValue::U16(s.power_avg)));
    fields.push(FieldRecord::new(21, FitValue::U16(s.power_max)));
    fields.push(FieldRecord::new(22, FitValue::U16(s.elevation_gain)));
    fields.push(FieldRecord::new(23, FitValue::U16(s.elevation_loss)));
    fields.push(FieldRecord::new(25, FitValue::U16(0)));
    fields.push(FieldRecord::new(26, FitValue::U16(1)));
    fields.push(FieldRecord::new(34, FitValue::U16(s.power_np)));
    fields.push(FieldRecord::new(35, FitValue::U16(s.power_tss)));
    fields.push(FieldRecord::new(36, FitValue::U16(s.power_if_milli)));
    fields.push(FieldRecord::new(49, FitValue::U16(avg_alt)));
    fields.push(FieldRecord::new(50, FitValue::U16(s.max_altitude * 5 + 500)));
    fields.push(FieldRecord::new(55, FitValue::I16(s.max_grade * 100)));
    fields.push(FieldRecord::new(56, FitValue::I16(s.min_grade * 100)));
    fields.push(FieldRecord::new(71, FitValue::U16(min_alt)));
    fields.push(FieldRecord::new(0, FitValue::Label("session".to_owned())));
    fields.push(FieldRecord::new(1, FitValue::Label("stop".to_owned())));
    fields.push(FieldRecord::new(5, FitValue::Label("cycling".to_owned())));
    fields.push(FieldRecord::new(6, FitValue::Label("road".to_owned())));
    fields.push(FieldRecord::new(16, FitValue::U8(s.avg_heartrate)));
    fields.push(FieldRecord::new(17, FitValue::U8(s.max_heartrate)));
    fields.push(FieldRecord::new(18, FitValue::U8(s.avg_cadence)));
    fields.push(FieldRecord::new(19, FitValue::U8(s.max_cadence)));
    fields.push(FieldRecord::new(57, FitValue::I8(25)));
    fields.push(FieldRecord::new(58, FitValue::I8(25)));
    fields.push(FieldRecord::new(64, FitValue::U8(s.avg_heartrate)));
    let m = FitMessage::Data(DataRecord { local_num: 3, kind: MessageKind::Session, fields });
    proof {
        assert(m@->Data_0.fields =~= session_data_model(*s, min_alt, avg_alt)->Data_0.fields);
    }
    m
}

fn build_sport_data() -> (m: FitMessage)
    ensures
        m@ == sport_data_model(),
{
    let mut fields: Vec<FieldRecord> = Vec::new();
    fields.push(FieldRecord::new(3, FitValue::Text("Road Cycling\0\0\0\0".to_owned())));
    fields.push(FieldRecord::new(0, FitValue::Label("cycling".to_owned())));
    fields.push(FieldRecord::new(1, FitValue::Label("road".to_owned())));
    let m = FitMessage::Data(DataRecord { local_num: 10, kind: MessageKind::Sport, fields });
    proof {
        assert(m@->Data_0.fields =~= sport_data_model()->Data_0.fields);
    }
    m
}

/// The raw altitude field of one sample.
pub open spec fn alt_raw_of(s: TelemetrySample) -> int {
    encode_altitude_spec(s.altitude_fifths as int)
}

/// The raw speed field of one sample, mm/s clamped to 16 bits.
pub open spec fn speed_raw_of(s: TelemetrySample) -> int {
    clamp_u16_spec(s.speed_mms as int)
}

/// The cumulative distance after the first `n` samples: each sample
/// adds its raw speed times 100, saturating at the field width — the
/// source format's fixed-tick approximation, not true integration.
pub open spec fn dist_after(samples: Seq<TelemetrySample>, n: int) -> int
    decreases n,
{
    if n <= 0 {
        0
    } else {
        sat_add_u32(dist_after(samples, n - 1), speed_raw_of(samples[n - 1]) * 100)
    }
}

/// The sum of the raw altitudes of the first `n` samples.
pub open spec fn alt_sum_after(samples: Seq<TelemetrySample>, n: int) -> int
    decreases n,
{
    if n <= 0 {
        0
    } else {
        alt_sum_after(samples, n - 1) + alt_raw_of(samples[n - 1])
    }
}

/// The minimum raw altitude of the first `n` samples, starting from
/// the field's maximum when no sample was seen.
pub open spec fn min_alt_after(samples: Seq<TelemetrySample>, n: int) -> int
    decreases n,
{
    if n <= 0 {
        0xFFFF
    } else {
        let p = min_alt_after(samples, n - 1);
        let a = alt_raw_of(samples[n - 1]);
        if a < p {
            a
        } else {
            p
        }
    }
}

/// One record data message: the position's float bits, the scaled
/// altitude, speed, the clamped rates, the running distance, raw
/// power, the fixed temperature, and the sample's timestamp.
pub open spec fn record_data_model(s: TelemetrySample, p: Position, dist: u32)
    -> FitMessageModel {
    FitMessageModel::Data(
        DataModel {
            local_num: 5,
            kind: MessageKind::Record,
            fields: seq![
                FieldRecordModel { field_num: 0, value: FitValueModel::F32Bits(p.lat_bits) },
                FieldRecordModel { field_num: 1, value: FitValueModel::F32Bits(p.lon_bits) },
                FieldRecordModel { field_num: 2, value: FitValueModel::U16(alt_raw_of(s) as u16) },
                FieldRecordModel {
                    field_num: 3,
                    value: FitValueModel::U8(clamp_u8_spec(s.heartrate as int) as u8),
                },
                FieldRecordModel {
                    field_num: 4,
                    value: FitValueModel::U8(clamp_u8_spec(s.cadence as int) as u8),
                },
                FieldRecordModel { field_num: 5, value: FitValueModel::U32(dist) },
                FieldRecordModel {
                    field_num: 6,
                    value: FitValueModel::U16(speed_raw_of(s) as u16),
                },
                FieldRecordModel { field_num: 7, value: FitValueModel::U16(s.power) },
                FieldRecordModel { field_num: 13, value: FitValueModel::I8(25) },
                FieldRecordModel {
                    field_num: 253,
                    value: FitValueModel::Time(ms_to_s_spec(s.time_ms) as u32),
                },
            ],
        },
    )
}

fn build_record_data(s: &TelemetrySample, p: &Position, dist: u32) -> (m: FitMessage)
    ensures
        m@ == record_data_model(*s, *p, dist),
{
    let alt_raw: u16 = encode_altitude(s.altitude_fifths);
    let speed_raw: u16 = clamp_speed_u16(s.speed_mms);
    let heart: u8 = clamp_rate_u8(s.heartrate);
    let cad: u8 = clamp_rate_u8(s.cadence);
    let ts: u32 = ms_to_s(s.time_ms);
    let mut fields: Vec<FieldRecord> = Vec::new();
    fields.push(FieldRecord::new(0, FitValue::F32Bits(p.lat_bits)));
    fields.push(FieldRecord::new(1, FitValue::F32Bits(p.lon_bits)));
    fields.push(FieldRecord::new(2, FitValue::U16(alt_raw)));
    fields.push(FieldRecord::new(3, FitValue::U8(heart)));
    fields.push(FieldRecord::new(4, FitValue::U8(cad)));
    fields.push(FieldRecord::new(5, FitValue::U32(dist)));
    fields.push(FieldRecord::new(6, FitValue::U16(speed_raw)));
    fields.push(FieldRecord::new(7, FitValue::U16(s.power)));
    fields.push(FieldRecord::new(13, FitValue::I8(25)));
    fields.push(FieldRecord::new(253, FitValue::Time(ts)));
    let m = FitMessage::Data(DataRecord { local_num: 5, kind: MessageKind::Record, fields });
    proof {
        assert(m@->Data_0.fields =~= record_data_model(*s, *p, dist)->Data_0.fields);
    }
    m
}

/// The first `n` record data messages, in sample order, each carrying
/// the distance accumulated through its own sample.
pub open spec fn record_msgs(
    samples: Seq<TelemetrySample>,
    ps: Seq<Position>,
    n: int,
) -> Seq<FitMessageModel>
    decreases n,
{
    if n <= 0 {
        Seq::empty()
    } else {
        record_msgs(samples, ps, n - 1).push(
            record_data_model(samples[n - 1], ps[n - 1], dist_after(samples, n) as u32),
        )
    }
}

/// The nine messages that precede the records: file id, file creator,
/// device info, the start event, and the record definition.
pub open spec fn prelude_msgs(s: SessionSummary) -> Seq<FitMessageModel> {
    let start = start_s(s) as u32;
    seq![
        file_id_def_model(),
        file_id_data_model(start),
        file_creator_def_model(),
        file_creator_data_model(),
        device_info_def_model(),
        device_info_data_model(start),
        event_def_model(),
        event_data_model(start, "timer"@, "start"@),
        record_def_model(),
    ]
}

/// The nine messages that follow the records: the three closing
/// events at the session end reusing the event definition, then
/// session, activity and sport, each definition directly before its
/// data.
pub open spec fn closing_msgs(s: SessionSummary, samples: Seq<TelemetrySample>)
    -> Seq<FitMessageModel> {
    let start = start_s(s) as u32;
    let end = end_s(s) as u32;
    let n = samples.len() as int;
    let min_alt = min_alt_after(samples, n) as u16;
    let avg_alt = (alt_sum_after(samples, n) / n) as u16;
    seq![
        event_data_model(end, "timer"@, "stop"@),
        event_data_model(end, "timer"@, "stop_all"@),
        event_data_model(end, "session"@, "stop_disable_all"@),
        session_def_model(),
        session_data_model(s, min_alt, avg_alt),
        activity_def_model(),
        activity_data_model(start, end),
        sport_def_model(),
        sport_data_model(),
    ]
}

/// The whole activity message sequence of one session: the fixed
/// prelude, one record per sample in order, and the closing messages.
pub open spec fn activity_messages_spec(
    s: SessionSummary,
    samples: Seq<TelemetrySample>,
    ps: Seq<Position>,
) -> Seq<FitMessageModel> {
    prelude_msgs(s) + record_msgs(samples, ps, samples.len() as int) + closing_msgs(s, samples)
}

proof fn lemma_file_id_matches(start: u32)
    ensures
        data_matches_def(file_id_data_model(start)->Data_0, file_id_def_model()->Definition_0),
{
    let dm = file_id_data_model(start)->Data_0;
    let df = file_id_def_model()->Definition_0;
    assert(manufacturer_bytes_spec().len() == 32);
    assert forall|i: int| 0 <= i < dm.fields.len() implies {
        &&& (#[trigger] dm.fields[i]).field_num == df.fields[i].field_num
        &&& value_fits(dm.fields[i].value, df.fields[i])
    } by {
        if i == 0 {
        } else if i == 1 {
        } else if i == 2 {
        } else if i == 3 {
        } else {
        }
    }
}

proof fn lemma_creator_matches()
    ensures
        data_matches_def(
            file_creator_data_model()->Data_0,
            file_creator_def_model()->Definition_0,
        ),
{
    let dm = file_creator_data_model()->Data_0;
    let df = file_creator_def_model()->Definition_0;
    assert forall|i: int| 0 <= i < dm.fields.len() implies {
        &&& (#[trigger] dm.fields[i]).field_num == df.fields[i].field_num
        &&& value_fits(dm.fields[i].value, df.fields[i])
    } by {
        if i == 0 {
        } else {
        }
    }
}

proof fn lemma_device_matches(start: u32)
    ensures
        data_matches_def(
            device_info_data_model(start)->Data_0,
            device_info_def_model()->Definition_0,
        ),
{
    let dm = device_info_data_model(start)->Data_0;
    let df = device_info_def_model()->Definition_0;
    assert(manufacturer_bytes_spec().len() == 32);
    assert forall|i: int| 0 <= i < dm.fields.len() implies {
        &&& (#[trigger] dm.fields[i]).field_num == df.fields[i].field_num
        &&& value_fits(dm.fields[i].value, df.fields[i])
    } by {
        if i == 0 {
        } else if i == 1 {
        } else if i == 2 {
        } else if i == 3 {
        } else if i == 4 {
        } else if i == 5 {
        } else if i == 6 {
        } else {
        }
    }
}

proof fn lemma_event_matches(t: u32, l0: Seq<char>, l1: Seq<char>)
    ensures
        data_matches_def(event_data_model(t, l0, l1)->Data_0, event_def_model()->Definition_0),
{
    let dm = event_data_model(t, l0, l1)->Data_0;
    let df = event_def_model()->Definition_0;
    assert forall|i: int| 0 <= i < dm.fields.len() implies {
        &&& (#[trigger] dm.fields[i]).field_num == df.fields[i].field_num
        &&& value_fits(dm.fields[i].value, df.fields[i])
    } by {
        if i == 0 {
        } else if i == 1 {
        } else {
        }
    }
}

proof fn lemma_record_matches(s: TelemetrySample, p: Position, dist: u32)
    ensures
        data_matches_def(record_data_model(s, p, dist)->Data_0, record_def_model()->Definition_0),
{
    let dm = record_data_model(s, p, dist)->Data_0;
    let df = record_def_model()->Definition_0;
    assert forall|i: int| 0 <= i < dm.fields.len() implies {
        &&& (#[trigger] dm.fields[i]).field_num == df.fields[i].field_num
        &&& value_fits(dm.fields[i].value, df.fields[i])
    } by {
        if i == 0 {
        } else if i == 1 {
        } else if i == 2 {
        } else if i == 3 {
        } else if i == 4 {
        } else if i == 5 {
        } else if i == 6 {
        } else if i == 7 {
        } else if i == 8 {
        } else {
        }
    }
}

#[verifier::rlimit(50)]
proof fn lemma_session_matches(s: SessionSummary, min_alt: u16, avg_alt: u16)
    ensures
        data_matches_def(
            session_data_model(s, min_alt, avg_alt)->Data_0,
            session_def_model()->Definition_0,
        ),
{
    let dm = session_data_model(s, min_alt, avg_alt)->Data_0;
    let df = session_def_model()->Definition_0;
    assert forall|i: int| 0 <= i < dm.fields.len() implies {
        &&& (#[trigger] dm.fields[i]).field_num == df.fields[i].field_num
        &&& value_fits(dm.fields[i].value, df.fields[i])
    } by {
        if i < 6 {
            if i == 0 {
            } else if i == 1 {
            } else if i == 2 {
            } else if i == 3 {
            } else if i == 4 {
            } else {
            }
        } else if i < 12 {
            if i == 6 {
            } else if i == 7 {
            } else if i == 8 {
            } else if i == 9 {
            } else if i == 10 {
            } else {
            }
        } else if i < 18 {
            if i == 12 {
            } else if i == 13 {
            } else if i == 14 {
            } else if i == 15 {
            } else if i == 16 {
            } else {
            }
        } else if i < 24 {
            if i == 18 {
            } else if i == 19 {
            } else if i == 20 {
            } else if i == 21 {
            } else if i == 22 {
            } else {
            }
        } else if i < 30 {
            if i == 24 {
            } else if i == 25 {
            } else if i == 26 {
            } else if i == 27 {
            } else if i == 28 {
            } else {
            }
        } else {
            if i == 30 {
            } else if i == 31 {
            } else if i == 32 {
            } else if i == 33 {
            } else {
            }
        }
    }
}

proof fn lemma_activity_matches(start: u32, end: u32)
    ensures
        data_matches_def(
            activity_data_model(start, end)->Data_0,
            activity_def_model()->Definition_0,
        ),
{
    let dm = activity_data_model(start, end)->Data_0;
    let df = activity_def_model()->Definition_0;
    assert forall|i: int| 0 <= i < dm.fields.len() implies {
        &&& (#[trigger] dm.fields[i]).field_num == df.fields[i].field_num
        &&& value_fits(dm.fields[i].value, df.fields[i])
    } by {
        if i == 0 {
        } else if i == 1 {
        } else if i == 2 {
        } else if i == 3 {
        } else if i == 4 {
        } else if i == 5 {
        } else {
        }
    }
}

proof fn lemma_sport_matches()
    ensures
        data_matches_def(sport_data_model()->Data_0, sport_def_model()->Definition_0),
{
    let dm = sport_data_model()->Data_0;
    let df = sport_def_model()->Definition_0;
    reveal_strlit("Road Cycling\0\0\0\0");
    assert("Road Cycling\0\0\0\0"@.len() == 16);
    assert forall|i: int| 0 <= i < dm.fields.len() implies {
        &&& (#[trigger] dm.fields[i]).field_num == df.fields[i].field_num
        &&& value_fits(dm.fields[i].value, df.fields[i])
    } by {
        if i == 0 {
        } else if i == 1 {
        } else {
        }
    }
}

#[verifier::rlimit(50)]
proof fn lemma_prelude_wf(s: SessionSummary)
    ensures
        seq_well_formed(prelude_msgs(s)),
        latest_def(prelude_msgs(s), 0) == Some(event_def_model()->Definition_0),
        latest_def(prelude_msgs(s), 5) == Some(record_def_model()->Definition_0),
{
    let start = start_s(s) as u32;
    let s0 = Seq::<FitMessageModel>::empty();
    assert(seq_well_formed(s0));
    let fid_def = file_id_def_model()->Definition_0;
    let fid_data = file_id_data_model(start)->Data_0;
    let cre_def = file_creator_def_model()->Definition_0;
    let cre_data = file_creator_data_model()->Data_0;
    let dev_def = device_info_def_model()->Definition_0;
    let dev_data = device_info_data_model(start)->Data_0;
    let ev_def = event_def_model()->Definition_0;
    let ev_data = event_data_model(start, "timer"@, "start"@)->Data_0;
    let rec_def = record_def_model()->Definition_0;

    let s1 = s0.push(FitMessageModel::Definition(fid_def));
    lemma_wf_push_def(s0, fid_def);
    lemma_latest_def_push_def(s0, fid_def);
    lemma_file_id_matches(start);
    let s2 = s1.push(FitMessageModel::Data(fid_data));
    lemma_wf_push_data(s1, fid_data);
    lemma_latest_def_push_data(s1, fid_data);

    let s3 = s2.push(FitMessageModel::Definition(cre_def));
    lemma_wf_push_def(s2, cre_def);
    lemma_latest_def_push_def(s2, cre_def);
    lemma_creator_matches();
    let s4 = s3.push(FitMessageModel::Data(cre_data));
    lemma_wf_push_data(s3, cre_data);
    lemma_latest_def_push_data(s3, cre_data);

    let s5 = s4.push(FitMessageModel::Definition(dev_def));
    lemma_wf_push_def(s4, dev_def);
    lemma_latest_def_push_def(s4, dev_def);
    lemma_device_matches(start);
    let s6 = s5.push(FitMessageModel::Data(dev_data));
    lemma_wf_push_data(s5, dev_data);
    lemma_latest_def_push_data(s5, dev_data);

    let s7 = s6.push(FitMessageModel::Definition(ev_def));
    lemma_wf_push_def(s6, ev_def);
    lemma_latest_def_push_def(s6, ev_def);
    lemma_event_matches(start, "timer"@, "start"@);
    let s8 = s7.push(FitMessageModel::Data(ev_data));
    lemma_wf_push_data(s7, ev_data);
    lemma_latest_def_push_data(s7, ev_data);

    let s9 = s8.push(FitMessageModel::Definition(rec_def));
    lemma_wf_push_def(s8, rec_def);
    lemma_latest_def_push_def(s8, rec_def);

    assert(s9 =~= prelude_msgs(s));
}

#[verifier::rlimit(50)]
proof fn lemma_records_extend_wf(
    s: SessionSummary,
    samples: Seq<TelemetrySample>,
    ps: Seq<Position>,
    n: int,
)
    requires
        0 <= n,
    ensures
        seq_well_formed(prelude_msgs(s) + record_msgs(samples, ps, n)),
        forall|l: u8|
            latest_def(prelude_msgs(s) + record_msgs(samples, ps, n), l) == latest_def(
                prelude_msgs(s),
                l,
            ),
    decreases n,
{
    lemma_prelude_wf(s);
    if n == 0 {
        assert(prelude_msgs(s) + record_msgs(samples, ps, 0) =~= prelude_msgs(s));
    } else {
        lemma_records_extend_wf(s, samples, ps, n - 1);
        let pre = prelude_msgs(s) + record_msgs(samples, ps, n - 1);
        let rdm = record_data_model(samples[n - 1], ps[n - 1], dist_after(samples, n) as u32)
            ->Data_0;
        assert(prelude_msgs(s) + record_msgs(samples, ps, n) =~= pre.push(
            FitMessageModel::Data(rdm),
        ));
        lemma_record_matches(samples[n - 1], ps[n - 1], dist_after(samples, n) as u32);
        lemma_wf_push_data(pre, rdm);
        lemma_latest_def_push_data(pre, rdm);
    }
}

#[verifier::rlimit(100)]
proof fn lemma_closing_wf(
    pre: Seq<FitMessageModel>,
    s: SessionSummary,
    samples: Seq<TelemetrySample>,
)
    requires
        seq_well_formed(pre),
        latest_def(pre, 0) == Some(event_def_model()->Definition_0),
    ensures
        seq_well_formed(pre + closing_msgs(s, samples)),
{
    let n = samples.len() as int;
    let start = start_s(s) as u32;
    let end = end_s(s) as u32;
    let min_alt = min_alt_after(samples, n) as u16;
    let avg_alt = (alt_sum_after(samples, n) / n) as u16;
    let ev_def = event_def_model()->Definition_0;
    let e1 = event_data_model(end, "timer"@, "stop"@)->Data_0;
    let e2 = event_data_model(end, "timer"@, "stop_all"@)->Data_0;
    let e3 = event_data_model(end, "session"@, "stop_disable_all"@)->Data_0;
    let ses_def = session_def_model()->Definition_0;
    let ses_data = session_data_model(s, min_alt, avg_alt)->Data_0;
    let act_def = activity_def_model()->Definition_0;
    let act_data = activity_data_model(start, end)->Data_0;
    let sp_def = sport_def_model()->Definition_0;
    let sp_data = sport_data_model()->Data_0;

    lemma_event_matches(end, "timer"@, "stop"@);
    let c1 = pre.push(FitMessageModel::Data(e1));
    lemma_wf_push_data(pre, e1);
    lemma_latest_def_push_data(pre, e1);

    lemma_event_matches(end, "timer"@, "stop_all"@);
    let c2 = c1.push(FitMessageModel::Data(e2));
    lemma_wf_push_data(c1, e2);
    lemma_latest_def_push_data(c1, e2);

    lemma_event_matches(end, "session"@, "stop_disable_all"@);
    let c3 = c2.push(FitMessageModel::Data(e3));
    lemma_wf_push_data(c2, e3);
    lemma_latest_def_push_data(c2, e3);

    let c4 = c3.push(FitMessageModel::Definition(ses_def));
    lemma_wf_push_def(c3, ses_def);
    lemma_latest_def_push_def(c3, ses_def);

    lemma_session_matches(s, min_alt, avg_alt);
    let c5 = c4.push(FitMessageModel::Data(ses_data));
    lemma_wf_push_data(c4, ses_data);
    lemma_latest_def_push_data(c4, ses_data);

    let c6 = c5.push(FitMessageModel::Definition(act_def));
    lemma_wf_push_def(c5, act_def);
    lemma_latest_def_push_def(c5, act_def);

    lemma_activity_matches(start, end);
    let c7 = c6.push(FitMessageModel::Data(act_data));
    lemma_wf_push_data(c6, act_data);
    lemma_latest_def_push_data(c6, act_data);

    let c8 = c7.push(FitMessageModel::Definition(sp_def));
    lemma_wf_push_def(c7, sp_def);
    lemma_latest_def_push_def(c7, sp_def);

    lemma_sport_matches();
    let c9 = c8.push(FitMessageModel::Data(sp_data));
    lemma_wf_push_data(c8, sp_data);

    assert(c9 =~= pre + closing_msgs(s, samples));
}

/// Every data message of the activity sequence matches, field for
/// field in count, number, width and value type, the most recently
/// emitted definition sharing its local message number.
pub proof fn lemma_activity_messages_well_formed(
    s: SessionSummary,
    samples: Seq<TelemetrySample>,
    ps: Seq<Position>,
)
    ensures
        seq_well_formed(activity_messages_spec(s, samples, ps)),
{
    let n = samples.len() as int;
    lemma_records_extend_wf(s, samples, ps, n);
    lemma_prelude_wf(s);
    let pre = prelude_msgs(s) + record_msgs(samples, ps, n);
    lemma_closing_wf(pre, s, samples);
}

/// Compile a session summary and its telemetry into the activity
/// message sequence.  The sample and position sequences must align
/// index for index; a length mismatch fails before any message is
/// built, and on success the output is exactly the specified
/// sequence.
pub fn build_activity_messages(
    summary: &SessionSummary,
    samples: &Vec<TelemetrySample>,
    positions: &Vec<Position>,
) -> (r: Result<Vec<FitMessage>, TranscodeError>)
    requires
        summary_ok(*summary),
        1 <= samples@.len() <= 0x1_0000_0000,
    ensures
        match r {
            Ok(v) => {
                &&& samples@.len() == positions@.len()
                &&& v@.map_values(|m: FitMessage| m@) == activity_messages_spec(
                    *summary,
                    samples@,
                    positions@,
                )
            },
            Err(e) => {
                &&& e == TranscodeError::Alignment
                &&& samples@.len() != positions@.len()
            },
        },
{
    if samples.len() != positions.len() {
        return Err(TranscodeError::Alignment);
    }
    let ghost sseq = samples@;
    let ghost pseq = positions@;
    let start: u32 = ms_to_s(summary.start_time_ms);
    let end: u32 = ms_to_s(summary.end_time_ms);
    let mut out: Vec<FitMessage> = Vec::new();
    out.push(build_file_id_def());
    out.push(build_file_id_data(start));
    out.push(build_file_creator_def());
    out.push(build_file_creator_data());
    out.push(build_device_info_def());
    out.push(build_device_info_data(start));
    out.push(build_event_def());
    out.push(build_event_data(start, "timer".to_owned(), "start".to_owned()));
    out.push(build_record_def());
    proof {
        assert(out@.map_values(|m: FitMessage| m@) =~= prelude_msgs(*summary));
        assert(record_msgs(sseq, pseq, 0) =~= Seq::<FitMessageModel>::empty());
        assert(prelude_msgs(*summary) + record_msgs(sseq, pseq, 0) =~= prelude_msgs(*summary));
    }
    let mut dist: u32 = 0;
    let mut min_alt: u16 = 0xFFFF;
    let mut alt_sum: u64 = 0;
    let mut i: usize = 0;
    while i < samples.len()
        invariant
            0 <= i <= samples.len(),
            sseq == samples@,
            pseq == positions@,
            sseq.len() == pseq.len(),
            sseq.len() <= 0x1_0000_0000,
            out@.map_values(|m: FitMessage| m@) == prelude_msgs(*summary) + record_msgs(
                sseq,
                pseq,
                i as int,
            ),
            dist == dist_after(sseq, i as int),
            min_alt == min_alt_after(sseq, i as int),
            alt_sum == alt_sum_after(sseq, i as int),
            alt_sum <= i * 0xFFFF,
        decreases samples.len() - i,
    {
        let s = samples[i];
        let p = positions[i];
        let alt_raw: u16 = encode_altitude(s.altitude_fifths);
        let speed_raw: u16 = clamp_speed_u16(s.speed_mms);
        alt_sum = alt_sum + alt_raw as u64;
        if alt_raw < min_alt {
            min_alt = alt_raw;
        }
        dist = dist.saturating_add(speed_raw as u32 * 100);
        let msg = build_record_data(&s, &p, dist);
        out.push(msg);
        proof {
            let prev = record_msgs(sseq, pseq, i as int);
            assert(dist == dist_after(sseq, i + 1));
            assert(msg@ == record_data_model(
                sseq[i as int],
                pseq[i as int],
                dist_after(sseq, i + 1) as u32,
            ));
            assert(record_msgs(sseq, pseq, i + 1) =~= prev.push(msg@));
            assert(out@.map_values(|m: FitMessage| m@) =~= (prelude_msgs(*summary) + prev).push(
                msg@,
            ));
            assert((prelude_msgs(*summary) + prev).push(msg@) =~= prelude_msgs(*summary)
                + prev.push(msg@));
        }
        i = i + 1;
    }
    let n: u64 = samples.len() as u64;
    proof {
        assert(alt_sum / n <= 0xFFFF) by (nonlinear_arith)
            requires
                alt_sum <= sseq.len() * 0xFFFF,
                n == sseq.len(),
                n >= 1,
        {
        }
    }
    let avg_alt: u16 = (alt_sum / n) as u16;
    out.push(build_event_data(end, "timer".to_owned(), "stop".to_owned()));
    out.push(build_event_data(end, "timer".to_owned(), "stop_all".to_owned()));
    out.push(build_event_data(end, "session".to_owned(), "stop_disable_all".to_owned()));
    out.push(build_session_def());
    out.push(build_session_data(summary, min_alt, avg_alt));
    out.push(build_activity_def());
    out.push(build_activity_data(start, end));
    out.push(build_sport_def());
    out.push(build_sport_data());
    proof {
        assert(out@.map_values(|m: FitMessage| m@) =~= activity_messages_spec(
            *summary,
            sseq,
            pseq,
        ));
    }
    Ok(out)
}

} // verus!
