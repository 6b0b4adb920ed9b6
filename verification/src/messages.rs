//! The tagged field record, the atomic unit of the binary telemetry
//! protocol, and the definition/data message model built from it.
//!
//! A *definition* message declares, per field number, the byte width,
//! endianness flag and base-type tag of every field that a following
//! *data* message with the same local message number carries.  The spec
//! functions here say what it means for a data message to match its
//! definition, and for a whole message sequence to be well formed.

use vstd::prelude::*;

verus! {

/// A typed value carried by one field record.  The closed set of
/// variants mirrors the base types of the binary protocol; a 32-bit
/// float is carried opaquely as its bit pattern.
#[derive(Debug, PartialEq)]
pub enum FitValue {
    U8(u8),
    I8(i8),
    U16(u16),
    I16(i16),
    U32(u32),
    /// Absolute timestamp, seconds since the protocol's fixed epoch.
    Time(u32),
    /// Bit pattern of a 32-bit float, carried through unread.
    F32Bits(u32),
    /// Enumerated label, written as a single byte by the binary codec.
    Label(String),
    /// UTF-8 text of a fixed byte width.
    Text(String),
    /// Raw byte array.
    Bytes(Vec<u8>),
}

/// Mathematical model of a `FitValue`: strings become character
/// sequences, byte arrays become byte sequences.
pub ghost enum FitValueModel {
    U8(u8),
    I8(i8),
    U16(u16),
    I16(i16),
    U32(u32),
    Time(u32),
    F32Bits(u32),
    Label(Seq<char>),
    Text(Seq<char>),
    Bytes(Seq<u8>),
}

impl View for FitValue {
    type V = FitValueModel;

    open spec fn view(&self) -> FitValueModel {
        match self {
            FitValue::U8(x) => FitValueModel::U8(*x),
            FitValue::I8(x) => FitValueModel::I8(*x),
            FitValue::U16(x) => FitValueModel::U16(*x),
            FitValue::I16(x) => FitValueModel::I16(*x),
            FitValue::U32(x) => FitValueModel::U32(*x),
            FitValue::Time(x) => FitValueModel::Time(*x),
            FitValue::F32Bits(x) => FitValueModel::F32Bits(*x),
            FitValue::Label(s) => FitValueModel::Label(s@),
            FitValue::Text(s) => FitValueModel::Text(s@),
            FitValue::Bytes(b) => FitValueModel::Bytes(b@),
        }
    }
}

/// One tagged field record: a field number paired with a typed value.
/// Identity is positional within a message, not globally unique.
#[derive(Debug, PartialEq)]
pub struct FieldRecord {
    pub field_num: u8,
    pub value: FitValue,
}

pub ghost struct FieldRecordModel {
    pub field_num: u8,
    pub value: FitValueModel,
}

impl View for FieldRecord {
    type V = FieldRecordModel;

    open spec fn view(&self) -> FieldRecordModel {
        FieldRecordModel { field_num: self.field_num, value: self.value@ }
    }
}

impl FieldRecord {
    pub fn new(field_num: u8, value: FitValue) -> (r: FieldRecord)
        ensures
            r.field_num == field_num,
            r.value == value,
    {
        FieldRecord { field_num, value }
    }
}

/// One row of a definition message: field number, byte width,
/// endianness flag (true = big endian) and base-type tag.
#[derive(Clone, Copy, Debug, PartialEq, Eq, Structural)]
pub struct FieldDef {
    pub field_num: u8,
    pub size: u8,
    pub big_endian: bool,
    pub base_type: u8,
}

impl FieldDef {
    pub fn new(field_num: u8, size: u8, big_endian: bool, base_type: u8) -> (r: FieldDef)
        ensures
            r == (FieldDef { field_num, size, big_endian, base_type }),
    {
        FieldDef { field_num, size, big_endian, base_type }
    }
}

/// The message types that the transcoder reads or writes.  Anything
/// else that an upstream decoder yields is carried as `Other` and
/// ignored by the builders.
#[derive(Clone, Copy, Debug, PartialEq, Eq, Structural)]
pub enum MessageKind {
    FileId,
    FileCreator,
    DeviceInfo,
    Event,
    Record,
    Session,
    Activity,
    Sport,
    Workout,
    WorkoutStep,
    Other,
}

/// A definition message: declares the field layout for data messages
/// that share its local message number, until redefined.
pub struct DefinitionRecord {
    pub local_num: u8,
    pub kind: MessageKind,
    pub fields: Vec<FieldDef>,
}

pub ghost struct DefinitionModel {
    pub local_num: u8,
    pub kind: MessageKind,
    pub fields: Seq<FieldDef>,
}

impl View for DefinitionRecord {
    type V = DefinitionModel;

    open spec fn view(&self) -> DefinitionModel {
        DefinitionModel { local_num: self.local_num, kind: self.kind, fields: self.fields@ }
    }
}

/// A data message: an ordered field-record list under a local message
/// number, interpreted against the most recent matching definition.
pub struct DataRecord {
    pub local_num: u8,
    pub kind: MessageKind,
    pub fields: Vec<FieldRecord>,
}

pub ghost struct DataModel {
    pub local_num: u8,
    pub kind: MessageKind,
    pub fields: Seq<FieldRecordModel>,
}

impl View for DataRecord {
    type V = DataModel;

    open spec fn view(&self) -> DataModel {
        DataModel {
            local_num: self.local_num,
            kind: self.kind,
            fields: self.fields@.map_values(|f: FieldRecord| f@),
        }
    }
}

/// One protocol message, either a definition or a data message.
pub enum FitMessage {
    Definition(DefinitionRecord),
    Data(DataRecord),
}

pub ghost enum FitMessageModel {
    Definition(DefinitionModel),
    Data(DataModel),
}

impl View for FitMessage {
    type V = FitMessageModel;

    open spec fn view(&self) -> FitMessageModel {
        match self {
            FitMessage::Definition(d) => FitMessageModel::Definition(d@),
            FitMessage::Data(d) => FitMessageModel::Data(d@),
        }
    }
}

/// Does one typed value fit one definition row?  Width and base-type
/// tag must agree with the value's variant; variable-width text and
/// byte arrays must fill their declared width exactly.  An enumerated
/// label may be declared as a one-byte enum field or as a two-byte
/// unsigned field: the binary codec writes the label's numeric key at
/// the declared width.
pub open spec fn value_fits(v: FitValueModel, d: FieldDef) -> bool {
    match v {
        FitValueModel::U8(_) => d.size == 1 && d.base_type == 2,
        FitValueModel::I8(_) => d.size == 1 && d.base_type == 1,
        FitValueModel::U16(_) => d.size == 2 && d.base_type == 4,
        FitValueModel::I16(_) => d.size == 2 && d.base_type == 3,
        FitValueModel::U32(_) => d.size == 4 && d.base_type == 6,
        FitValueModel::Time(_) => d.size == 4 && d.base_type == 6,
        FitValueModel::F32Bits(_) => d.size == 4 && d.base_type == 8,
        FitValueModel::Label(_) => (d.size == 1 && d.base_type == 0) || (d.size == 2
            && d.base_type == 4),
        FitValueModel::Text(s) => d.base_type == 7 && s.len() == d.size,
        FitValueModel::Bytes(b) => d.base_type == 12 && b.len() == d.size,
    }
}

/// A data message matches a definition when both carry the same kind
/// and local number, the field counts agree, and each field's number
/// and value fit the definition row at the same position.
pub open spec fn data_matches_def(data: DataModel, def: DefinitionModel) -> bool {
    &&& data.kind == def.kind
    &&& data.local_num == def.local_num
    &&& data.fields.len() == def.fields.len()
    &&& forall|i: int|
        0 <= i < data.fields.len() ==> {
            &&& (#[trigger] data.fields[i]).field_num == def.fields[i].field_num
            &&& value_fits(data.fields[i].value, def.fields[i])
        }
}

/// The most recently emitted definition with the given local message
/// number, if any.
pub open spec fn latest_def(s: Seq<FitMessageModel>, local: u8) -> Option<DefinitionModel>
    decreases s.len(),
{
    if s.len() == 0 {
        None
    } else {
        match s.last() {
            FitMessageModel::Definition(d) => {
                if d.local_num == local {
                    Some(d)
                } else {
                    latest_def(s.drop_last(), local)
                }
            },
            FitMessageModel::Data(_) => latest_def(s.drop_last(), local),
        }
    }
}

/// A message sequence is well formed when every data message matches
/// the most recent definition sharing its local message number.
pub open spec fn seq_well_formed(s: Seq<FitMessageModel>) -> bool {
    forall|i: int|
        0 <= i < s.len() ==> match #[trigger] s[i] {
            FitMessageModel::Data(m) => match latest_def(s.take(i), m.local_num) {
                Some(d) => data_matches_def(m, d),
                None => false,
            },
            FitMessageModel::Definition(_) => true,
        }
}

proof fn lemma_take_of_push(s: Seq<FitMessageModel>, m: FitMessageModel, i: int)
    requires
        0 <= i <= s.len(),
    ensures
        s.push(m).take(i) == s.take(i),
{
    assert(s.push(m).take(i) =~= s.take(i));
}

/// Appending a definition makes it the latest one for its local
/// number and leaves every other local number's latest unchanged.
pub proof fn lemma_latest_def_push_def(s: Seq<FitMessageModel>, d: DefinitionModel)
    ensures
        latest_def(s.push(FitMessageModel::Definition(d)), d.local_num) == Some(d),
        forall|l: u8|
            l != d.local_num ==> latest_def(s.push(FitMessageModel::Definition(d)), l)
                == latest_def(s, l),
{
    let s2 = s.push(FitMessageModel::Definition(d));
    assert(s2.drop_last() =~= s);
}

/// Appending a data message changes no local number's latest
/// definition.
pub proof fn lemma_latest_def_push_data(s: Seq<FitMessageModel>, m: DataModel)
    ensures
        forall|l: u8| latest_def(s.push(FitMessageModel::Data(m)), l) == latest_def(s, l),
{
    let s2 = s.push(FitMessageModel::Data(m));
    assert(s2.drop_last() =~= s);
}

/// Appending a definition preserves well-formedness.
pub proof fn lemma_wf_push_def(s: Seq<FitMessageModel>, d: DefinitionModel)
    requires
        seq_well_formed(s),
    ensures
        seq_well_formed(s.push(FitMessageModel::Definition(d))),
{
    let s2 = s.push(FitMessageModel::Definition(d));
    assert forall|i: int| 0 <= i < s2.len() implies match #[trigger] s2[i] {
        FitMessageModel::Data(m) => match latest_def(s2.take(i), m.local_num) {
            Some(dd) => data_matches_def(m, dd),
            None => false,
        },
        FitMessageModel::Definition(_) => true,
    } by {
        if i < s.len() {
            lemma_take_of_push(s, FitMessageModel::Definition(d), i);
            assert(s2[i] == s[i]);
        }
    }
}

/// Appending a data message that matches the latest definition for its
/// local number preserves well-formedness.
pub proof fn lemma_wf_push_data(s: Seq<FitMessageModel>, m: DataModel)
    requires
        seq_well_formed(s),
        latest_def(s, m.local_num) matches Some(d) && data_matches_def(m, d),
    ensures
        seq_well_formed(s.push(FitMessageModel::Data(m))),
{
    let s2 = s.push(FitMessageModel::Data(m));
    assert forall|i: int| 0 <= i < s2.len() implies match #[trigger] s2[i] {
        FitMessageModel::Data(mm) => match latest_def(s2.take(i), mm.local_num) {
            Some(dd) => data_matches_def(mm, dd),
            None => false,
        },
        FitMessageModel::Definition(_) => true,
    } by {
        lemma_take_of_push(s, FitMessageModel::Data(m), i);
        if i < s.len() {
            assert(s2[i] == s[i]);
        } else {
            assert(s2[i] == FitMessageModel::Data(m));
            assert(s2.take(i) =~= s);
        }
    }
}

/// What a value reads as when a 32-bit unsigned field is expected:
/// unsigned integer and timestamp variants yield their value widened,
/// anything else yields zero.
pub open spec fn value_as_u32_spec(v: FitValueModel) -> u32 {
    match v {
        FitValueModel::U32(x) => x,
        FitValueModel::Time(x) => x,
        FitValueModel::U16(x) => x as u32,
        FitValueModel::U8(x) => x as u32,
        _ => 0u32,
    }
}

/// What a value reads as when a 16-bit unsigned field is expected.
pub open spec fn value_as_u16_spec(v: FitValueModel) -> u16 {
    match v {
        FitValueModel::U16(x) => x,
        FitValueModel::U8(x) => x as u16,
        _ => 0u16,
    }
}

/// What a value reads as when text is expected: labels and text yield
/// their characters, anything else yields the empty string.
pub open spec fn value_as_string_spec(v: FitValueModel) -> Seq<char> {
    match v {
        FitValueModel::Label(s) => s,
        FitValueModel::Text(s) => s,
        _ => Seq::empty(),
    }
}

pub fn value_as_u32(v: &FitValue) -> (r: u32)
    ensures
        r == value_as_u32_spec(v@),
{
    match v {
        FitValue::U32(x) => *x,
        FitValue::Time(x) => *x,
        FitValue::U16(x) => *x as u32,
        FitValue::U8(x) => *x as u32,
        _ => 0u32,
    }
}

pub fn value_as_u16(v: &FitValue) -> (r: u16)
    ensures
        r == value_as_u16_spec(v@),
{
    match v {
        FitValue::U16(x) => *x,
        FitValue::U8(x) => *x as u16,
        _ => 0u16,
    }
}

pub fn value_as_string(v: &FitValue) -> (r: String)
    ensures
        r@ == value_as_string_spec(v@),
{
    match v {
        FitValue::Label(s) => s.clone(),
        FitValue::Text(s) => s.clone(),
        _ => String::new(),
    }
}

} // verus!
