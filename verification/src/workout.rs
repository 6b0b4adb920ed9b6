//! The interval tree builder: a flat, ordered sequence of workout-step
//! field records is compiled into a nested tree of steps grouped into
//! repetitions, together with a running total duration and the two
//! header strings drawn from the first-seen file-id and workout records.

use vstd::prelude::*;

use crate::TranscodeError;
use crate::codec::{sat_add_u32, unbias_target, unbias_target_spec};
use crate::messages::{
    DataModel, FieldRecord, FieldRecordModel, FitMessage, FitMessageModel, MessageKind,
    value_as_string, value_as_string_spec, value_as_u16, value_as_u16_spec, value_as_u32,
    value_as_u32_spec,
};

verus! {

/// The arithmetic operation of a configured numeric adjustment.
#[derive(Clone, Copy, Debug, PartialEq, Eq, Structural)]
pub enum Operation {
    Add,
    Subtract,
    Multiply,
    Divide,
}

/// What a configured numeric adjustment applies to: the power target
/// bounds of every step, or its duration.
#[derive(Clone, Copy, Debug, PartialEq, Eq, Structural)]
pub enum TargetType {
    Power,
    Duration,
}

/// An optional numeric adjustment applied to every emitted step before
/// the node is finalized.
#[derive(Clone, Copy, Debug, PartialEq, Eq, Structural)]
pub struct FitWorkoutArgs {
    pub operation: Operation,
    pub target_type: TargetType,
    pub target_value: u32,
}

/// The value of one adjusted quantity: arithmetic saturates at the
/// representable bounds rather than wrapping, and division by zero is
/// a no-op.
pub open spec fn apply_to_value_spec(args: FitWorkoutArgs, t: int) -> int {
    match args.operation {
        Operation::Add => {
            if t + args.target_value > u32::MAX {
                u32::MAX as int
            } else {
                t + args.target_value
            }
        },
        Operation::Subtract => {
            if t - args.target_value < 0 {
                0
            } else {
                t - args.target_value
            }
        },
        Operation::Multiply => {
            if t * args.target_value > u32::MAX {
                u32::MAX as int
            } else {
                t * args.target_value
            }
        },
        Operation::Divide => {
            if args.target_value == 0 {
                t
            } else {
                t / args.target_value as int
            }
        },
    }
}

impl FitWorkoutArgs {
    /// Apply the configured operation to one quantity, saturating at
    /// the representable bounds; division by zero leaves it unchanged.
    pub fn apply_to_value(&self, target: &mut u32)
        ensures
            *final(target) == apply_to_value_spec(*self, *old(target) as int),
    {
        let t: u32 = *target;
        match self.operation {
            Operation::Add => {
                *target = t.saturating_add(self.target_value);
            },
            Operation::Subtract => {
                *target = t.saturating_sub(self.target_value);
            },
            Operation::Multiply => {
                match t.checked_mul(self.target_value) {
                    Some(p) => {
                        *target = p;
                    },
                    None => {
                        *target = u32::MAX;
                    },
                }
            },
            Operation::Divide => {
                if self.target_value != 0 {
                    *target = t / self.target_value;
                }
            },
        }
    }

    /// Apply the adjustment to the quantities its target type selects:
    /// both power bounds, or the duration; the others are unchanged.
    pub fn apply_operation(&self, min_value: &mut u32, max_value: &mut u32, duration: &mut u32)
        ensures
            self.target_type == TargetType::Power ==> {
                &&& *final(min_value) == apply_to_value_spec(*self, *old(min_value) as int)
                &&& *final(max_value) == apply_to_value_spec(*self, *old(max_value) as int)
                &&& *final(duration) == *old(duration)
            },
            self.target_type == TargetType::Duration ==> {
                &&& *final(min_value) == *old(min_value)
                &&& *final(max_value) == *old(max_value)
                &&& *final(duration) == apply_to_value_spec(*self, *old(duration) as int)
            },
    {
        match self.target_type {
            TargetType::Power => {
                self.apply_to_value(min_value);
                self.apply_to_value(max_value);
            },
            TargetType::Duration => {
                self.apply_to_value(duration);
            },
        }
    }
}

/// A workout-step record: the decoded view over one field-record set,
/// keyed by the fixed field-number table of the step message.
pub struct WorkoutStepRecord {
    pub step_name: String,
    pub duration_type: String,
    pub duration_value: u32,
    pub target_type: String,
    pub target_value: u32,
    pub target_value_low: u32,
    pub target_value_high: u32,
    pub intensity: String,
    pub index: u16,
}

pub ghost struct WorkoutStepModel {
    pub step_name: Seq<char>,
    pub duration_type: Seq<char>,
    pub duration_value: u32,
    pub target_type: Seq<char>,
    pub target_value: u32,
    pub target_value_low: u32,
    pub target_value_high: u32,
    pub intensity: Seq<char>,
    pub index: u16,
}

impl View for WorkoutStepRecord {
    type V = WorkoutStepModel;

    open spec fn view(&self) -> WorkoutStepModel {
        WorkoutStepModel {
            step_name: self.step_name@,
            duration_type: self.duration_type@,
            duration_value: self.duration_value,
            target_type: self.target_type@,
            target_value: self.target_value,
            target_value_low: self.target_value_low,
            target_value_high: self.target_value_high,
            intensity: self.intensity@,
            index: self.index,
        }
    }
}

/// The step record with every field still at its default.
pub open spec fn empty_step_model() -> WorkoutStepModel {
    WorkoutStepModel {
        step_name: Seq::empty(),
        duration_type: Seq::empty(),
        duration_value: 0,
        target_type: Seq::empty(),
        target_value: 0,
        target_value_low: 0,
        target_value_high: 0,
        intensity: Seq::empty(),
        index: 0,
    }
}

/// One field record folded into the decoded step, by the fixed
/// field-number table: 0 name, 1 duration type, 2 duration value,
/// 3 target type, 4 target value, 5/6 custom target bounds,
/// 7 intensity, 254 sequence index.  Unknown numbers are ignored.
pub open spec fn step_field_apply(st: WorkoutStepModel, f: FieldRecordModel) -> WorkoutStepModel {
    if f.field_num == 0 {
        WorkoutStepModel { step_name: value_as_string_spec(f.value), ..st }
    } else if f.field_num == 1 {
        WorkoutStepModel { duration_type: value_as_string_spec(f.value), ..st }
    } else if f.field_num == 2 {
        WorkoutStepModel { duration_value: value_as_u32_spec(f.value), ..st }
    } else if f.field_num == 3 {
        WorkoutStepModel { target_type: value_as_string_spec(f.value), ..st }
    } else if f.field_num == 4 {
        WorkoutStepModel { target_value: value_as_u32_spec(f.value), ..st }
    } else if f.field_num == 5 {
        WorkoutStepModel { target_value_low: value_as_u32_spec(f.value), ..st }
    } else if f.field_num == 6 {
        WorkoutStepModel { target_value_high: value_as_u32_spec(f.value), ..st }
    } else if f.field_num == 7 {
        WorkoutStepModel { intensity: value_as_string_spec(f.value), ..st }
    } else if f.field_num == 254 {
        WorkoutStepModel { index: value_as_u16_spec(f.value), ..st }
    } else {
        st
    }
}

/// The decoded step of a whole field-record sequence: the fields are
/// folded left to right over the empty record.
pub open spec fn step_of_fields(fields: Seq<FieldRecordModel>) -> WorkoutStepModel
    decreases fields.len(),
{
    if fields.len() == 0 {
        empty_step_model()
    } else {
        step_field_apply(step_of_fields(fields.drop_last()), fields.last())
    }
}

/// Decode one workout-step message's field records into a step record.
pub fn get_workout_step(fields: &Vec<FieldRecord>) -> (r: WorkoutStepRecord)
    ensures
        r@ == step_of_fields(fields@.map_values(|f: FieldRecord| f@)),
{
    let ghost fmodels = fields@.map_values(|f: FieldRecord| f@);
    let mut step = WorkoutStepRecord {
        step_name: String::new(),
        duration_type: String::new(),
        duration_value: 0,
        target_type: String::new(),
        target_value: 0,
        target_value_low: 0,
        target_value_high: 0,
        intensity: String::new(),
        index: 0,
    };
    assert(step@ == empty_step_model());
    assert(fmodels.take(0) =~= Seq::<FieldRecordModel>::empty());
    let mut i: usize = 0;
    while i < fields.len()
        invariant
            0 <= i <= fields.len(),
            fmodels == fields@.map_values(|f: FieldRecord| f@),
            step@ == step_of_fields(fmodels.take(i as int)),
        decreases fields.len() - i,
    {
        let f = &fields[i];
        if f.field_num == 0 {
            step.step_name = value_as_string(&f.value);
        } else if f.field_num == 1 {
            step.duration_type = value_as_string(&f.value);
        } else if f.field_num == 2 {
            step.duration_value = value_as_u32(&f.value);
        } else if f.field_num == 3 {
            step.target_type = value_as_string(&f.value);
        } else if f.field_num == 4 {
            step.target_value = value_as_u32(&f.value);
        } else if f.field_num == 5 {
            step.target_value_low = value_as_u32(&f.value);
        } else if f.field_num == 6 {
            step.target_value_high = value_as_u32(&f.value);
        } else if f.field_num == 7 {
            step.intensity = value_as_string(&f.value);
        } else if f.field_num == 254 {
            step.index = value_as_u16(&f.value);
        }
        proof {
            let pre = fmodels.take(i as int);
            let post = fmodels.take(i + 1);
            assert(post.drop_last() =~= pre);
            assert(post.last() == fmodels[i as int]);
            assert(step@ == step_field_apply(step_of_fields(pre), fmodels[i as int]));
        }
        i = i + 1;
    }
    proof {
        assert(fmodels.take(fields@.len() as int) =~= fmodels);
    }
    step
}

/// Does a path name a workout file?  True exactly when the path, as
/// UTF-8 bytes, ends in ".fit" with at least one character of file
/// name before the dot — so a bare ".fit" or a hidden file does not
/// count.  Whether the path names a regular file is the caller's
/// concern.
pub open spec fn is_fit_name_spec(s: Seq<u8>) -> bool {
    &&& s.len() >= 5
    &&& s[s.len() - 4] == 0x2Eu8
    &&& s[s.len() - 3] == 0x66u8
    &&& s[s.len() - 2] == 0x69u8
    &&& s[s.len() - 1] == 0x74u8
    &&& s[s.len() - 5] != 0x2Fu8
}

pub fn is_fit(path: &[u8]) -> (r: bool)
    ensures
        r == is_fit_name_spec(path@),
{
    let n: usize = path.len();
    n >= 5 && path[n - 4] == 0x2E && path[n - 3] == 0x66 && path[n - 2] == 0x69 && path[n - 1]
        == 0x74 && path[n - 5] != 0x2F
}

/// A length or target entry of one tree node: a unit label, a value,
/// and optional bounds.
pub struct WorkoutDataStructureLength {
    pub unit: String,
    pub value: u32,
    pub max_value: Option<u32>,
    pub min_value: Option<u32>,
}

/// One node of the interval tree: a leaf step, or a repetition whose
/// ordered children are repeated as a unit.
pub struct WorkoutDataStructure {
    pub workout_type: String,
    pub name: String,
    pub uuid: String,
    pub open_duration: String,
    pub length: WorkoutDataStructureLength,
    pub intensity_class: String,
    pub intensity_target: Option<WorkoutDataStructureLength>,
    pub steps: Option<Vec<WorkoutDataStructure>>,
}

/// The whole compiled workout: header strings, total duration in
/// seconds, and the top-level ordered node list.
pub struct WorkoutData {
    pub workout_type: String,
    pub from_tp: bool,
    pub allow_deletion: bool,
    pub total_time: u32,
    pub title: String,
    pub description: String,
    pub structure: Vec<WorkoutDataStructure>,
}

impl Default for WorkoutData {
    /// An empty workout of the fixed kind: no steps, no time, no
    /// header strings yet.
    fn default() -> (r: Self)
        ensures
            r.workout_type@ == "bike"@,
            r.from_tp == false,
            r.allow_deletion == true,
            r.total_time == 0,
            r.title@ == Seq::<char>::empty(),
            r.description@ == Seq::<char>::empty(),
            r.structure@ == Seq::<WorkoutDataStructure>::empty(),
    {
        WorkoutData {
            workout_type: "bike".to_owned(),
            from_tp: false,
            allow_deletion: true,
            total_time: 0,
            title: String::new(),
            description: String::new(),
            structure: Vec::new(),
        }
    }
}

/// The request body that wraps a compiled workout for the consuming
/// platform.
pub struct IGPSRequestBody {
    pub data: WorkoutData,
}

/// The mathematical shape of one tree node: everything the builder
/// determines, leaving out only the freshly generated identifier.
pub ghost enum NodeShape {
    Step { name: Seq<char>, warmup: bool, duration: u32, min: u32, max: u32 },
    Repetition { name: Seq<char>, count: u32, children: Seq<NodeShape> },
}

/// The decimal digit characters of a natural number, most significant
/// first, with no leading zeros.
pub open spec fn dec_digits(n: nat) -> Seq<char>
    decreases n,
{
    if n < 10 {
        seq![digit_char(n)]
    } else {
        dec_digits(n / 10).push(digit_char(n % 10))
    }
}

/// The character of one decimal digit.
pub open spec fn digit_char(d: nat) -> char {
    if d == 0 {
        '0'
    } else if d == 1 {
        '1'
    } else if d == 2 {
        '2'
    } else if d == 3 {
        '3'
    } else if d == 4 {
        '4'
    } else if d == 5 {
        '5'
    } else if d == 6 {
        '6'
    } else if d == 7 {
        '7'
    } else if d == 8 {
        '8'
    } else {
        '9'
    }
}

/// A node's display name: the step name, a hyphen, and the sequence
/// index in decimal.
pub open spec fn display_name_spec(name: Seq<char>, index: u16) -> Seq<char> {
    name + seq!['-'] + dec_digits(index as nat)
}

/// Relies on `alloc::format!` with the `Display` implementations of
/// `str` and `u16`: renders the name, one hyphen, and the index in
/// decimal with no leading zeros.
#[verifier::external_body]
fn step_display_name(name: &str, index: u16) -> (r: String)
    ensures
        r@ == display_name_spec(name@, index),
{
    format!("{}-{}", name, index)
}

/// Relies on `uuid::Uuid::new_v4` rendered through its `Display`
/// implementation: a freshly generated identifier, always 36
/// characters in the hyphenated form.
#[verifier::external_body]
fn new_node_id() -> (r: String)
    ensures
        r@.len() == 36,
{
    uuid::Uuid::new_v4().to_string()
}

/// Does one built tree node realize one node shape?  Every field is
/// pinned except the identifier, of which only the rendered length is
/// known.
pub open spec fn node_matches(w: WorkoutDataStructure, n: NodeShape) -> bool
    decreases w,
{
    match n {
        NodeShape::Step { name, warmup, duration, min, max } => {
            &&& w.workout_type@ == "Step"@
            &&& w.name@ == name
            &&& w.uuid@.len() == 36
            &&& w.open_duration@ == "false"@
            &&& w.length.unit@ == "Second"@
            &&& w.length.value == duration
            &&& w.length.max_value is None
            &&& w.length.min_value is None
            &&& w.intensity_class@ == if warmup { "WarmUp"@ } else { "Active"@ }
            &&& w.intensity_target matches Some(t) && {
                &&& t.unit@ == "PowerCustom"@
                &&& t.value == 0
                &&& t.max_value == Some(max)
                &&& t.min_value == Some(min)
            }
            &&& w.steps is None
        },
        NodeShape::Repetition { name, count, children } => {
            &&& w.workout_type@ == "Repetition"@
            &&& w.name@ == name
            &&& w.uuid@.len() == 36
            &&& w.open_duration@ == "false"@
            &&& w.length.unit@ == "Repetition"@
            &&& w.length.value == count
            &&& w.length.max_value is None
            &&& w.length.min_value is None
            &&& w.intensity_class@ == "Active"@
            &&& w.intensity_target is None
            &&& w.steps matches Some(ws) && {
                &&& ws@.len() == children.len()
                &&& forall|i: int|
                    0 <= i < ws@.len() ==> node_matches(#[trigger] ws@[i], children[i])
            }
        },
    }
}

/// Pointwise node matching over an ordered level.
pub open spec fn nodes_match(ws: Seq<WorkoutDataStructure>, ns: Seq<NodeShape>) -> bool {
    &&& ws.len() == ns.len()
    &&& forall|i: int| 0 <= i < ws.len() ==> node_matches(#[trigger] ws[i], ns[i])
}

/// The builder's running state: the current top-level node list, the
/// running total duration, and the first-seen header strings.
pub ghost struct BuildModel {
    pub level: Seq<NodeShape>,
    pub total_time: u32,
    pub title: Option<Seq<char>>,
    pub description: Option<Seq<char>>,
}

pub open spec fn initial_build_model() -> BuildModel {
    BuildModel {
        level: Seq::empty(),
        total_time: 0,
        title: None,
        description: None,
    }
}

/// The adjusted (min, max, duration) triple of one step: the
/// configured adjustment applies to the power bounds or to the
/// duration, and leaves the rest unchanged.
pub open spec fn adjusted_triple(
    args: Option<FitWorkoutArgs>,
    min0: int,
    max0: int,
    dur0: int,
) -> (int, int, int) {
    match args {
        None => (min0, max0, dur0),
        Some(a) => {
            if a.target_type == TargetType::Power {
                (apply_to_value_spec(a, min0), apply_to_value_spec(a, max0), dur0)
            } else {
                (min0, max0, apply_to_value_spec(a, dur0))
            }
        },
    }
}

/// The shape of the leaf step that one "time" record appends: duration
/// in seconds, unbiased target bounds, adjustment applied, warm-up
/// intensity exactly when the current level is empty.
pub open spec fn step_shape(
    step: WorkoutStepModel,
    args: Option<FitWorkoutArgs>,
    level_empty: bool,
) -> NodeShape {
    let t = adjusted_triple(
        args,
        unbias_target_spec(step.target_value_low as int),
        unbias_target_spec(step.target_value_high as int),
        step.duration_value as int / 1000,
    );
    NodeShape::Step {
        name: display_name_spec(step.step_name, step.index),
        warmup: level_empty,
        duration: t.2 as u32,
        min: t.0 as u32,
        max: t.1 as u32,
    }
}

/// One workout-step record folded into the builder state.  A "time"
/// record appends a leaf step and adds its unadjusted seconds to the
/// total; a repeat-closing record replaces the last `count` nodes of
/// the level by one repetition holding them in order, failing when
/// `count` is negative or exceeds the level's length; any other
/// duration type changes nothing.
pub open spec fn build_step(
    m: BuildModel,
    step: WorkoutStepModel,
    args: Option<FitWorkoutArgs>,
) -> Option<BuildModel> {
    if step.duration_type == "time"@ {
        Some(
            BuildModel {
                level: m.level.push(step_shape(step, args, m.level.len() == 0)),
                total_time: sat_add_u32(
                    m.total_time as int,
                    step.duration_value as int / 1000,
                ) as u32,
                ..m
            },
        )
    } else if step.duration_type == "repeat_until_steps_cmplt"@ {
        let count = step.index - step.duration_value;
        if count < 0 || count > m.level.len() {
            None
        } else {
            let keep = m.level.len() - count;
            Some(
                BuildModel {
                    level: m.level.take(keep as int).push(
                        NodeShape::Repetition {
                            name: display_name_spec(step.step_name, step.index),
                            count: step.target_value,
                            children: m.level.skip(keep as int),
                        },
                    ),
                    ..m
                },
            )
        }
    } else {
        Some(m)
    }
}

/// The string carried by the last field numbered 8 of one message, if
/// any: the shared header slot of file-id and workout records.
pub open spec fn field8_of(fields: Seq<FieldRecordModel>) -> Option<Seq<char>>
    decreases fields.len(),
{
    if fields.len() == 0 {
        None
    } else if fields.last().field_num == 8 {
        Some(value_as_string_spec(fields.last().value))
    } else {
        field8_of(fields.drop_last())
    }
}

/// One message folded into the builder state.  The first-seen file-id
/// record's header slot becomes the description, the first-seen
/// workout record's becomes the title; workout-step records build the
/// tree; everything else passes through.
pub open spec fn build_msg(
    m: BuildModel,
    msg: FitMessageModel,
    args: Option<FitWorkoutArgs>,
) -> Option<BuildModel> {
    match msg {
        FitMessageModel::Data(d) => {
            if d.kind == MessageKind::FileId {
                match field8_of(d.fields) {
                    Some(s) => {
                        if m.description is None {
                            Some(BuildModel { description: Some(s), ..m })
                        } else {
                            Some(m)
                        }
                    },
                    None => Some(m),
                }
            } else if d.kind == MessageKind::Workout {
                match field8_of(d.fields) {
                    Some(s) => {
                        if m.title is None {
                            Some(BuildModel { title: Some(s), ..m })
                        } else {
                            Some(m)
                        }
                    },
                    None => Some(m),
                }
            } else if d.kind == MessageKind::WorkoutStep {
                build_step(m, step_of_fields(d.fields), args)
            } else {
                Some(m)
            }
        },
        FitMessageModel::Definition(_) => Some(m),
    }
}

/// The builder state after a whole message sequence, or `None` when a
/// repeat-closing record failed; failure is final.
pub open spec fn build_fold(
    msgs: Seq<FitMessageModel>,
    args: Option<FitWorkoutArgs>,
) -> Option<BuildModel>
    decreases msgs.len(),
{
    if msgs.len() == 0 {
        Some(initial_build_model())
    } else {
        match build_fold(msgs.drop_last(), args) {
            Some(m) => build_msg(m, msgs.last(), args),
            None => None,
        }
    }
}

/// A header string as it appears in the output: the first-seen value,
/// or empty when none was seen.
pub open spec fn header_string(h: Option<Seq<char>>) -> Seq<char> {
    match h {
        Some(s) => s,
        None => Seq::empty(),
    }
}

/// Scan one message's field records for the shared header slot,
/// field number 8; the last occurrence wins.
fn extract_field8(fields: &Vec<FieldRecord>) -> (r: Option<String>)
    ensures
        match r {
            Some(s) => field8_of(fields@.map_values(|f: FieldRecord| f@)) == Some(s@),
            None => field8_of(fields@.map_values(|f: FieldRecord| f@)) is None,
        },
{
    let ghost fmodels = fields@.map_values(|f: FieldRecord| f@);
    let mut found: Option<String> = None;
    assert(fmodels.take(0) =~= Seq::<FieldRecordModel>::empty());
    let mut i: usize = 0;
    while i < fields.len()
        invariant
            0 <= i <= fields.len(),
            fmodels == fields@.map_values(|f: FieldRecord| f@),
            match found {
                Some(s) => field8_of(fmodels.take(i as int)) == Some(s@),
                None => field8_of(fmodels.take(i as int)) is None,
            },
        decreases fields.len() - i,
    {
        let f = &fields[i];
        if f.field_num == 8 {
            found = Some(value_as_string(&f.value));
        }
        proof {
            assert(fmodels.take(i + 1).drop_last() =~= fmodels.take(i as int));
            assert(fmodels.take(i + 1).last() == fmodels[i as int]);
        }
        i = i + 1;
    }
    proof {
        assert(fmodels.take(fields@.len() as int) =~= fmodels);
    }
    found
}

proof fn lemma_fold_none_propagates(
    msgs: Seq<FitMessageModel>,
    args: Option<FitWorkoutArgs>,
    i: int,
)
    requires
        0 <= i <= msgs.len(),
        build_fold(msgs.take(i), args) is None,
    ensures
        build_fold(msgs, args) is None,
    decreases msgs.len() - i,
{
    if i < msgs.len() {
        assert(msgs.take(i + 1).drop_last() =~= msgs.take(i));
        assert(build_fold(msgs.take(i + 1), args) is None);
        lemma_fold_none_propagates(msgs, args, i + 1);
    } else {
        assert(msgs.take(i) =~= msgs);
    }
}

/// Unknown duration types never mutate the builder state: a
/// workout-step record that is neither a "time" step nor a
/// repeat-closing record contributes no node and leaves the total
/// duration unchanged.
pub proof fn lemma_unknown_duration_type_is_noop(
    m: BuildModel,
    step: WorkoutStepModel,
    args: Option<FitWorkoutArgs>,
)
    requires
        step.duration_type != "time"@,
        step.duration_type != "repeat_until_steps_cmplt"@,
    ensures
        build_step(m, step, args) == Some(m),
{
}

/// Every "time" step's target bounds are unbiased exactly: with no
/// adjustment configured, the emitted minimum is the record's low
/// bound less 1000 and the maximum its high bound less 1000.
pub proof fn lemma_step_target_bounds(m: BuildModel, step: WorkoutStepModel)
    requires
        step.duration_type == "time"@,
        step.target_value_low >= 1000,
        step.target_value_high >= 1000,
    ensures
        build_step(m, step, None) matches Some(m2) && m2.level.last() matches NodeShape::Step {
            min,
            max,
            duration,
            ..
        } && {
            &&& min == step.target_value_low - 1000
            &&& max == step.target_value_high - 1000
            &&& duration == step.duration_value as int / 1000
        },
{
}

/// A trailing repeat-closing record whose count equals the whole
/// current level wraps it: the level becomes a single repetition
/// holding the previous nodes in their original order, with the
/// record's target value as its repeat count.
pub proof fn lemma_trailing_repeat_groups_all(
    msgs: Seq<FitMessageModel>,
    d: DataModel,
    args: Option<FitWorkoutArgs>,
)
    requires
        d.kind == MessageKind::WorkoutStep,
        step_of_fields(d.fields).duration_type == "repeat_until_steps_cmplt"@,
        build_fold(msgs, args) matches Some(m) && step_of_fields(d.fields).index - step_of_fields(
            d.fields,
        ).duration_value == m.level.len(),
    ensures
        build_fold(msgs.push(FitMessageModel::Data(d)), args) matches Some(m2) && {
            let m = build_fold(msgs, args)->Some_0;
            &&& m2.level.len() == 1
            &&& m2.level[0] matches NodeShape::Repetition { count, children, .. } && {
                &&& count == step_of_fields(d.fields).target_value
                &&& children == m.level
            }
            &&& m2.total_time == m.total_time
        },
{
    let m = build_fold(msgs, args)->Some_0;
    // the two duration-type labels differ, starting with their lengths
    reveal_strlit("time");
    reveal_strlit("repeat_until_steps_cmplt");
    assert("time"@.len() == 4);
    assert("repeat_until_steps_cmplt"@.len() == 24);
    assert(step_of_fields(d.fields).duration_type != "time"@);
    assert(msgs.push(FitMessageModel::Data(d)).drop_last() =~= msgs);
    assert(m.level.take(0) =~= Seq::<NodeShape>::empty());
    assert(m.level.skip(0) =~= m.level);
}

/// The leaf steps of a node, in pre-order: a step is itself, a
/// repetition contributes its children's steps.
pub open spec fn flat_node(n: NodeShape) -> Seq<NodeShape>
    decreases n,
{
    match n {
        NodeShape::Step { .. } => seq![n],
        NodeShape::Repetition { children, .. } => flat_steps(children),
    }
}

/// The leaf steps of an ordered level, in pre-order.
pub open spec fn flat_steps(ns: Seq<NodeShape>) -> Seq<NodeShape>
    decreases ns,
{
    if ns.len() == 0 {
        Seq::empty()
    } else {
        flat_node(ns.first()) + flat_steps(ns.drop_first())
    }
}

proof fn lemma_flat_concat(a: Seq<NodeShape>, b: Seq<NodeShape>)
    ensures
        flat_steps(a + b) == flat_steps(a) + flat_steps(b),
    decreases a.len(),
{
    if a.len() == 0 {
        assert(a + b =~= b);
        assert(flat_steps(a) + flat_steps(b) =~= flat_steps(b));
    } else {
        assert((a + b).first() == a.first());
        assert((a + b).drop_first() =~= a.drop_first() + b);
        lemma_flat_concat(a.drop_first(), b);
        assert(flat_node(a.first()) + (flat_steps(a.drop_first()) + flat_steps(b)) =~= (flat_node(
            a.first(),
        ) + flat_steps(a.drop_first())) + flat_steps(b));
    }
}

proof fn lemma_flat_push(ns: Seq<NodeShape>, n: NodeShape)
    ensures
        flat_steps(ns.push(n)) == flat_steps(ns) + flat_node(n),
    decreases ns.len(),
{
    let s = seq![n];
    assert(s.len() == 1);
    assert(s.first() == n);
    assert(s.drop_first() =~= Seq::<NodeShape>::empty());
    assert(flat_steps(s) == flat_node(n) + flat_steps(Seq::<NodeShape>::empty()));
    assert(flat_node(n) + flat_steps(Seq::<NodeShape>::empty()) =~= flat_node(n));
    assert(ns.push(n) =~= ns + s);
    lemma_flat_concat(ns, s);
}

/// A level's warm-up marking is in order: its leaf steps, in
/// pre-order, are steps whose warm-up flag is set exactly on the
/// first, and the level holds a step somewhere unless it is empty.
pub open spec fn warmup_ordered(level: Seq<NodeShape>) -> bool {
    let flat = flat_steps(level);
    &&& forall|i: int|
        0 <= i < flat.len() ==> ((#[trigger] flat[i]) matches NodeShape::Step { warmup, .. }
            && (warmup <==> i == 0))
    &&& (flat.len() == 0 <==> level.len() == 0)
}

/// Is this message a repeat-closing workout-step record?
pub open spec fn is_repeat_msg(msg: FitMessageModel) -> bool {
    msg matches FitMessageModel::Data(d) && d.kind == MessageKind::WorkoutStep
        && step_of_fields(d.fields).duration_type == "repeat_until_steps_cmplt"@
}

/// One message preserves orderly warm-up marking, provided no
/// repeat-closing record arrives while the level is empty.
pub proof fn lemma_build_msg_preserves_warmup(
    m: BuildModel,
    msg: FitMessageModel,
    args: Option<FitWorkoutArgs>,
)
    requires
        warmup_ordered(m.level),
        !(m.level.len() == 0 && is_repeat_msg(msg)),
        build_msg(m, msg, args) matches Some(m2),
    ensures
        build_msg(m, msg, args) matches Some(m2) && warmup_ordered(m2.level),
{
    let m2 = build_msg(m, msg, args)->Some_0;
    if msg is Data && msg->Data_0.kind == MessageKind::WorkoutStep {
        let step = step_of_fields(msg->Data_0.fields);
        if step.duration_type == "time"@ {
            let shape = step_shape(step, args, m.level.len() == 0);
            lemma_flat_push(m.level, shape);
            assert(flat_node(shape) =~= seq![shape]);
            let flat = flat_steps(m.level);
            let flat2 = flat_steps(m2.level);
            assert(flat2 =~= flat + seq![shape]);
            assert forall|i: int| 0 <= i < flat2.len() implies (#[trigger] flat2[i])
                matches NodeShape::Step { warmup, .. } && (warmup <==> i == 0) by {
                if i < flat.len() {
                    assert(flat2[i] == flat[i]);
                } else {
                    assert(flat2[i] == shape);
                }
            }
        } else if step.duration_type == "repeat_until_steps_cmplt"@ {
            let count = step.index - step.duration_value;
            let keep = m.level.len() - count;
            let rep = NodeShape::Repetition {
                name: display_name_spec(step.step_name, step.index),
                count: step.target_value,
                children: m.level.skip(keep as int),
            };
            lemma_flat_push(m.level.take(keep as int), rep);
            lemma_flat_concat(m.level.take(keep as int), m.level.skip(keep as int));
            assert(m.level.take(keep as int) + m.level.skip(keep as int) =~= m.level);
            assert(flat_steps(m2.level) =~= flat_steps(m.level));
        }
    }
}

/// The first leaf step of a built tree is marked warm-up and every
/// later one active, in pre-order across the whole tree, provided no
/// repeat-closing record arrived while the level was empty.
pub proof fn lemma_first_step_warmup(msgs: Seq<FitMessageModel>, args: Option<FitWorkoutArgs>)
    requires
        forall|i: int|
            0 <= i < msgs.len() ==> match build_fold(msgs.take(i), args) {
                Some(m) => !(m.level.len() == 0 && is_repeat_msg(#[trigger] msgs[i])),
                None => true,
            },
        build_fold(msgs, args) is Some,
    ensures
        build_fold(msgs, args) matches Some(m) && warmup_ordered(m.level),
    decreases msgs.len(),
{
    if msgs.len() == 0 {
        assert(flat_steps(Seq::<NodeShape>::empty()) =~= Seq::<NodeShape>::empty());
    } else {
        let prefix = msgs.drop_last();
        assert(msgs.take(msgs.len() - 1) =~= prefix);
        assert forall|i: int| 0 <= i < prefix.len() implies match build_fold(
            prefix.take(i),
            args,
        ) {
            Some(m) => !(m.level.len() == 0 && is_repeat_msg(#[trigger] prefix[i])),
            None => true,
        } by {
            assert(prefix.take(i) =~= msgs.take(i));
            assert(prefix[i] == msgs[i]);
        }
        lemma_first_step_warmup(prefix, args);
        let m = build_fold(prefix, args)->Some_0;
        assert(msgs[msgs.len() - 1] == msgs.last());
        lemma_build_msg_preserves_warmup(m, msgs.last(), args);
    }
}

/// Compile an ordered message sequence into the interval tree, in one
/// left-to-right scan over one mutable current level.  The result
/// realizes the builder fold exactly, node identifiers aside; a
/// repeat-closing record whose count is inconsistent with the current
/// level fails with a structure error and no output.
pub fn build_workout_data(messages: &Vec<FitMessage>, args: &Option<FitWorkoutArgs>) -> (r:
    Result<WorkoutData, TranscodeError>)
    ensures
        match r {
            Ok(wd) => {
                &&& build_fold(messages@.map_values(|m: FitMessage| m@), *args) matches Some(bm)
                    && {
                    &&& nodes_match(wd.structure@, bm.level)
                    &&& wd.total_time == bm.total_time
                    &&& wd.title@ == header_string(bm.title)
                    &&& wd.description@ == header_string(bm.description)
                }
                &&& wd.workout_type@ == "bike"@
                &&& wd.from_tp == false
                &&& wd.allow_deletion == true
            },
            Err(e) => {
                &&& e == TranscodeError::Structure
                &&& build_fold(messages@.map_values(|m: FitMessage| m@), *args) is None
            },
        },
{
    let ghost mmodels = messages@.map_values(|m: FitMessage| m@);
    let ghost args0 = *args;
    let mut structure: Vec<WorkoutDataStructure> = Vec::new();
    let mut total_time: u32 = 0;
    let mut title: String = String::new();
    let mut title_set: bool = false;
    let mut description: String = String::new();
    let mut desc_set: bool = false;
    let time_label: String = "time".to_owned();
    let repeat_label: String = "repeat_until_steps_cmplt".to_owned();
    assert(mmodels.take(0) =~= Seq::<FitMessageModel>::empty());
    let mut i: usize = 0;
    while i < messages.len()
        invariant
            0 <= i <= messages.len(),
            mmodels == messages@.map_values(|m: FitMessage| m@),
            args0 == *args,
            time_label@ == "time"@,
            repeat_label@ == "repeat_until_steps_cmplt"@,
            build_fold(mmodels.take(i as int), args0) matches Some(bm) && {
                &&& nodes_match(structure@, bm.level)
                &&& total_time == bm.total_time
                &&& (title_set <==> bm.title is Some)
                &&& title@ == header_string(bm.title)
                &&& (desc_set <==> bm.description is Some)
                &&& description@ == header_string(bm.description)
            },
        decreases messages.len() - i,
    {
        let ghost bm = build_fold(mmodels.take(i as int), args0)->Some_0;
        proof {
            assert(mmodels.take(i + 1).drop_last() =~= mmodels.take(i as int));
            assert(mmodels.take(i + 1).last() == mmodels[i as int]);
        }
        match &messages[i] {
            FitMessage::Data(d) => {
                match d.kind {
                    MessageKind::FileId => {
                        match extract_field8(&d.fields) {
                            Some(text) => {
                                if !desc_set {
                                    description = text;
                                    desc_set = true;
                                }
                            },
                            None => {},
                        }
                    },
                    MessageKind::Workout => {
                        match extract_field8(&d.fields) {
                            Some(text) => {
                                if !title_set {
                                    title = text;
                                    title_set = true;
                                }
                            },
                            None => {},
                        }
                    },
                    MessageKind::WorkoutStep => {
                        let step = get_workout_step(&d.fields);
                        if step.duration_type == time_label {
                            let mut minv: u32 = unbias_target(step.target_value_low);
                            let mut maxv: u32 = unbias_target(step.target_value_high);
                            let sec: u32 = step.duration_value / 1000;
                            let mut dur: u32 = sec;
                            match args {
                                Some(a) => {
                                    a.apply_operation(&mut minv, &mut maxv, &mut dur);
                                },
                                None => {},
                            }
                            let warm: bool = structure.len() == 0;
                            let intensity: String = if warm {
                                "WarmUp".to_owned()
                            } else {
                                "Active".to_owned()
                            };
                            let name = step_display_name(step.step_name.as_str(), step.index);
                            let node_id = new_node_id();
                            let node = WorkoutDataStructure {
                                workout_type: "Step".to_owned(),
                                name,
                                uuid: node_id,
                                open_duration: "false".to_owned(),
                                length: WorkoutDataStructureLength {
                                    unit: "Second".to_owned(),
                                    value: dur,
                                    max_value: None,
                                    min_value: None,
                                },
                                intensity_class: intensity,
                                intensity_target: Some(
                                    WorkoutDataStructureLength {
                                        unit: "PowerCustom".to_owned(),
                                        value: 0,
                                        max_value: Some(maxv),
                                        min_value: Some(minv),
                                    },
                                ),
                                steps: None,
                            };
                            proof {
                                assert(node_matches(
                                    node,
                                    step_shape(step@, args0, bm.level.len() == 0),
                                ));
                            }
                            structure.push(node);
                            total_time = total_time.saturating_add(sec);
                            proof {
                                let bm2 = build_step(bm, step@, args0)->Some_0;
                                assert(structure@.last() == node);
                                assert forall|k: int| 0 <= k < structure@.len() implies
                                    node_matches(#[trigger] structure@[k], bm2.level[k]) by {
                                    if k < structure@.len() - 1 {
                                        assert(structure@[k] == structure@.drop_last()[k]);
                                    }
                                }
                            }
                        } else if step.duration_type == repeat_label {
                            let idx32: u32 = step.index as u32;
                            if step.duration_value > idx32 {
                                proof {
                                    lemma_fold_none_propagates(mmodels, args0, i + 1);
                                }
                                return Err(TranscodeError::Structure);
                            }
                            let count32: u32 = idx32 - step.duration_value;
                            let count: usize = count32 as usize;
                            if count > structure.len() {
                                proof {
                                    lemma_fold_none_propagates(mmodels, args0, i + 1);
                                }
                                return Err(TranscodeError::Structure);
                            }
                            let keep: usize = structure.len() - count;
                            let ghost pre_level = structure@;
                            let children = structure.split_off(keep);
                            let name = step_display_name(step.step_name.as_str(), step.index);
                            let node_id = new_node_id();
                            let node = WorkoutDataStructure {
                                workout_type: "Repetition".to_owned(),
                                name,
                                uuid: node_id,
                                open_duration: "false".to_owned(),
                                length: WorkoutDataStructureLength {
                                    unit: "Repetition".to_owned(),
                                    value: step.target_value,
                                    max_value: None,
                                    min_value: None,
                                },
                                intensity_class: "Active".to_owned(),
                                intensity_target: None,
                                steps: Some(children),
                            };
                            proof {
                                let shape = NodeShape::Repetition {
                                    name: display_name_spec(step.step_name@, step.index),
                                    count: step.target_value,
                                    children: bm.level.skip(keep as int),
                                };
                                assert forall|k: int| 0 <= k < count implies node_matches(
                                    #[trigger] node.steps->Some_0@[k],
                                    bm.level.skip(keep as int)[k],
                                ) by {
                                    assert(node.steps->Some_0@[k] == pre_level[keep + k]);
                                }
                                assert(node_matches(node, shape));
                            }
                            structure.push(node);
                            proof {
                                let bm2 = build_step(bm, step@, args0)->Some_0;
                                assert forall|k: int| 0 <= k < structure@.len() implies
                                    node_matches(#[trigger] structure@[k], bm2.level[k]) by {
                                    if k < structure@.len() - 1 {
                                        assert(structure@[k] == structure@.drop_last()[k]);
                                        assert(bm2.level[k] == bm.level.take(keep as int)[k]);
                                    }
                                }
                            }
                        }
                    },
                    _ => {},
                }
            },
            FitMessage::Definition(_) => {},
        }
        i = i + 1;
    }
    proof {
        assert(mmodels.take(messages@.len() as int) =~= mmodels);
    }
    Ok(
        WorkoutData {
            workout_type: "bike".to_owned(),
            from_tp: false,
            allow_deletion: true,
            total_time,
            title,
            description,
            structure,
        },
    )
}

} // verus!

