use fit_transcoder::TranscodeError;
use fit_transcoder::messages::{DataRecord, FieldRecord, FitMessage, FitValue, MessageKind};
use fit_transcoder::workout::{
    FitWorkoutArgs, Operation, TargetType, WorkoutData, WorkoutDataStructure, build_workout_data,
    get_workout_step, is_fit,
};

fn step_fields(
    name: &str,
    duration_type: &str,
    duration_value: u32,
    target_value: u32,
    low: u32,
    high: u32,
    index: u16,
) -> Vec<FieldRecord> {
    vec![
        FieldRecord::new(0, FitValue::Text(name.to_string())),
        FieldRecord::new(1, FitValue::Label(duration_type.to_string())),
        FieldRecord::new(2, FitValue::U32(duration_value)),
        FieldRecord::new(3, FitValue::Label("power".to_string())),
        FieldRecord::new(4, FitValue::U32(target_value)),
        FieldRecord::new(5, FitValue::U32(low)),
        FieldRecord::new(6, FitValue::U32(high)),
        FieldRecord::new(7, FitValue::Label("active".to_string())),
        FieldRecord::new(254, FitValue::U16(index)),
    ]
}

fn step_msg(
    name: &str,
    duration_type: &str,
    duration_value: u32,
    target_value: u32,
    low: u32,
    high: u32,
    index: u16,
) -> FitMessage {
    FitMessage::Data(DataRecord {
        local_num: 0,
        kind: MessageKind::WorkoutStep,
        fields: step_fields(name, duration_type, duration_value, target_value, low, high, index),
    })
}

fn build(messages: Vec<FitMessage>) -> WorkoutData {
    build_workout_data(&messages, &None).expect("build should succeed")
}

#[test]
fn decode_step_field_table() {
    let fields = step_fields("warm", "time", 30000, 7, 1195, 1205, 4);
    let step = get_workout_step(&fields);
    assert_eq!(step.step_name, "warm");
    assert_eq!(step.duration_type, "time");
    assert_eq!(step.duration_value, 30000);
    assert_eq!(step.target_type, "power");
    assert_eq!(step.target_value, 7);
    assert_eq!(step.target_value_low, 1195);
    assert_eq!(step.target_value_high, 1205);
    assert_eq!(step.intensity, "active");
    assert_eq!(step.index, 4);
}

#[test]
fn decode_step_last_occurrence_wins() {
    let mut fields = step_fields("a", "time", 1000, 0, 1000, 1000, 0);
    fields.push(FieldRecord::new(2, FitValue::U32(2000)));
    let step = get_workout_step(&fields);
    assert_eq!(step.duration_value, 2000);
}

#[test]
fn decode_step_ignores_unknown_fields_and_mismatched_types() {
    let fields = vec![
        FieldRecord::new(99, FitValue::U32(7)),
        FieldRecord::new(2, FitValue::Label("oops".to_string())),
    ];
    let step = get_workout_step(&fields);
    assert_eq!(step.duration_value, 0);
    assert_eq!(step.step_name, "");
}

// Scenario A: three "time" steps of 30000/60000/30000 ms with biased
// bounds (1195, 1205) give three steps of 30/60/30 s, bounds
// (195, 205), the first warm-up and the rest active, total 120 s.
#[test]
fn scenario_a_three_time_steps() {
    let wd = build(vec![
        step_msg("s", "time", 30000, 0, 1195, 1205, 0),
        step_msg("s", "time", 60000, 0, 1195, 1205, 1),
        step_msg("s", "time", 30000, 0, 1195, 1205, 2),
    ]);
    assert_eq!(wd.total_time, 120);
    assert_eq!(wd.structure.len(), 3);
    let durations: Vec<u32> = wd.structure.iter().map(|n| n.length.value).collect();
    assert_eq!(durations, vec![30, 60, 30]);
    for (i, node) in wd.structure.iter().enumerate() {
        assert_eq!(node.workout_type, "Step");
        assert_eq!(node.open_duration, "false");
        assert_eq!(node.length.unit, "Second");
        let target = node.intensity_target.as_ref().expect("step has a target");
        assert_eq!(target.unit, "PowerCustom");
        assert_eq!(target.min_value, Some(195));
        assert_eq!(target.max_value, Some(205));
        if i == 0 {
            assert_eq!(node.intensity_class, "WarmUp");
        } else {
            assert_eq!(node.intensity_class, "Active");
        }
    }
}

// Scenario B: two steps and a closing repeat whose count covers both
// give a single repetition with repeat count 5 holding the two steps
// in order.  The record's count is its sequence index less its
// duration value, so indices 1 and 2 with duration value 1 make the
// count 2.
#[test]
fn scenario_b_repeat_wraps_two_steps() {
    let wd = build(vec![
        step_msg("a", "time", 30000, 0, 1195, 1205, 1),
        step_msg("b", "time", 60000, 0, 1295, 1305, 2),
        step_msg("rep", "repeat_until_steps_cmplt", 1, 5, 0, 0, 3),
    ]);
    assert_eq!(wd.structure.len(), 1);
    let rep = &wd.structure[0];
    assert_eq!(rep.workout_type, "Repetition");
    assert_eq!(rep.length.unit, "Repetition");
    assert_eq!(rep.length.value, 5);
    assert_eq!(rep.intensity_class, "Active");
    assert!(rep.intensity_target.is_none());
    let children = rep.steps.as_ref().expect("repetition holds its children");
    assert_eq!(children.len(), 2);
    assert_eq!(children[0].name, "a-1");
    assert_eq!(children[1].name, "b-2");
    assert_eq!(children[0].intensity_class, "WarmUp");
    assert_eq!(children[1].intensity_class, "Active");
}

// The count formula itself: sequence index 3 less duration value 2 is
// 1, so only the last prior node is wrapped and the level keeps its
// first step beside the new repetition.
#[test]
fn repeat_count_formula_wraps_suffix_only() {
    let wd = build(vec![
        step_msg("a", "time", 30000, 0, 1195, 1205, 1),
        step_msg("b", "time", 60000, 0, 1295, 1305, 2),
        step_msg("rep", "repeat_until_steps_cmplt", 2, 5, 0, 0, 3),
    ]);
    assert_eq!(wd.structure.len(), 2);
    assert_eq!(wd.structure[0].workout_type, "Step");
    assert_eq!(wd.structure[1].workout_type, "Repetition");
    let children = wd.structure[1].steps.as_ref().unwrap();
    assert_eq!(children.len(), 1);
    assert_eq!(children[0].name, "b-2");
}

// Scenario C: a repeat whose count exceeds the current level's length
// fails with a structure error and produces no tree.
#[test]
fn scenario_c_count_too_large_is_structure_error() {
    let messages = vec![
        step_msg("a", "time", 30000, 0, 1195, 1205, 0),
        step_msg("rep", "repeat_until_steps_cmplt", 0, 5, 0, 0, 9),
    ];
    let r = build_workout_data(&messages, &None);
    assert!(matches!(r, Err(TranscodeError::Structure)));
}

// A repeat whose duration value exceeds its index would make the
// count negative: also a structure error.
#[test]
fn negative_count_is_structure_error() {
    let messages = vec![step_msg("rep", "repeat_until_steps_cmplt", 7, 5, 0, 0, 2)];
    let r = build_workout_data(&messages, &None);
    assert!(matches!(r, Err(TranscodeError::Structure)));
}

// An unknown duration type contributes no node and leaves the total
// duration untouched.
#[test]
fn unknown_duration_type_is_ignored() {
    let with_unknown = build(vec![
        step_msg("a", "time", 30000, 0, 1195, 1205, 0),
        step_msg("x", "open", 99000, 3, 1400, 1500, 1),
        step_msg("b", "time", 60000, 0, 1195, 1205, 2),
    ]);
    let without = build(vec![
        step_msg("a", "time", 30000, 0, 1195, 1205, 0),
        step_msg("b", "time", 60000, 0, 1195, 1205, 2),
    ]);
    assert_eq!(with_unknown.total_time, 90);
    assert_eq!(without.total_time, 90);
    assert_eq!(with_unknown.structure.len(), 2);
    let names: Vec<&str> = with_unknown.structure.iter().map(|n| n.name.as_str()).collect();
    assert_eq!(names, vec!["a-0", "b-2"]);
}

// Target bounds are unbiased by exactly 1000, saturating at zero.
#[test]
fn target_bounds_unbiased_exactly() {
    let wd = build(vec![step_msg("s", "time", 1000, 0, 1000, 2000, 0)]);
    let target = wd.structure[0].intensity_target.as_ref().unwrap();
    assert_eq!(target.min_value, Some(0));
    assert_eq!(target.max_value, Some(1000));
    let wd2 = build(vec![step_msg("s", "time", 1000, 0, 999, 1001, 0)]);
    let target2 = wd2.structure[0].intensity_target.as_ref().unwrap();
    assert_eq!(target2.min_value, Some(0));
    assert_eq!(target2.max_value, Some(1));
}

// Steps formed inside a later repetition keep their original order
// and intensity classes; the first step ever appended stays the only
// warm-up one.
#[test]
fn warmup_only_on_first_appended_step() {
    let wd = build(vec![
        step_msg("a", "time", 30000, 0, 1195, 1205, 0),
        step_msg("b", "time", 30000, 0, 1195, 1205, 1),
        step_msg("rep", "repeat_until_steps_cmplt", 0, 3, 0, 0, 2),
        step_msg("c", "time", 30000, 0, 1195, 1205, 3),
    ]);
    assert_eq!(wd.structure.len(), 2);
    let rep_children = wd.structure[0].steps.as_ref().unwrap();
    assert_eq!(rep_children[0].intensity_class, "WarmUp");
    assert_eq!(rep_children[1].intensity_class, "Active");
    assert_eq!(wd.structure[1].intensity_class, "Active");
}

#[test]
fn node_ids_are_rendered_identifiers() {
    let wd = build(vec![
        step_msg("a", "time", 30000, 0, 1195, 1205, 0),
        step_msg("b", "time", 30000, 0, 1195, 1205, 1),
    ]);
    assert_eq!(wd.structure[0].uuid.len(), 36);
    assert_eq!(wd.structure[1].uuid.len(), 36);
    assert_ne!(wd.structure[0].uuid, wd.structure[1].uuid);
}

#[test]
fn display_names_join_name_and_index() {
    let wd = build(vec![step_msg("run", "time", 1000, 0, 1000, 1000, 12)]);
    assert_eq!(wd.structure[0].name, "run-12");
}

fn header_msg(kind: MessageKind, text: &str) -> FitMessage {
    FitMessage::Data(DataRecord {
        local_num: 0,
        kind,
        fields: vec![FieldRecord::new(8, FitValue::Text(text.to_string()))],
    })
}

#[test]
fn header_strings_first_seen() {
    let wd = build(vec![
        header_msg(MessageKind::FileId, "notes"),
        header_msg(MessageKind::Workout, "ride"),
        header_msg(MessageKind::FileId, "later"),
        header_msg(MessageKind::Workout, "later2"),
    ]);
    assert_eq!(wd.description, "notes");
    assert_eq!(wd.title, "ride");
    assert_eq!(wd.workout_type, "bike");
    assert!(!wd.from_tp);
    assert!(wd.allow_deletion);
}

#[test]
fn default_workout_is_empty_bike() {
    let wd = WorkoutData::default();
    assert_eq!(wd.workout_type, "bike");
    assert!(!wd.from_tp);
    assert!(wd.allow_deletion);
    assert_eq!(wd.total_time, 0);
    assert_eq!(wd.title, "");
    assert_eq!(wd.description, "");
    assert!(wd.structure.is_empty());
}

#[test]
fn adjustment_applies_to_power_bounds() {
    let args = Some(FitWorkoutArgs {
        operation: Operation::Add,
        target_type: TargetType::Power,
        target_value: 10,
    });
    let messages = vec![step_msg("s", "time", 30000, 0, 1195, 1205, 0)];
    let wd = build_workout_data(&messages, &args).unwrap();
    let target = wd.structure[0].intensity_target.as_ref().unwrap();
    assert_eq!(target.min_value, Some(205));
    assert_eq!(target.max_value, Some(215));
    assert_eq!(wd.structure[0].length.value, 30);
    assert_eq!(wd.total_time, 30);
}

#[test]
fn adjustment_applies_to_duration_only() {
    let args = Some(FitWorkoutArgs {
        operation: Operation::Multiply,
        target_type: TargetType::Duration,
        target_value: 2,
    });
    let messages = vec![step_msg("s", "time", 30000, 0, 1195, 1205, 0)];
    let wd = build_workout_data(&messages, &args).unwrap();
    let target = wd.structure[0].intensity_target.as_ref().unwrap();
    assert_eq!(target.min_value, Some(195));
    assert_eq!(target.max_value, Some(205));
    assert_eq!(wd.structure[0].length.value, 60);
    assert_eq!(wd.total_time, 30);
}

#[test]
fn apply_to_value_saturates_and_guards_zero_division() {
    let add = FitWorkoutArgs {
        operation: Operation::Add,
        target_type: TargetType::Power,
        target_value: u32::MAX,
    };
    let mut v: u32 = 5;
    add.apply_to_value(&mut v);
    assert_eq!(v, u32::MAX);

    let sub = FitWorkoutArgs {
        operation: Operation::Subtract,
        target_type: TargetType::Power,
        target_value: 10,
    };
    let mut v2: u32 = 3;
    sub.apply_to_value(&mut v2);
    assert_eq!(v2, 0);

    let mul = FitWorkoutArgs {
        operation: Operation::Multiply,
        target_type: TargetType::Power,
        target_value: 3,
    };
    let mut v3: u32 = 2_000_000_000;
    mul.apply_to_value(&mut v3);
    assert_eq!(v3, u32::MAX);

    let div0 = FitWorkoutArgs {
        operation: Operation::Divide,
        target_type: TargetType::Power,
        target_value: 0,
    };
    let mut v4: u32 = 42;
    div0.apply_to_value(&mut v4);
    assert_eq!(v4, 42);

    let div = FitWorkoutArgs {
        operation: Operation::Divide,
        target_type: TargetType::Power,
        target_value: 4,
    };
    let mut v5: u32 = 42;
    div.apply_to_value(&mut v5);
    assert_eq!(v5, 10);
}

#[test]
fn apply_operation_routes_by_target_type() {
    let args = FitWorkoutArgs {
        operation: Operation::Add,
        target_type: TargetType::Duration,
        target_value: 7,
    };
    let mut min: u32 = 1;
    let mut max: u32 = 2;
    let mut dur: u32 = 3;
    args.apply_operation(&mut min, &mut max, &mut dur);
    assert_eq!((min, max, dur), (1, 2, 10));
}

#[test]
fn empty_input_builds_empty_workout() {
    let wd = build(vec![]);
    assert_eq!(wd.structure.len(), 0);
    assert_eq!(wd.total_time, 0);
    assert_eq!(wd.title, "");
    assert_eq!(wd.description, "");
}

// A repeat with count zero before any step forms an empty repetition;
// the step that follows then finds a non-empty level and is marked
// active even though it is the first leaf step of the tree.
#[test]
fn count_zero_repeat_first_makes_first_step_active() {
    let wd = build(vec![
        step_msg("rep", "repeat_until_steps_cmplt", 1, 4, 0, 0, 1),
        step_msg("a", "time", 30000, 0, 1195, 1205, 2),
    ]);
    assert_eq!(wd.structure.len(), 2);
    assert_eq!(wd.structure[0].workout_type, "Repetition");
    assert_eq!(wd.structure[0].steps.as_ref().unwrap().len(), 0);
    assert_eq!(wd.structure[1].intensity_class, "Active");
}

#[test]
fn is_fit_checks_name_shape() {
    assert!(is_fit(b"ride.fit"));
    assert!(is_fit(b"dir/ride.fit"));
    assert!(is_fit(b"a.b.fit"));
    assert!(!is_fit(b".fit"));
    assert!(!is_fit(b"dir/.fit"));
    assert!(!is_fit(b"ride.FIT"));
    assert!(!is_fit(b"ridefit"));
    assert!(!is_fit(b"ride.fit.gz"));
    assert!(!is_fit(b""));
}
