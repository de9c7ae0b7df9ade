use workouts::enums::{DayOfWeek, WorkoutType};
use workouts::exercise::{Exercise, ExerciseSet};
use workouts::import::WorkoutImport;

fn texts(parts: &[&str]) -> Vec<String> {
    parts.iter().map(|p| p.to_string()).collect()
}

fn import_of(sets: Vec<Vec<Vec<String>>>) -> WorkoutImport {
    WorkoutImport {
        title: "Imported".to_string(),
        link: "https://example.org".to_string(),
        day: DayOfWeek::Wednesday,
        warmup_length: 240,
        workout_type: WorkoutType::LowerBodyAbs,
        sets,
    }
}

fn three() -> Vec<Vec<String>> {
    vec![
        texts(&["Squat", "Bend", "the", "knees"]),
        texts(&["Lunge", "Step forward"]),
        texts(&["Plank"]),
    ]
}

#[test]
fn exercise_new_is_not_selected() {
    let e = Exercise::new("Squat", "Bend the knees");
    assert_eq!(e.name, "Squat");
    assert_eq!(e.description, "Bend the knees");
    assert!(!e.selected);
}

#[test]
fn exercise_from_vec_takes_the_first_text_as_name() {
    let e = Exercise::from_vec(texts(&["Squat", "Bend the knees"]));
    assert_eq!(e.name, "Squat");
    assert_eq!(e.description, "Bend the knees");
    assert!(!e.selected);
}

#[test]
fn exercise_from_vec_joins_the_other_texts_without_a_gap() {
    let e = Exercise::from_vec(texts(&["Squat", "Bend ", "the ", "knees"]));
    assert_eq!(e.name, "Squat");
    assert_eq!(e.description, "Bend the knees");
}

#[test]
fn exercise_from_vec_of_a_name_alone_has_no_description() {
    let e = Exercise::from_vec(texts(&["Squat"]));
    assert_eq!(e.name, "Squat");
    assert_eq!(e.description, "");
}

#[test]
fn exercise_from_vec_of_nothing_is_empty() {
    let e = Exercise::from_vec(Vec::new());
    assert_eq!(e.name, "");
    assert_eq!(e.description, "");
}

#[test]
fn exercise_set_from_vec_keeps_the_order_and_the_type() {
    let set = ExerciseSet::from_vec(
        vec![texts(&["A", "a"]), texts(&["B", "b"]), texts(&["C", "c"])],
        &WorkoutType::UpperBodyAbs,
    );
    assert_eq!(set.exercises.0.name, "A");
    assert_eq!(set.exercises.0.description, "a");
    assert_eq!(set.exercises.1.name, "B");
    assert_eq!(set.exercises.1.description, "b");
    assert_eq!(set.exercises.2.name, "C");
    assert_eq!(set.exercises.2.description, "c");
    assert_eq!(set.exercise_type, WorkoutType::UpperBodyAbs);
}

#[test]
fn clones_are_equal_field_by_field() {
    let set = ExerciseSet::from_vec(
        vec![texts(&["A", "a"]), texts(&["B", "b"]), texts(&["C", "c"])],
        &WorkoutType::UpperBodyAbs,
    );
    let copy = set.clone();
    assert_eq!(copy.exercises.0.name, "A");
    assert_eq!(copy.exercises.1.description, "b");
    assert_eq!(copy.exercises.2.name, "C");
    assert_eq!(copy.exercise_type, WorkoutType::UpperBodyAbs);
}

#[test]
fn compress_joins_the_description_with_spaces() {
    let w = import_of(vec![three()]).compress();
    assert_eq!(
        w.sets,
        vec![vec![
            texts(&["Squat", "Bend the knees"]),
            texts(&["Lunge", "Step forward"]),
            texts(&["Plank", ""]),
        ]]
    );
}

#[test]
fn compress_keeps_the_other_fields() {
    let w = import_of(vec![three(), three()]).compress();
    assert_eq!(w.title, "Imported");
    assert_eq!(w.link, "https://example.org");
    assert_eq!(w.day, DayOfWeek::Wednesday);
    assert_eq!(w.warmup_length, 240);
    assert_eq!(w.workout_type, WorkoutType::LowerBodyAbs);
    assert_eq!(w.sets.len(), 2);
}

#[test]
fn compress_agrees_with_std_join() {
    let parts = texts(&["Name", "a", "", "b c", "d"]);
    let w = import_of(vec![vec![parts.clone()]]).compress();
    assert_eq!(w.sets[0][0], vec![parts[0].clone(), parts[1..].join(" ")]);
}

#[test]
fn compress_twice_is_compress_once() {
    let once = import_of(vec![three()]).compress();
    let sets = once.sets.clone();
    let twice = once.compress();
    assert_eq!(twice.sets, sets);
}

#[test]
fn is_named_wants_a_text_in_every_exercise() {
    assert!(import_of(vec![three()]).is_named());
    assert!(import_of(Vec::new()).is_named());
    assert!(import_of(vec![Vec::new()]).is_named());
    assert!(!import_of(vec![three(), vec![texts(&["A"]), Vec::new()]]).is_named());
}

#[test]
fn is_complete_wants_three_exercises_in_every_set() {
    assert!(import_of(vec![three(), three()]).is_complete());
    assert!(import_of(Vec::new()).is_complete());
    assert!(!import_of(vec![three(), vec![texts(&["A"]), texts(&["B"])]]).is_complete());
    let mut four = three();
    four.push(texts(&["Extra"]));
    assert!(!import_of(vec![four]).is_complete());
}

#[test]
fn upgrade_makes_sets_of_the_type_of_the_workout() {
    let w = import_of(vec![three(), three()]).compress().upgrade();
    assert_eq!(w.title, "Imported");
    assert_eq!(w.link, "https://example.org");
    assert_eq!(w.day, DayOfWeek::Wednesday);
    assert_eq!(w.warmup_length, 240);
    assert_eq!(w.workout_type, WorkoutType::LowerBodyAbs);
    assert_eq!(w.sets.len(), 2);
    for set in w.sets.iter() {
        assert_eq!(set.exercise_type, WorkoutType::LowerBodyAbs);
        assert_eq!(set.exercises.0.name, "Squat");
        assert_eq!(set.exercises.0.description, "Bend the knees");
        assert_eq!(set.exercises.1.name, "Lunge");
        assert_eq!(set.exercises.1.description, "Step forward");
        assert_eq!(set.exercises.2.name, "Plank");
        assert_eq!(set.exercises.2.description, "");
    }
    assert_eq!(w.screens().len(), 25);
}

#[test]
fn upgrade_of_no_sets_is_a_workout_without_sets() {
    let w = import_of(Vec::new()).upgrade();
    assert!(w.sets.is_empty());
    assert_eq!(w.screens().len(), 1);
}
