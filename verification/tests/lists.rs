use workouts::enums::{DayOfWeek, WorkoutType};
use workouts::workout::Workout;
use workouts::workout_list::WorkoutList;

fn plan() -> Vec<Workout> {
    vec![
        Workout::new("a", None, DayOfWeek::Monday, WorkoutType::LowerBodyAbs, Vec::new()),
        Workout::new("b", None, DayOfWeek::Tuesday, WorkoutType::UpperBodyAbs, Vec::new()),
        Workout::new("c", None, DayOfWeek::Monday, WorkoutType::UpperBodyAbs, Vec::new()),
        Workout::new("d", None, DayOfWeek::Friday, WorkoutType::LowerBodyAbs, Vec::new()),
        Workout::new("e", None, DayOfWeek::Monday, WorkoutType::LowerBodyAbs, Vec::new()),
    ]
}

fn titles(list: &[&Workout]) -> Vec<String> {
    list.iter().map(|w| w.title.clone()).collect()
}

#[test]
fn filter_by_day_keeps_the_workouts_of_that_day_in_order() {
    let all = plan();
    assert_eq!(titles(&all.filter_by_day(&DayOfWeek::Monday)), vec!["a", "c", "e"]);
    assert_eq!(titles(&all.filter_by_day(&DayOfWeek::Tuesday)), vec!["b"]);
}

#[test]
fn filter_by_day_of_a_day_without_workouts_is_empty() {
    assert!(plan().filter_by_day(&DayOfWeek::Sunday).is_empty());
    assert!(Vec::<Workout>::new().filter_by_day(&DayOfWeek::Monday).is_empty());
}

#[test]
fn filter_by_type_keeps_the_workouts_of_that_type_in_order() {
    let all = plan();
    assert_eq!(titles(&all.filter_by_type(&WorkoutType::LowerBodyAbs)), vec!["a", "d", "e"]);
    assert_eq!(titles(&all.filter_by_type(&WorkoutType::UpperBodyAbs)), vec!["b", "c"]);
}

#[test]
fn slices_filter_like_vectors() {
    let all = plan();
    let part: &[Workout] = &all[1..];
    assert_eq!(titles(&part.filter_by_day(&DayOfWeek::Monday)), vec!["c", "e"]);
    assert_eq!(titles(&part.filter_by_type(&WorkoutType::LowerBodyAbs)), vec!["d", "e"]);
}

#[test]
fn filters_hand_out_the_workouts_themselves() {
    let all = plan();
    let found = all.filter_by_day(&DayOfWeek::Friday);
    assert_eq!(found.len(), 1);
    assert!(std::ptr::eq(found[0], &all[3]));
}
