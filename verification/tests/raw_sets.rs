use termion::{color, cursor, style};
use workouts::workout::Workout;

fn texts(parts: &[&str]) -> Vec<String> {
    parts.iter().map(|p| p.to_string()).collect()
}

fn valid(name: &str, description: &str) -> String {
    format!(
        "\n{}{}{}{}\n{}{}{}{}\n\n",
        cursor::Left(u16::MAX),
        style::Bold,
        color::Fg(color::Red),
        name,
        cursor::Left(u16::MAX),
        style::Reset,
        color::Fg(color::Reset),
        description,
    )
}

fn invalid(exercise: &[String]) -> String {
    format!(
        "\n{}{}{}This Exercise is invalid - it does not have a title and description!{}{}\n{}{:#?}\n\n",
        cursor::Left(u16::MAX),
        style::Bold,
        color::Fg(color::Red),
        style::Reset,
        color::Fg(color::Reset),
        cursor::Left(u16::MAX),
        exercise,
    )
}

#[test]
fn show_exercise_of_a_name_and_a_description() {
    let e = texts(&["Squat", "Bend the knees"]);
    assert_eq!(Workout::show_exercise(&e), valid("Squat", "Bend the knees"));
    assert_eq!(
        Workout::show_exercise(&e),
        "\n\x1B[65535D\x1B[1m\x1B[38;5;1mSquat\n\x1B[65535D\x1B[m\x1B[39mBend the knees\n\n"
    );
}

#[test]
fn show_exercise_of_one_text_is_invalid() {
    let e = texts(&["Squat"]);
    assert_eq!(Workout::show_exercise(&e), invalid(&e));
    assert!(Workout::show_exercise(&e).contains("[\n    \"Squat\",\n]"));
}

#[test]
fn show_exercise_of_no_text_is_invalid() {
    let e: Vec<String> = Vec::new();
    assert_eq!(Workout::show_exercise(&e), invalid(&e));
    assert!(Workout::show_exercise(&e).contains("\x1B[65535D[]\n\n"));
}

#[test]
fn show_exercise_of_three_texts_is_invalid() {
    let e = texts(&["Squat", "Bend", "the knees"]);
    assert_eq!(Workout::show_exercise(&e), invalid(&e));
}

#[test]
fn show_invalid_puts_the_listing_under_the_complaint() {
    assert_eq!(
        Workout::show_invalid("LISTING"),
        "\n\x1B[65535D\x1B[1m\x1B[38;5;1mThis Exercise is invalid - it does not have a title and description!\x1B[m\x1B[39m\n\x1B[65535DLISTING\n\n"
    );
}

#[test]
fn show_set_is_its_exercises_in_order() {
    let set = vec![texts(&["A", "a"]), texts(&["B"]), texts(&["C", "c"])];
    let expected = format!("{}{}{}", valid("A", "a"), invalid(&set[1]), valid("C", "c"));
    assert_eq!(Workout::show_set(&set), expected);
}

#[test]
fn show_set_of_nothing_is_empty() {
    assert_eq!(Workout::show_set(&[]), "");
}
