use termion::{clear, color, cursor, style};
use workouts::exercise::{Exercise, ExerciseSet};
use workouts::enums::WorkoutType;
use workouts::screen::{cooldown, rest, warmup, Screen, ScreenType};
use workouts::util::{clear_screen, just_left};

fn shown(name: &str, description: &str, selected: bool) -> String {
    format!(
        "\n{}{}{}{}{}\n{}{}{}{}\n\n",
        cursor::Left(u16::MAX),
        style::Bold,
        color::Fg(color::Red),
        if selected { " --> " } else { "     " },
        name,
        cursor::Left(u16::MAX),
        style::Reset,
        color::Fg(color::Reset),
        description,
    )
}

fn shown_set() -> String {
    format!(
        "{}\n{}\n{}\n",
        shown("Squat", "Bend the knees", false),
        shown("Lunge", "Step forward", false),
        shown("Plank", "Hold still", false)
    )
}

fn up_next() -> String {
    format!(
        "{}{}UP NEXT:{}",
        cursor::Left(u16::MAX),
        color::Fg(color::Red),
        color::Fg(color::Reset)
    )
}

fn sample_set() -> ExerciseSet {
    ExerciseSet {
        exercises: (
            Exercise::new("Squat", "Bend the knees"),
            Exercise::new("Lunge", "Step forward"),
            Exercise::new("Plank", "Hold still"),
        ),
        exercise_type: WorkoutType::LowerBodyAbs,
    }
}

const WARMUP_WORDS: &str = "Run in place, jumping-jacks, or anything to get your heart rate up.";
const REST_WORDS: &str = "Take a break, Get a drink of water, Take it easy!";

#[test]
fn just_left_is_the_sequence_of_termion() {
    assert_eq!(just_left(), "\x1B[65535D");
    assert_eq!(just_left(), format!("{}", cursor::Left(u16::MAX)));
}

#[test]
fn clear_screen_clears_and_goes_to_the_corner() {
    assert_eq!(clear_screen(), "\x1B[2J\x1B[1;1H");
    assert_eq!(clear_screen(), format!("{}{}", clear::All, cursor::Goto(1, 1)));
}

#[test]
fn exercise_text_has_name_and_description() {
    let e = Exercise::new("Squat", "Bend the knees");
    assert_eq!(e.to_string(), shown("Squat", "Bend the knees", false));
    assert_eq!(
        e.to_string(),
        "\n\x1B[65535D\x1B[1m\x1B[38;5;1m     Squat\n\x1B[65535D\x1B[m\x1B[39mBend the knees\n\n"
    );
}

#[test]
fn selected_exercise_has_the_arrow() {
    let mut e = Exercise::new("Squat", "Bend the knees");
    e.selected = true;
    assert_eq!(e.to_string(), shown("Squat", "Bend the knees", true));
}

#[test]
fn exercise_set_text_is_its_three_exercises() {
    assert_eq!(sample_set().to_string(), shown_set());
}

#[test]
fn narrative_entries_hold_the_fixed_words() {
    assert_eq!(warmup().name, "Warmup");
    assert_eq!(warmup().description, WARMUP_WORDS);
    assert_eq!(rest().name, "REST");
    assert_eq!(rest().description, REST_WORDS);
    assert_eq!(cooldown().name, "Cooldown");
    assert_eq!(cooldown().description, "Great Job!");
    assert!(!warmup().selected && !rest().selected && !cooldown().selected);
}

#[test]
fn warmup_screen_previews_the_set() {
    let s = Screen::warmup_with_set(&sample_set(), 300);
    assert_eq!(s.screen_type, ScreenType::WarmUp(300));
    assert_eq!(
        s.output,
        format!("{}{}{}", shown("Warmup", WARMUP_WORDS, false), up_next(), shown_set())
    );
}

#[test]
fn rest_screen_previews_the_set() {
    let s = Screen::rest_with_set(&sample_set());
    assert_eq!(s.screen_type, ScreenType::Rest(60));
    assert_eq!(
        s.output,
        format!("{}{}{}", shown("REST", REST_WORDS, false), up_next(), shown_set())
    );
}

#[test]
fn exercise_screen_previews_the_rest() {
    let s = Screen::exercise_set_with_rest(&sample_set(), 2);
    assert_eq!(s.screen_type, ScreenType::Exercise(2, 20));
    assert_eq!(
        s.output,
        format!("{}{}{}", shown_set(), up_next(), shown("REST", REST_WORDS, false))
    );
}

#[test]
fn last_exercise_screen_previews_the_cooldown() {
    let s = Screen::exercise_set_with_cooldown(&sample_set(), 3);
    assert_eq!(s.screen_type, ScreenType::Exercise(3, 20));
    assert_eq!(
        s.output,
        format!("{}{}{}", shown_set(), up_next(), shown("Cooldown", "Great Job!", false))
    );
}

#[test]
fn cooldown_screen_is_the_cooldown_entry() {
    let s = Screen::cooldown();
    assert_eq!(s.screen_type, ScreenType::Cooldown(600));
    assert_eq!(s.output, shown("Cooldown", "Great Job!", false));
}

#[test]
fn screen_text_ends_at_the_left_edge() {
    let s = Screen::cooldown();
    assert_eq!(s.to_string(), format!("{}{}", s.output, cursor::Left(u16::MAX)));
}

#[test]
fn screen_types_have_their_fixed_durations() {
    assert_eq!(ScreenType::warm_up(), ScreenType::WarmUp(300));
    assert_eq!(ScreenType::rest(), ScreenType::Rest(60));
    assert_eq!(ScreenType::exercise(2), ScreenType::Exercise(2, 20));
    assert_eq!(ScreenType::cooldown(), ScreenType::Cooldown(600));
    assert_eq!(ScreenType::warm_up().duration(), 300);
    assert_eq!(ScreenType::rest().duration(), 60);
    assert_eq!(ScreenType::exercise(1).duration(), 20);
    assert_eq!(ScreenType::cooldown().duration(), 600);
    assert_eq!(ScreenType::WarmUp(17).duration(), 17);
}

#[test]
fn headings_name_the_kind_of_screen() {
    assert_eq!(ScreenType::WarmUp(300).heading(), "WARMING UP!");
    assert_eq!(ScreenType::Rest(60).heading(), "REST!");
    assert_eq!(ScreenType::Exercise(3, 20).heading(), "SET 3");
    assert_eq!(ScreenType::Exercise(12, 20).heading(), "SET 12");
    assert_eq!(ScreenType::Cooldown(600).heading(), "Aah - Feel better?");
}
