use std::path::Path;

use termion::{clear, cursor, style};
use workouts::enums::{DayOfWeek, WorkoutType};
use workouts::exercise::{Exercise, ExerciseSet};
use workouts::locked_u_int::LockedUInt;
use workouts::playback::{cues, Cue, Key, PlayState, Playback, Step};
use workouts::screen::{Screen, ScreenType};
use workouts::workout::Workout;

fn one_set() -> ExerciseSet {
    ExerciseSet {
        exercises: (
            Exercise::new("Squat", "Bend the knees"),
            Exercise::new("Lunge", "Step forward"),
            Exercise::new("Plank", "Hold still"),
        ),
        exercise_type: WorkoutType::LowerBodyAbs,
    }
}

fn workout(k: usize, warmup: u64) -> Workout {
    let mut sets = Vec::new();
    for _ in 0..k {
        sets.push(one_set());
    }
    let mut w = Workout::new("Test", None, DayOfWeek::Monday, WorkoutType::LowerBodyAbs, sets);
    w.warmup_length = warmup;
    w
}

fn session(k: usize, warmup: u64) -> Playback {
    Playback::new(workout(k, warmup).screens()).unwrap()
}

fn at(value: usize, max: usize, elapsed: u64) -> PlayState {
    PlayState { cursor: LockedUInt { value, max }, elapsed }
}

fn state_of(step: Step) -> PlayState {
    match step {
        Step::Redraw(s) => s,
        Step::Sleep(s) => s,
        Step::Quit => panic!("the session ended"),
    }
}

fn same(a: PlayState, b: PlayState) -> bool {
    a.cursor == b.cursor && a.elapsed == b.elapsed
}

#[test]
fn no_session_without_screens() {
    assert!(Playback::new(Vec::new()).is_none());
}

#[test]
fn no_session_when_the_seconds_cannot_be_counted() {
    assert!(Playback::new(workout(1, u64::MAX).screens()).is_none());
    assert!(Playback::new(workout(1, u64::MAX - 900).screens()).is_some());
}

#[test]
fn session_starts_on_the_first_screen() {
    let p = session(1, 300);
    let s = p.start();
    assert_eq!(p.len(), 13);
    assert_eq!(p.total(), 1200);
    assert!(same(s, at(0, 12, 0)));
}

#[test]
fn q_quits_from_any_position() {
    let p = session(1, 300);
    for value in 0..13 {
        for elapsed in [0u64, 5, 19, 20, 700] {
            assert!(matches!(p.step(at(value, 12, elapsed), Some(Key::Char('q'))), Step::Quit));
        }
    }
}

#[test]
fn other_characters_do_not_quit() {
    let p = session(1, 300);
    for c in ['Q', 'x', ' ', '\n'] {
        let step = p.step(at(3, 12, 4), Some(Key::Char(c)));
        assert!(matches!(step, Step::Sleep(_)));
        assert!(same(state_of(step), at(3, 12, 5)));
    }
}

#[test]
fn up_and_left_go_back_one_screen() {
    let p = session(1, 300);
    for key in [Key::Up, Key::Left] {
        let step = p.step(at(5, 12, 9), Some(key));
        assert!(matches!(step, Step::Redraw(_)));
        assert!(same(state_of(step), at(4, 12, 0)));
    }
}

#[test]
fn up_on_the_first_screen_restarts_it() {
    let p = session(1, 300);
    let step = p.step(at(0, 12, 9), Some(Key::Up));
    assert!(matches!(step, Step::Redraw(_)));
    assert!(same(state_of(step), at(0, 12, 0)));
}

#[test]
fn home_goes_to_the_first_screen() {
    let p = session(1, 300);
    let step = p.step(at(7, 12, 9), Some(Key::Home));
    assert!(matches!(step, Step::Redraw(_)));
    assert!(same(state_of(step), at(0, 12, 0)));
}

#[test]
fn end_goes_to_the_last_screen() {
    let p = session(1, 300);
    let step = p.step(at(7, 12, 9), Some(Key::End));
    assert!(matches!(step, Step::Redraw(_)));
    assert!(same(state_of(step), at(12, 12, 0)));
}

#[test]
fn down_and_right_go_forward_one_screen() {
    let p = session(1, 300);
    for key in [Key::Down, Key::Right] {
        let step = p.step(at(5, 12, 9), Some(key));
        assert!(matches!(step, Step::Redraw(_)));
        assert!(same(state_of(step), at(6, 12, 0)));
    }
}

#[test]
fn down_and_right_on_the_last_screen_change_nothing_but_the_clock() {
    let p = session(1, 300);
    for key in [Key::Down, Key::Right] {
        let step = p.step(at(12, 12, 9), Some(key));
        assert!(matches!(step, Step::Sleep(_)));
        assert!(same(state_of(step), at(12, 12, 10)));
        assert!(same(state_of(step), state_of(p.step(at(12, 12, 9), None))));
    }
}

#[test]
fn other_keys_and_no_key_let_a_second_pass() {
    let p = session(1, 300);
    for key in [Some(Key::Other), None] {
        let step = p.step(at(0, 12, 9), key);
        assert!(matches!(step, Step::Sleep(_)));
        assert!(same(state_of(step), at(0, 12, 10)));
    }
}

#[test]
fn screen_gives_way_after_exactly_its_seconds() {
    let p = session(1, 300);
    let mut s = at(1, 12, 0);
    for n in 1..20u64 {
        s = p.tick(s);
        assert!(same(s, at(1, 12, n)));
    }
    s = p.tick(s);
    assert!(same(s, at(2, 12, 0)));
}

#[test]
fn warmup_gives_way_after_its_configured_length() {
    let p = session(1, 45);
    let mut s = p.start();
    for _ in 0..44 {
        s = p.tick(s);
    }
    assert!(same(s, at(0, 12, 44)));
    assert!(same(p.tick(s), at(1, 12, 0)));
}

#[test]
fn whole_session_plays_through_to_the_cooldown() {
    let p = session(2, 300);
    let mut s = p.start();
    let total = p.total();
    for _ in 0..(total - 600) {
        s = p.tick(s);
    }
    assert!(same(s, at(24, 24, 0)));
}

#[test]
fn cooldown_is_dwelt_on() {
    let p = session(1, 300);
    let mut s = at(12, 12, 0);
    for _ in 0..700 {
        s = p.tick(s);
    }
    assert!(same(s, at(12, 12, 700)));
}

#[test]
fn elapsed_saturates() {
    let p = session(1, 300);
    assert!(same(p.tick(at(12, 12, u64::MAX)), at(12, 12, u64::MAX)));
    assert_eq!(p.elapsed(&at(12, 12, u64::MAX)), u64::MAX);
}

#[test]
fn cursor_never_leaves_the_screens() {
    let p = session(1, 300);
    let keys = [
        Some(Key::Down), Some(Key::End), Some(Key::Right), None, Some(Key::Up), Some(Key::Home),
        Some(Key::Left), Some(Key::Other), Some(Key::Down), Some(Key::Down), None, Some(Key::End),
        Some(Key::Down), Some(Key::Char('x')),
    ];
    let mut s = p.start();
    for round in 0..40 {
        s = state_of(p.step(s, keys[round % keys.len()]));
        assert!(s.cursor.value <= s.cursor.max);
        assert_eq!(s.cursor.max, 12);
    }
}

#[test]
fn tick_sounds_at_seven_seconds_left_unless_last() {
    assert_eq!(cues(&ScreenType::Exercise(1, 20), 7, 13, false), vec![Cue::Tick]);
    assert_eq!(cues(&ScreenType::Exercise(1, 20), 7, 13, true), Vec::<Cue>::new());
    assert_eq!(cues(&ScreenType::Exercise(1, 20), 6, 14, false), Vec::<Cue>::new());
    assert_eq!(cues(&ScreenType::Exercise(1, 20), 8, 12, false), Vec::<Cue>::new());
}

#[test]
fn start_of_a_screen_sounds_by_its_kind() {
    assert_eq!(cues(&ScreenType::Exercise(1, 20), 20, 0, false), vec![Cue::Bell]);
    assert_eq!(cues(&ScreenType::Rest(60), 60, 0, false), vec![Cue::Whistle]);
    assert_eq!(cues(&ScreenType::Cooldown(600), 600, 0, true), vec![Cue::Whistle]);
    assert_eq!(cues(&ScreenType::WarmUp(300), 300, 0, false), Vec::<Cue>::new());
    assert_eq!(cues(&ScreenType::Rest(60), 59, 1, false), Vec::<Cue>::new());
}

#[test]
fn both_cues_sound_on_the_first_second_of_a_seven_second_screen() {
    assert_eq!(cues(&ScreenType::Rest(7), 7, 0, false), vec![Cue::Tick, Cue::Whistle]);
    assert_eq!(cues(&ScreenType::Exercise(2, 7), 7, 0, false), vec![Cue::Tick, Cue::Bell]);
    assert_eq!(cues(&ScreenType::WarmUp(7), 7, 0, false), vec![Cue::Tick]);
}

#[test]
fn tick_sounds_once_on_each_screen_but_the_last() {
    let p = session(1, 300);
    let mut s = p.start();
    let mut ticks = vec![0usize; 13];
    let mut starts = vec![0usize; 13];
    for _ in 0..(p.total() + 50) {
        for cue in p.cues(&s) {
            match cue {
                Cue::Tick => ticks[s.cursor.value] += 1,
                _ => starts[s.cursor.value] += 1,
            }
        }
        s = p.tick(s);
    }
    assert_eq!(ticks, vec![1, 1, 1, 1, 1, 1, 1, 1, 1, 1, 1, 1, 0]);
    assert_eq!(starts, vec![0, 1, 1, 1, 1, 1, 1, 1, 1, 1, 1, 1, 1]);
}

#[test]
fn tick_never_sounds_on_a_screen_shorter_than_seven_seconds() {
    let p = session(1, 5);
    let mut s = p.start();
    for _ in 0..5 {
        assert!(!p.cues(&s).contains(&Cue::Tick));
        s = p.tick(s);
    }
    assert_eq!(s.cursor.value, 1);
}

#[test]
fn cue_names_and_files() {
    assert_eq!(Cue::Tick.name(), "tick");
    assert_eq!(Cue::Bell.name(), "bell");
    assert_eq!(Cue::Whistle.name(), "whistle");
    assert_eq!(Cue::Tick.file_name(), "tick.wav");
    assert_eq!(Cue::Bell.file_name(), "bell.wav");
    assert_eq!(Cue::Whistle.file_name(), "whistle.wav");
}

#[test]
fn cue_path_is_in_the_sounds_directory() {
    let expected = Path::new("/etc/xdg").join("workouts").join("sounds").join("bell.wav");
    assert_eq!(Path::new(&Cue::Bell.path("/etc/xdg")), expected.as_path());
}

#[test]
fn kind_beyond_the_end_is_the_cooldown() {
    let p = session(1, 300);
    assert_eq!(p.kind_at(0), ScreenType::WarmUp(300));
    assert_eq!(p.kind_at(12), ScreenType::Cooldown(600));
    assert_eq!(p.kind_at(13), ScreenType::Cooldown(600));
    assert_eq!(p.kind_at(usize::MAX), ScreenType::Cooldown(600));
}

#[test]
fn session_elapsed_adds_the_screens_before() {
    let p = session(1, 300);
    assert_eq!(p.elapsed(&at(0, 12, 11)), 11);
    assert_eq!(p.elapsed(&at(1, 12, 3)), 303);
    assert_eq!(p.elapsed(&at(5, 12, 0)), 300 + 3 * 20 + 60);
    assert_eq!(p.elapsed(&at(12, 12, 600)), 1200);
    assert_eq!(p.elapsed(&at(40, 12, 1)), 1201);
}

fn drawn(te: &str, tr: &str, ce: &str, cr: &str, heading: &str, screen: &Screen) -> String {
    let left = cursor::Left(u16::MAX);
    format!(
        "{}{}{}Total Elapsed: {}\n{}Total Remaining: {}\n{}Current Elapsed: {}\n{}Current Remaining: {}\n{}{}{}\n{}{}",
        clear::All,
        cursor::Goto(1, 1),
        left,
        te,
        left,
        tr,
        left,
        ce,
        left,
        cr,
        style::Bold,
        heading,
        style::Reset,
        screen.output,
        left,
    )
}

#[test]
fn first_frame_shows_the_warmup() {
    let w = workout(1, 300);
    let p = Playback::new(w.screens()).unwrap();
    let frame = p.frame(&p.start());
    assert_eq!(frame.cues, Vec::<Cue>::new());
    assert_eq!(
        frame.text,
        drawn("00:00:00", "00:20:00", "00:00:00", "00:05:00", "WARMING UP!", &w.screens()[0])
    );
}

#[test]
fn exercise_frame_shows_its_slot_and_clocks() {
    let w = workout(1, 300);
    let p = Playback::new(w.screens()).unwrap();
    let frame = p.frame(&at(2, 12, 13));
    assert_eq!(frame.cues, vec![Cue::Tick]);
    assert_eq!(
        frame.text,
        drawn("00:05:33", "00:14:27", "00:00:13", "00:00:07", "SET 2", &w.screens()[2])
    );
}

#[test]
fn rest_frame_starts_with_the_whistle() {
    let w = workout(1, 300);
    let p = Playback::new(w.screens()).unwrap();
    let frame = p.frame(&at(4, 12, 0));
    assert_eq!(frame.cues, vec![Cue::Whistle]);
    assert_eq!(
        frame.text,
        drawn("00:06:00", "00:14:00", "00:00:00", "00:01:00", "REST!", &w.screens()[4])
    );
}

#[test]
fn cooldown_frame_goes_into_overtime() {
    let w = workout(1, 300);
    let p = Playback::new(w.screens()).unwrap();
    let on_time = p.render(&at(12, 12, 600));
    assert_eq!(
        on_time,
        drawn("00:20:00", "00:00:00", "00:10:00", "00:00:00", "Aah - Feel better?", &w.screens()[12])
    );
    let late = p.render(&at(12, 12, 601));
    assert_eq!(
        late,
        drawn("00:20:01", "OVERTIME!", "00:10:01", "OVERTIME!", "Aah - Feel better?", &w.screens()[12])
    );
}

#[test]
fn frame_beyond_the_end_shows_the_cooldown() {
    let p = session(1, 300);
    let text = p.render(&at(50, 12, 0));
    assert_eq!(
        text,
        drawn("00:20:00", "00:00:00", "00:00:00", "00:10:00", "Aah - Feel better?", &Screen::cooldown())
    );
}
