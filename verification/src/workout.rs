//! A workout, and the sequence of screens that it is played as.

use vstd::prelude::*;
use vstd::string::StringExecFns;
use crate::enums::{DayOfWeek, WorkoutType};
use crate::paths::DATA_DIR;
use crate::exercise::{Exercise, ExerciseModel, ExerciseSet, ExerciseSetModel};
use crate::screen::{Screen, ScreenModel, EXERCISE_SECONDS, REST_SECONDS, WARM_UP_SECONDS};
use crate::text::{debug_string, debug_text};
use crate::util::{
    bold, bold_text, default_colour, default_colour_text, just_left, left_text, plain, plain_text,
    red, red_text,
};

verus! {

/// What is shown in place of an exercise that is not a name and a
/// description.
pub const INVALID_EXERCISE: &'static str =
    "This Exercise is invalid - it does not have a title and description!";

/// A workout: what it is called, where it comes from, when and what it is
/// for, how long its warm-up lasts, and its exercise sets in order.
#[derive(Debug)]
pub struct Workout {
    pub title: String,
    pub link: String,
    pub day: DayOfWeek,
    pub warmup_length: u64,
    pub workout_type: WorkoutType,
    pub sets: Vec<ExerciseSet>,
}

/// What a workout holds.
pub struct WorkoutModel {
    pub title: Seq<char>,
    pub link: Seq<char>,
    pub day: DayOfWeek,
    pub warmup_length: u64,
    pub workout_type: WorkoutType,
    pub sets: Seq<ExerciseSetModel>,
}

impl View for Workout {
    type V = WorkoutModel;

    open spec fn view(&self) -> WorkoutModel {
        WorkoutModel {
            title: self.title@,
            link: self.link@,
            day: self.day,
            warmup_length: self.warmup_length,
            workout_type: self.workout_type,
            sets: self.sets.deep_view(),
        }
    }
}

impl DeepView for Workout {
    type V = WorkoutModel;

    open spec fn deep_view(&self) -> WorkoutModel {
        self@
    }
}

/// The screen in place `slot` of the twelve that a set is played as. The
/// set opens with the warm-up where it is the first and with a rest where it
/// is not; then come three rounds of its three exercise slots, a rest
/// between the rounds. The last slot of the last set has the cooldown up
/// next.
pub open spec fn set_screen(
    set: ExerciseSetModel,
    slot: int,
    first: bool,
    last: bool,
    warmup_length: u64,
) -> ScreenModel {
    if slot == 0 {
        if first {
            ScreenModel::warmup_with_set(set, warmup_length)
        } else {
            ScreenModel::rest_with_set(set)
        }
    } else if slot % 4 == 0 {
        ScreenModel::rest_with_set(set)
    } else if slot == 11 && last {
        ScreenModel::exercise_set_with_cooldown(set, 3)
    } else {
        ScreenModel::exercise_set_with_rest(set, (slot % 4) as usize)
    }
}

/// What is shown for a list of texts that is not an exercise, given the
/// listing of the texts: the complaint in bold red, and the listing on the
/// line below.
pub open spec fn invalid_exercise_text(listing: Seq<char>) -> Seq<char> {
    "\n"@ + left_text() + bold_text() + red_text() + INVALID_EXERCISE@ + plain_text()
        + default_colour_text() + "\n"@ + left_text() + listing + "\n\n"@
}

/// What is shown for an exercise that is given as a list of texts. Two texts
/// are a name and a description: the name in bold red, the description in
/// plain text on the line below. Any other number of texts is shown as
/// invalid, with the texts listed.
pub open spec fn exercise_shown(parts: Seq<Seq<char>>) -> Seq<char> {
    if parts.len() == 2 {
        "\n"@ + left_text() + bold_text() + red_text() + parts[0] + "\n"@ + left_text()
            + plain_text() + default_colour_text() + parts[1] + "\n\n"@
    } else {
        invalid_exercise_text(debug_text(parts))
    }
}

/// What is shown for a set that is given as lists of texts: its exercises,
/// one after the other.
pub open spec fn set_shown(set: Seq<Seq<Seq<char>>>) -> Seq<char> {
    set.map_values(|parts: Seq<Seq<char>>| exercise_shown(parts)).flatten()
}

/// The seconds that a sequence of screens is timed for, all together.
pub open spec fn total_seconds(screens: Seq<ScreenModel>) -> nat
    decreases screens.len(),
{
    if screens.len() == 0 {
        0
    } else {
        (total_seconds(screens.drop_last()) + screens.last().screen_type.seconds()) as nat
    }
}

impl WorkoutModel {
    /// The screen at index `i` of the session: that of its set and slot, and
    /// the cooldown from the end of the last set on.
    pub open spec fn screen(self, i: int) -> ScreenModel {
        if 0 <= i < 12 * self.sets.len() {
            set_screen(
                self.sets[i / 12],
                i % 12,
                i / 12 == 0,
                i / 12 == self.sets.len() - 1,
                self.warmup_length,
            )
        } else {
            ScreenModel::cooldown()
        }
    }

    /// The screens of the session in order: twelve for each set, and the
    /// cooldown.
    pub open spec fn screens(self) -> Seq<ScreenModel> {
        Seq::new(12 * self.sets.len() + 1, |i: int| self.screen(i))
    }

    /// The seconds that the whole session is timed for.
    pub open spec fn duration(self) -> nat {
        total_seconds(self.screens())
    }

    /// The seconds that the session is timed for, as a formula: the cooldown
    /// alone where there is no set; else the warm-up, a rest before each later
    /// set, nine slots and two rests for each set, and the cooldown.
    pub open spec fn duration_formula(self) -> nat {
        if self.sets.len() == 0 {
            600
        } else {
            (self.warmup_length + 60 * (self.sets.len() - 1) + (9 * 20 + 2 * 60) * self.sets.len()
                + 600) as nat
        }
    }
}

/// What one more screen adds to the time of those before it.
pub proof fn lemma_total_seconds_step(screens: Seq<ScreenModel>, i: int)
    requires
        0 <= i < screens.len(),
    ensures
        total_seconds(screens.take(i + 1)) == total_seconds(screens.take(i))
            + screens[i].screen_type.seconds(),
{
    assert(screens.take(i + 1).drop_last() =~= screens.take(i));
}

/// The time of the first screens of a sequence is no more than that of them
/// all.
pub proof fn lemma_total_seconds_monotonic(screens: Seq<ScreenModel>, i: int)
    requires
        0 <= i <= screens.len(),
    ensures
        total_seconds(screens.take(i)) <= total_seconds(screens),
    decreases screens.len() - i,
{
    if i == screens.len() {
        assert(screens.take(i) =~= screens);
    } else {
        lemma_total_seconds_step(screens, i);
        lemma_total_seconds_monotonic(screens, i + 1);
    }
}

/// The seconds of a screen that stands in a set, by its slot: the lead-in is
/// the warm-up or a rest, every fourth slot is a rest, the others are
/// exercise slots.
pub proof fn lemma_set_screen_seconds(
    set: ExerciseSetModel,
    slot: int,
    first: bool,
    last: bool,
    warmup_length: u64,
)
    requires
        0 <= slot < 12,
    ensures
        set_screen(set, slot, first, last, warmup_length).screen_type.seconds() == (if slot == 0
            && first {
            warmup_length
        } else if slot % 4 == 0 {
            REST_SECONDS
        } else {
            EXERCISE_SECONDS
        }),
{
}

impl WorkoutModel {
    /// A session has twelve screens for each set, and the cooldown.
    pub proof fn lemma_screens_len(self)
        ensures
            self.screens().len() == 12 * self.sets.len() + 1,
            self.screens().last() == ScreenModel::cooldown(),
    {
    }

    /// What the screen in place `slot` of set `index` adds to the time of the
    /// screens before it.
    pub proof fn lemma_slot_seconds(self, index: int, slot: int)
        requires
            0 <= index < self.sets.len(),
            0 <= slot < 12,
        ensures
            total_seconds(self.screens().take(12 * index + slot + 1)) == total_seconds(
                self.screens().take(12 * index + slot),
            ) + (if slot == 0 && index == 0 {
                self.warmup_length
            } else if slot % 4 == 0 {
                REST_SECONDS
            } else {
                EXERCISE_SECONDS
            }),
    {
        let i = 12 * index + slot;
        assert(i / 12 == index);
        assert(i % 12 == slot);
        lemma_total_seconds_step(self.screens(), i);
        lemma_set_screen_seconds(
            self.sets[index],
            slot,
            index == 0,
            index == self.sets.len() - 1,
            self.warmup_length,
        );
    }

    /// The seconds that the first `n` sets are timed for, all together.
    pub proof fn lemma_sets_seconds(self, n: int)
        requires
            0 <= n <= self.sets.len(),
        ensures
            total_seconds(self.screens().take(12 * n)) == (if n == 0 {
                0
            } else {
                self.warmup_length + 60 * (n - 1) + 300 * n
            }),
        decreases n,
    {
        if n == 0 {
            assert(self.screens().take(0) =~= Seq::<ScreenModel>::empty());
        } else {
            self.lemma_sets_seconds(n - 1);
            self.lemma_slot_seconds(n - 1, 0);
            self.lemma_slot_seconds(n - 1, 1);
            self.lemma_slot_seconds(n - 1, 2);
            self.lemma_slot_seconds(n - 1, 3);
            self.lemma_slot_seconds(n - 1, 4);
            self.lemma_slot_seconds(n - 1, 5);
            self.lemma_slot_seconds(n - 1, 6);
            self.lemma_slot_seconds(n - 1, 7);
            self.lemma_slot_seconds(n - 1, 8);
            self.lemma_slot_seconds(n - 1, 9);
            self.lemma_slot_seconds(n - 1, 10);
            self.lemma_slot_seconds(n - 1, 11);
        }
    }

    /// The session lasts as long as its formula says.
    pub proof fn lemma_duration_formula(self)
        ensures
            self.duration() == self.duration_formula(),
    {
        let screens = self.screens();
        let k = self.sets.len() as int;
        self.lemma_sets_seconds(k);
        lemma_total_seconds_step(screens, 12 * k);
        assert(screens.take(12 * k + 1) =~= screens);
    }

    /// With one exercise set, the session lasts for the warm-up, nine
    /// exercise slots, two rests and the cooldown. (With more sets there is a
    /// rest before each later set as well, and with none there is no
    /// warm-up.)
    pub proof fn lemma_duration_one_set(self)
        requires
            self.sets.len() == 1 || (self.sets.len() == 0 && self.warmup_length == 0),
        ensures
            self.duration() == self.warmup_length + self.sets.len() * (9 * 20 + 2 * 60) + 600,
    {
        self.lemma_duration_formula();
    }
}

impl Workout {
    /// A workout with a warm-up of five minutes. Without a link it has the
    /// empty text in its place.
    pub fn new(
        title: &str,
        link: Option<String>,
        day: DayOfWeek,
        workout_type: WorkoutType,
        sets: Vec<ExerciseSet>,
    ) -> (r: Workout)
        ensures
            r@ == (WorkoutModel {
                title: title@,
                link: match link {
                    Some(l) => l@,
                    None => Seq::empty(),
                },
                day,
                warmup_length: WARM_UP_SECONDS,
                workout_type,
                sets: sets.deep_view(),
            }),
    {
        Workout {
            title: title.to_owned(),
            link: match link {
                Some(link) => link,
                None => String::new(),
            },
            day,
            warmup_length: WARM_UP_SECONDS,
            workout_type,
            sets,
        }
    }

    /// The screens that the workout is played as, in order.
    pub fn screens(&self) -> (result: Vec<Screen>)
        ensures
            result.deep_view() == self@.screens(),
            result@.len() == 12 * self.sets@.len() + 1,
    {
        let mut result: Vec<Screen> = Vec::new();
        let n = self.sets.len();
        let mut i: usize = 0;
        while i < n
            invariant
                i <= n,
                n == self.sets@.len(),
                result@.len() == 12 * i,
                forall|j: int| 0 <= j < result@.len() ==> (#[trigger] result@[j])@ == self@.screen(j),
            decreases n - i,
        {
            let ghost before = result@;
            let mut next = set_screens(&self.sets[i], i == 0, i == n - 1, self.warmup_length);
            let ghost added = next@;
            result.append(&mut next);
            proof {
                assert forall|j: int| 0 <= j < result@.len() implies (#[trigger] result@[j])@
                    == self@.screen(j) by {
                    if j < 12 * i {
                        assert(result@[j] == before[j]);
                    } else {
                        assert(result@[j] == added[j - 12 * i]);
                        assert(j / 12 == i as int);
                        assert(j % 12 == j - 12 * i);
                    }
                }
            }
            i = i + 1;
        }
        result.push(Screen::cooldown());
        assert(result.deep_view() =~= self@.screens());
        result
    }

    /// Shows a set that is given as lists of texts.
    pub fn show_set(set: &[Vec<String>]) -> (result: String)
        ensures
            result@ == set_shown(set.deep_view()),
    {
        let ghost all = set.deep_view();
        let ghost show = |parts: Seq<Seq<char>>| exercise_shown(parts);
        let mut result = String::new();
        let mut i: usize = 0;
        assert(all.take(0).map_values(show) =~= Seq::<Seq<char>>::empty());
        while i < set.len()
            invariant
                i <= set.len(),
                all == set.deep_view(),
                show == |parts: Seq<Seq<char>>| exercise_shown(parts),
                result@ == all.take(i as int).map_values(show).flatten(),
            decreases set.len() - i,
        {
            let ghost before = all.take(i as int).map_values(show);
            let exercise = Self::show_exercise(set[i].as_slice());
            result.append(exercise.as_str());
            proof {
                assert(set@[i as int].deep_view() == all[i as int]);
                assert(all.take(i + 1).map_values(show) =~= before.push(show(all[i as int])));
                before.lemma_flatten_push(show(all[i as int]));
            }
            i = i + 1;
        }
        assert(all.take(i as int) =~= all);
        result
    }

    /// Shows a single exercise that is given as a list of texts.
    pub fn show_exercise(exercise: &[String]) -> (result: String)
        ensures
            result@ == exercise_shown(exercise.deep_view()),
    {
        if exercise.len() == 2 {
            let left = just_left();
            let mut result = String::from_str("\n");
            result.append(left.as_str());
            result.append(bold().as_str());
            result.append(red().as_str());
            result.append(exercise[0].as_str());
            result.append("\n");
            result.append(left.as_str());
            result.append(plain().as_str());
            result.append(default_colour().as_str());
            result.append(exercise[1].as_str());
            result.append("\n\n");
            result
        } else {
            Self::show_invalid(debug_string(exercise).as_str())
        }
    }

    /// Shows a list of texts that is not an exercise, given the listing of
    /// the texts.
    pub fn show_invalid(listing: &str) -> (result: String)
        ensures
            result@ == invalid_exercise_text(listing@),
    {
        let left = just_left();
        let mut result = String::from_str("\n");
        result.append(left.as_str());
        result.append(bold().as_str());
        result.append(red().as_str());
        result.append(INVALID_EXERCISE);
        result.append(plain().as_str());
        result.append(default_colour().as_str());
        result.append("\n");
        result.append(left.as_str());
        result.append(listing);
        result.append("\n\n");
        result
    }

    /// The path, from the directory that holds the data directory, of the
    /// file that the workout is saved in: in the data directory, under the
    /// title of the workout, as a YAML file.
    pub fn save_name(&self) -> (r: String)
        ensures
            r@ == DATA_DIR@ + "/"@ + self.title@ + ".yml"@,
    {
        let mut r = DATA_DIR.to_owned();
        r.append("/");
        r.append(self.title.as_str());
        r.append(".yml");
        r
    }

    /// The seconds that the whole session is timed for.
    pub fn duration(&self) -> (d: u64)
        requires
            self@.duration() <= u64::MAX,
        ensures
            d == self@.duration(),
    {
        let screens = self.screens();
        session_seconds(&screens).unwrap()
    }
}

/// The exercise set that the default workout repeats.
pub open spec fn default_set() -> ExerciseSetModel {
    ExerciseSetModel {
        exercises: (
            ExerciseModel {
                name: "Do stuff"@,
                description: "This is how you do that stuff"@,
                selected: false,
            },
            ExerciseModel {
                name: "Do other stuff"@,
                description: "This is how you do that other stuff"@,
                selected: false,
            },
            ExerciseModel {
                name: "Do more stuff"@,
                description: "This is how you do that stuff"@,
                selected: false,
            },
        ),
        exercise_type: WorkoutType::LowerBodyAbs,
    }
}

/// The workout that stands in where none is given: three times the same set.
pub open spec fn default_workout() -> WorkoutModel {
    WorkoutModel {
        title: "Default Workout"@,
        link: Seq::empty(),
        day: DayOfWeek::Monday,
        warmup_length: WARM_UP_SECONDS,
        workout_type: WorkoutType::UpperBodyAbs,
        sets: seq![default_set(), default_set(), default_set()],
    }
}

/// Makes the exercise set that the default workout repeats.
fn make_default_set() -> (r: ExerciseSet)
    ensures
        r@ == default_set(),
{
    ExerciseSet {
        exercises: (
            Exercise::new("Do stuff", "This is how you do that stuff"),
            Exercise::new("Do other stuff", "This is how you do that other stuff"),
            Exercise::new("Do more stuff", "This is how you do that stuff"),
        ),
        exercise_type: WorkoutType::LowerBodyAbs,
    }
}

impl Default for Workout {
    fn default() -> (r: Workout)
        ensures
            r@ == default_workout(),
    {
        let mut sets: Vec<ExerciseSet> = Vec::new();
        sets.push(make_default_set());
        sets.push(make_default_set());
        sets.push(make_default_set());
        assert(sets.deep_view() =~= seq![default_set(), default_set(), default_set()]);
        Workout::new(
            "Default Workout",
            None,
            DayOfWeek::Monday,
            WorkoutType::UpperBodyAbs,
            sets,
        )
    }
}

/// The seconds that a sequence of screens is timed for, all together, where
/// that number fits.
pub fn session_seconds(screens: &Vec<Screen>) -> (r: Option<u64>)
    ensures
        r == (if total_seconds(screens.deep_view()) <= u64::MAX {
            Some(total_seconds(screens.deep_view()) as u64)
        } else {
            None
        }),
{
    let ghost all = screens.deep_view();
    let mut sum: u64 = 0;
    let mut i: usize = 0;
    assert(all.take(0) =~= Seq::<ScreenModel>::empty());
    while i < screens.len()
        invariant
            i <= screens.len(),
            all == screens.deep_view(),
            sum == total_seconds(all.take(i as int)),
        decreases screens.len() - i,
    {
        proof {
            lemma_total_seconds_step(all, i as int);
            lemma_total_seconds_monotonic(all, i + 1);
        }
        match sum.checked_add(screens[i].screen_type.duration()) {
            Some(next) => {
                sum = next;
            },
            None => {
                return None;
            },
        }
        i = i + 1;
    }
    assert(all.take(i as int) =~= all);
    Some(sum)
}

/// The twelve screens that one set is played as.
fn set_screens(set: &ExerciseSet, first: bool, last: bool, warmup_length: u64) -> (r: Vec<Screen>)
    ensures
        r@.len() == 12,
        forall|slot: int|
            0 <= slot < 12 ==> (#[trigger] r@[slot])@ == set_screen(
                set@,
                slot,
                first,
                last,
                warmup_length,
            ),
{
    let mut r: Vec<Screen> = Vec::new();
    if first {
        r.push(Screen::warmup_with_set(set, warmup_length));
    } else {
        r.push(Screen::rest_with_set(set));
    }
    r.push(Screen::exercise_set_with_rest(set, 1));
    r.push(Screen::exercise_set_with_rest(set, 2));
    r.push(Screen::exercise_set_with_rest(set, 3));
    r.push(Screen::rest_with_set(set));
    r.push(Screen::exercise_set_with_rest(set, 1));
    r.push(Screen::exercise_set_with_rest(set, 2));
    r.push(Screen::exercise_set_with_rest(set, 3));
    r.push(Screen::rest_with_set(set));
    r.push(Screen::exercise_set_with_rest(set, 1));
    r.push(Screen::exercise_set_with_rest(set, 2));
    if last {
        r.push(Screen::exercise_set_with_cooldown(set, 3));
    } else {
        r.push(Screen::exercise_set_with_rest(set, 3));
    }
    r
}

} // verus!
