//! The timed screens that a session steps through, and the fixed texts that
//! the screens between the exercises show.

use vstd::prelude::*;
use vstd::string::StringExecFns;
use crate::exercise::{Exercise, ExerciseModel, ExerciseSet, ExerciseSetModel};
use crate::text::{decimal, decimal_string};
use crate::util::{
    default_colour, default_colour_text, just_left, left_text, red, red_text,
};

verus! {

/// How long the warm-up lasts where a workout says nothing else.
pub const WARM_UP_SECONDS: u64 = 300;

/// How long a rest lasts.
pub const REST_SECONDS: u64 = 60;

/// How long one exercise slot lasts.
pub const EXERCISE_SECONDS: u64 = 20;

/// How long the cooldown is timed for.
pub const COOLDOWN_SECONDS: u64 = 600;

pub const WARMUP_NAME: &'static str = "Warmup";

pub const WARMUP_TEXT: &'static str =
    "Run in place, jumping-jacks, or anything to get your heart rate up.";

pub const REST_NAME: &'static str = "REST";

pub const REST_TEXT: &'static str = "Take a break, Get a drink of water, Take it easy!";

pub const COOLDOWN_NAME: &'static str = "Cooldown";

pub const COOLDOWN_TEXT: &'static str = "Great Job!";

/// The words that announce what comes after the current screen.
pub const UP_NEXT: &'static str = "UP NEXT:";

pub const WARM_UP_HEADING: &'static str = "WARMING UP!";

pub const REST_HEADING: &'static str = "REST!";

pub const EXERCISE_HEADING: &'static str = "SET ";

pub const COOLDOWN_HEADING: &'static str = "Aah - Feel better?";

/// The kind of a screen, with the seconds that it is timed for. An exercise
/// screen also holds the number of its slot in the set.
#[derive(Copy, Clone, Debug, PartialEq, Eq, Structural)]
pub enum ScreenType {
    WarmUp(u64),
    Rest(u64),
    Exercise(usize, u64),
    Cooldown(u64),
}

/// One timed unit of a session: what it shows and what kind it is.
#[derive(Debug)]
pub struct Screen {
    pub output: String,
    pub screen_type: ScreenType,
}

/// What a screen holds.
pub struct ScreenModel {
    pub output: Seq<char>,
    pub screen_type: ScreenType,
}

impl View for Screen {
    type V = ScreenModel;

    open spec fn view(&self) -> ScreenModel {
        ScreenModel { output: self.output@, screen_type: self.screen_type }
    }
}

impl DeepView for Screen {
    type V = ScreenModel;

    open spec fn deep_view(&self) -> ScreenModel {
        self@
    }
}

impl Clone for Screen {
    fn clone(&self) -> (r: Screen)
        ensures
            r == *self,
    {
        Screen { output: self.output.clone(), screen_type: self.screen_type }
    }
}

/// What the warm-up screen shows in place of an exercise.
pub open spec fn warmup_model() -> ExerciseModel {
    ExerciseModel { name: WARMUP_NAME@, description: WARMUP_TEXT@, selected: false }
}

/// What a rest screen shows in place of an exercise.
pub open spec fn rest_model() -> ExerciseModel {
    ExerciseModel { name: REST_NAME@, description: REST_TEXT@, selected: false }
}

/// What the cooldown screen shows in place of an exercise.
pub open spec fn cooldown_model() -> ExerciseModel {
    ExerciseModel { name: COOLDOWN_NAME@, description: COOLDOWN_TEXT@, selected: false }
}

/// The banner between what a screen is about and what comes after it: the
/// words in red, from the left edge.
pub open spec fn up_next_text() -> Seq<char> {
    left_text() + red_text() + UP_NEXT@ + default_colour_text()
}

/// The entry that is shown during the warm-up.
pub fn warmup() -> (r: Exercise)
    ensures
        r@ == warmup_model(),
{
    Exercise::new(WARMUP_NAME, WARMUP_TEXT)
}

/// The entry that is shown between the rounds of exercises.
pub fn rest() -> (r: Exercise)
    ensures
        r@ == rest_model(),
{
    Exercise::new(REST_NAME, REST_TEXT)
}

/// The entry that is shown once the workout is over.
pub fn cooldown() -> (r: Exercise)
    ensures
        r@ == cooldown_model(),
{
    Exercise::new(COOLDOWN_NAME, COOLDOWN_TEXT)
}

/// The banner that announces the next screen.
fn up_next() -> (s: String)
    ensures
        s@ == up_next_text(),
{
    let mut s = just_left();
    s.append(red().as_str());
    s.append(UP_NEXT);
    s.append(default_colour().as_str());
    s
}

impl ScreenType {
    /// The seconds that a screen of this kind is timed for.
    pub open spec fn seconds(self) -> u64 {
        match self {
            ScreenType::WarmUp(d) => d,
            ScreenType::Rest(d) => d,
            ScreenType::Exercise(_, d) => d,
            ScreenType::Cooldown(d) => d,
        }
    }

    /// The line that stands above a screen of this kind.
    pub open spec fn heading_text(self) -> Seq<char> {
        match self {
            ScreenType::WarmUp(_) => WARM_UP_HEADING@,
            ScreenType::Rest(_) => REST_HEADING@,
            ScreenType::Exercise(id, _) => EXERCISE_HEADING@ + decimal(id as nat),
            ScreenType::Cooldown(_) => COOLDOWN_HEADING@,
        }
    }

    /// A warm-up of five minutes.
    pub fn warm_up() -> (r: ScreenType)
        ensures
            r == ScreenType::WarmUp(WARM_UP_SECONDS),
    {
        ScreenType::WarmUp(WARM_UP_SECONDS)
    }

    /// A rest of one minute.
    pub fn rest() -> (r: ScreenType)
        ensures
            r == ScreenType::Rest(REST_SECONDS),
    {
        ScreenType::Rest(REST_SECONDS)
    }

    /// The exercise slot `id`, of twenty seconds.
    pub fn exercise(id: usize) -> (r: ScreenType)
        ensures
            r == ScreenType::Exercise(id, EXERCISE_SECONDS),
    {
        ScreenType::Exercise(id, EXERCISE_SECONDS)
    }

    /// A cooldown of ten minutes.
    pub fn cooldown() -> (r: ScreenType)
        ensures
            r == ScreenType::Cooldown(COOLDOWN_SECONDS),
    {
        ScreenType::Cooldown(COOLDOWN_SECONDS)
    }

    /// The seconds that the screen is timed for.
    pub fn duration(&self) -> (d: u64)
        ensures
            d == self.seconds(),
    {
        match self {
            ScreenType::WarmUp(d) => *d,
            ScreenType::Rest(d) => *d,
            ScreenType::Exercise(_, d) => *d,
            ScreenType::Cooldown(d) => *d,
        }
    }

    /// The line that stands above the screen.
    pub fn heading(&self) -> (s: String)
        ensures
            s@ == self.heading_text(),
    {
        match self {
            ScreenType::WarmUp(_) => String::from_str(WARM_UP_HEADING),
            ScreenType::Rest(_) => String::from_str(REST_HEADING),
            ScreenType::Exercise(id, _) => {
                let mut s = String::from_str(EXERCISE_HEADING);
                s.append(decimal_string(*id as u64).as_str());
                s
            },
            ScreenType::Cooldown(_) => String::from_str(COOLDOWN_HEADING),
        }
    }
}

impl ScreenModel {
    /// The warm-up screen before the first set: the warm-up entry, then the
    /// set that is up next.
    pub open spec fn warmup_with_set(set: ExerciseSetModel, duration: u64) -> ScreenModel {
        ScreenModel {
            output: warmup_model().text() + up_next_text() + set.text(),
            screen_type: ScreenType::WarmUp(duration),
        }
    }

    /// An exercise screen that is followed by a rest: the set, then the rest
    /// entry as up next.
    pub open spec fn exercise_set_with_rest(set: ExerciseSetModel, id: usize) -> ScreenModel {
        ScreenModel {
            output: set.text() + up_next_text() + rest_model().text(),
            screen_type: ScreenType::Exercise(id, EXERCISE_SECONDS),
        }
    }

    /// The last exercise screen of a workout: the set, then the cooldown
    /// entry as up next.
    pub open spec fn exercise_set_with_cooldown(set: ExerciseSetModel, id: usize) -> ScreenModel {
        ScreenModel {
            output: set.text() + up_next_text() + cooldown_model().text(),
            screen_type: ScreenType::Exercise(id, EXERCISE_SECONDS),
        }
    }

    /// The cooldown screen: the cooldown entry alone.
    pub open spec fn cooldown() -> ScreenModel {
        ScreenModel {
            output: cooldown_model().text(),
            screen_type: ScreenType::Cooldown(COOLDOWN_SECONDS),
        }
    }

    /// A rest screen: the rest entry, then the set that is up next.
    pub open spec fn rest_with_set(set: ExerciseSetModel) -> ScreenModel {
        ScreenModel {
            output: rest_model().text() + up_next_text() + set.text(),
            screen_type: ScreenType::Rest(REST_SECONDS),
        }
    }

    /// The screen as it is written to the terminal: its text, with the cursor
    /// back at the left edge.
    pub open spec fn text(self) -> Seq<char> {
        self.output + left_text()
    }
}

impl Screen {
    /// The warm-up screen before the first set, timed for `duration` seconds.
    pub fn warmup_with_set(set: &ExerciseSet, duration: u64) -> (r: Screen)
        ensures
            r@ == ScreenModel::warmup_with_set(set@, duration),
    {
        let screen_type = ScreenType::WarmUp(duration);
        let mut output = warmup().to_string();
        output.append(up_next().as_str());
        output.append(set.to_string().as_str());
        Screen { output, screen_type }
    }

    /// The screen of exercise slot `id`, with a rest up next.
    pub fn exercise_set_with_rest(set: &ExerciseSet, id: usize) -> (r: Screen)
        ensures
            r@ == ScreenModel::exercise_set_with_rest(set@, id),
    {
        let screen_type = ScreenType::exercise(id);
        let mut output = set.to_string();
        output.append(up_next().as_str());
        output.append(rest().to_string().as_str());
        Screen { output, screen_type }
    }

    /// The screen of exercise slot `id`, with the cooldown up next.
    pub fn exercise_set_with_cooldown(set: &ExerciseSet, id: usize) -> (r: Screen)
        ensures
            r@ == ScreenModel::exercise_set_with_cooldown(set@, id),
    {
        let screen_type = ScreenType::exercise(id);
        let mut output = set.to_string();
        output.append(up_next().as_str());
        output.append(cooldown().to_string().as_str());
        Screen { output, screen_type }
    }

    /// The cooldown screen, which ends every session.
    pub fn cooldown() -> (r: Screen)
        ensures
            r@ == ScreenModel::cooldown(),
    {
        let screen_type = ScreenType::cooldown();
        let output = cooldown().to_string();
        Screen { output, screen_type }
    }

    /// A rest screen, with `set` up next.
    pub fn rest_with_set(set: &ExerciseSet) -> (r: Screen)
        ensures
            r@ == ScreenModel::rest_with_set(set@),
    {
        let screen_type = ScreenType::rest();
        let mut output = rest().to_string();
        output.append(up_next().as_str());
        output.append(set.to_string().as_str());
        Screen { output, screen_type }
    }

    /// The screen as it is written to the terminal.
    pub fn to_string(&self) -> (s: String)
        ensures
            s@ == self@.text(),
    {
        let mut s = self.output.clone();
        s.append(just_left().as_str());
        s
    }
}

} // verus!
