//! The categories that workouts are filed and filtered by.

use core::str::FromStr;
use vstd::prelude::*;
use crate::text::same_text;

verus! {

pub const LOWER_BODY_ABS: &'static str = "Lower Body & Abs";

pub const UPPER_BODY_ABS: &'static str = "Upper Body & Abs";

pub const MONDAY: &'static str = "Monday";

pub const TUESDAY: &'static str = "Tuesday";

pub const WEDNESDAY: &'static str = "Wednesday";

pub const THURSDAY: &'static str = "Thursday";

pub const FRIDAY: &'static str = "Friday";

pub const SATURDAY: &'static str = "Saturday";

pub const SUNDAY: &'static str = "Sunday";

/// The part of the body that a workout, or one set of it, trains.
#[derive(Copy, Clone, Debug, PartialOrd, PartialEq, Eq, Structural)]
pub enum WorkoutType {
    LowerBodyAbs,
    UpperBodyAbs,
}

/// The day of the week that a workout is meant for.
#[derive(Copy, Clone, Debug, PartialOrd, PartialEq, Eq, Structural)]
pub enum DayOfWeek {
    Monday,
    Tuesday,
    Wednesday,
    Thursday,
    Friday,
    Saturday,
    Sunday,
}

/// One way of narrowing a list of workouts.
#[derive(Copy, Clone, Debug)]
pub enum Filter {
    DayOfWeek(DayOfWeek),
    WorkoutType(WorkoutType),
}

impl WorkoutType {
    /// Every workout type, in the order in which a menu offers them.
    pub const VALUES: [WorkoutType; 2] = [WorkoutType::LowerBodyAbs, WorkoutType::UpperBodyAbs];

    /// The name that a workout type is shown and stored under.
    pub open spec fn label(self) -> Seq<char> {
        match self {
            WorkoutType::LowerBodyAbs => LOWER_BODY_ABS@,
            WorkoutType::UpperBodyAbs => UPPER_BODY_ABS@,
        }
    }

    /// The workout type that a name stands for, if it is the name of one.
    pub open spec fn parse(s: Seq<char>) -> Result<WorkoutType, ()> {
        if s == LOWER_BODY_ABS@ {
            Ok(WorkoutType::LowerBodyAbs)
        } else if s == UPPER_BODY_ABS@ {
            Ok(WorkoutType::UpperBodyAbs)
        } else {
            Err(())
        }
    }

    /// The name of the workout type.
    pub fn to_string(&self) -> (s: String)
        ensures
            s@ == self.label(),
    {
        match self {
            WorkoutType::LowerBodyAbs => LOWER_BODY_ABS.to_owned(),
            WorkoutType::UpperBodyAbs => UPPER_BODY_ABS.to_owned(),
        }
    }

    /// Reading back the name of a workout type gives that workout type.
    pub proof fn lemma_round_trip(self)
        ensures
            WorkoutType::parse(self.label()) == Ok::<WorkoutType, ()>(self),
    {
        reveal_strlit("Lower Body & Abs");
        reveal_strlit("Upper Body & Abs");
        assert(LOWER_BODY_ABS@[0] != UPPER_BODY_ABS@[0]);
    }
}

impl FromStr for WorkoutType {
    type Err = ();

    /// Reads the name of a workout type; any other text is refused.
    fn from_str(s: &str) -> (r: Result<WorkoutType, ()>)
        ensures
            r == WorkoutType::parse(s@),
    {
        if same_text(s, LOWER_BODY_ABS) {
            Ok(WorkoutType::LowerBodyAbs)
        } else if same_text(s, UPPER_BODY_ABS) {
            Ok(WorkoutType::UpperBodyAbs)
        } else {
            Err(())
        }
    }
}

impl DayOfWeek {
    /// Every day, from Monday on.
    pub const VALUES: [DayOfWeek; 7] = [
        DayOfWeek::Monday,
        DayOfWeek::Tuesday,
        DayOfWeek::Wednesday,
        DayOfWeek::Thursday,
        DayOfWeek::Friday,
        DayOfWeek::Saturday,
        DayOfWeek::Sunday,
    ];

    /// The name that a day is shown and stored under.
    pub open spec fn label(self) -> Seq<char> {
        match self {
            DayOfWeek::Monday => MONDAY@,
            DayOfWeek::Tuesday => TUESDAY@,
            DayOfWeek::Wednesday => WEDNESDAY@,
            DayOfWeek::Thursday => THURSDAY@,
            DayOfWeek::Friday => FRIDAY@,
            DayOfWeek::Saturday => SATURDAY@,
            DayOfWeek::Sunday => SUNDAY@,
        }
    }

    /// The day that a name stands for, if it is the name of one.
    pub open spec fn parse(s: Seq<char>) -> Result<DayOfWeek, ()> {
        if s == MONDAY@ {
            Ok(DayOfWeek::Monday)
        } else if s == TUESDAY@ {
            Ok(DayOfWeek::Tuesday)
        } else if s == WEDNESDAY@ {
            Ok(DayOfWeek::Wednesday)
        } else if s == THURSDAY@ {
            Ok(DayOfWeek::Thursday)
        } else if s == FRIDAY@ {
            Ok(DayOfWeek::Friday)
        } else if s == SATURDAY@ {
            Ok(DayOfWeek::Saturday)
        } else if s == SUNDAY@ {
            Ok(DayOfWeek::Sunday)
        } else {
            Err(())
        }
    }

    /// The name of the day.
    pub fn to_string(&self) -> (s: String)
        ensures
            s@ == self.label(),
    {
        match self {
            DayOfWeek::Monday => MONDAY.to_owned(),
            DayOfWeek::Tuesday => TUESDAY.to_owned(),
            DayOfWeek::Wednesday => WEDNESDAY.to_owned(),
            DayOfWeek::Thursday => THURSDAY.to_owned(),
            DayOfWeek::Friday => FRIDAY.to_owned(),
            DayOfWeek::Saturday => SATURDAY.to_owned(),
            DayOfWeek::Sunday => SUNDAY.to_owned(),
        }
    }

    /// Reading back the name of a day gives that day.
    pub proof fn lemma_round_trip(self)
        ensures
            DayOfWeek::parse(self.label()) == Ok::<DayOfWeek, ()>(self),
    {
        reveal_strlit("Monday");
        reveal_strlit("Tuesday");
        reveal_strlit("Wednesday");
        reveal_strlit("Thursday");
        reveal_strlit("Friday");
        reveal_strlit("Saturday");
        reveal_strlit("Sunday");
        assert(MONDAY@.len() == 6 && MONDAY@[0] == 'M');
        assert(TUESDAY@.len() == 7 && TUESDAY@[0] == 'T');
        assert(WEDNESDAY@.len() == 9);
        assert(THURSDAY@.len() == 8);
        assert(FRIDAY@.len() == 6 && FRIDAY@[0] == 'F');
        assert(SATURDAY@.len() == 8 && SATURDAY@[0] == 'S' && THURSDAY@[0] == 'T');
        assert(SUNDAY@.len() == 6 && SUNDAY@[0] == 'S');
    }
}

impl FromStr for DayOfWeek {
    type Err = ();

    /// Reads the name of a day; any other text is refused.
    fn from_str(s: &str) -> (r: Result<DayOfWeek, ()>)
        ensures
            r == DayOfWeek::parse(s@),
    {
        if same_text(s, MONDAY) {
            Ok(DayOfWeek::Monday)
        } else if same_text(s, TUESDAY) {
            Ok(DayOfWeek::Tuesday)
        } else if same_text(s, WEDNESDAY) {
            Ok(DayOfWeek::Wednesday)
        } else if same_text(s, THURSDAY) {
            Ok(DayOfWeek::Thursday)
        } else if same_text(s, FRIDAY) {
            Ok(DayOfWeek::Friday)
        } else if same_text(s, SATURDAY) {
            Ok(DayOfWeek::Saturday)
        } else if same_text(s, SUNDAY) {
            Ok(DayOfWeek::Sunday)
        } else {
            Err(())
        }
    }
}

} // verus!
