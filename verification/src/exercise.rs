//! Exercises, and the sets of three that a workout is made of.

use vstd::prelude::*;
use vstd::string::StringExecFns;
use crate::enums::WorkoutType;
use crate::util::{
    bold, bold_text, default_colour, default_colour_text, just_left, left_text, plain, plain_text,
    red, red_text,
};

verus! {

/// What stands before the name of the exercise that is selected.
pub const SELECTED_MARK: &'static str = " --> ";

/// What stands before the name of any other exercise.
pub const PLAIN_MARK: &'static str = "     ";

/// One exercise: what it is called and how it is done.
#[derive(Debug)]
pub struct Exercise {
    pub name: String,
    pub description: String,
    pub selected: bool,
}

/// What an exercise holds.
pub struct ExerciseModel {
    pub name: Seq<char>,
    pub description: Seq<char>,
    pub selected: bool,
}

/// Three exercises that are done in turn.
#[derive(Debug)]
pub struct ExerciseSet {
    pub exercises: (Exercise, Exercise, Exercise),
    pub exercise_type: WorkoutType,
}

/// What an exercise set holds.
pub struct ExerciseSetModel {
    pub exercises: (ExerciseModel, ExerciseModel, ExerciseModel),
    pub exercise_type: WorkoutType,
}

impl View for Exercise {
    type V = ExerciseModel;

    open spec fn view(&self) -> ExerciseModel {
        ExerciseModel {
            name: self.name@,
            description: self.description@,
            selected: self.selected,
        }
    }
}

impl DeepView for Exercise {
    type V = ExerciseModel;

    open spec fn deep_view(&self) -> ExerciseModel {
        self@
    }
}

impl View for ExerciseSet {
    type V = ExerciseSetModel;

    open spec fn view(&self) -> ExerciseSetModel {
        ExerciseSetModel {
            exercises: (self.exercises.0@, self.exercises.1@, self.exercises.2@),
            exercise_type: self.exercise_type,
        }
    }
}

impl DeepView for ExerciseSet {
    type V = ExerciseSetModel;

    open spec fn deep_view(&self) -> ExerciseSetModel {
        self@
    }
}

impl Clone for Exercise {
    fn clone(&self) -> (r: Exercise)
        ensures
            r == *self,
    {
        Exercise {
            name: self.name.clone(),
            description: self.description.clone(),
            selected: self.selected,
        }
    }
}

impl Clone for ExerciseSet {
    fn clone(&self) -> (r: ExerciseSet)
        ensures
            r == *self,
    {
        ExerciseSet {
            exercises: (
                self.exercises.0.clone(),
                self.exercises.1.clone(),
                self.exercises.2.clone(),
            ),
            exercise_type: self.exercise_type,
        }
    }
}

impl ExerciseModel {
    /// The exercise that a list of texts stands for: the first is the name,
    /// the others, put together, are the description.
    pub open spec fn from_parts(parts: Seq<Seq<char>>) -> ExerciseModel {
        ExerciseModel {
            name: if parts.len() > 0 {
                parts[0]
            } else {
                Seq::empty()
            },
            description: if parts.len() > 0 {
                parts.skip(1).flatten()
            } else {
                Seq::empty()
            },
            selected: false,
        }
    }

    /// The exercise as a screen shows it: the name in bold red after its
    /// mark, the description in plain text on the line below, each line
    /// starting at the left edge.
    pub open spec fn text(self) -> Seq<char> {
        "\n"@ + left_text() + bold_text() + red_text() + (if self.selected {
            SELECTED_MARK@
        } else {
            PLAIN_MARK@
        }) + self.name + "\n"@ + left_text() + plain_text() + default_colour_text()
            + self.description + "\n\n"@
    }
}

impl ExerciseSetModel {
    /// The set that three lists of texts stand for.
    pub open spec fn from_parts(parts: Seq<Seq<Seq<char>>>, t: WorkoutType) -> ExerciseSetModel
        recommends
            parts.len() == 3,
    {
        ExerciseSetModel {
            exercises: (
                ExerciseModel::from_parts(parts[0]),
                ExerciseModel::from_parts(parts[1]),
                ExerciseModel::from_parts(parts[2]),
            ),
            exercise_type: t,
        }
    }

    /// The set as a screen shows it: its three exercises, a line apart.
    pub open spec fn text(self) -> Seq<char> {
        self.exercises.0.text() + "\n"@ + self.exercises.1.text() + "\n"@ + self.exercises.2.text()
            + "\n"@
    }
}

impl Exercise {
    /// An exercise that is not selected.
    pub fn new(name: &str, description: &str) -> (r: Exercise)
        ensures
            r@ == (ExerciseModel { name: name@, description: description@, selected: false }),
    {
        let name = name.to_owned();
        let description = description.to_owned();
        Exercise { name, description, selected: false }
    }

    /// Makes an exercise of a list of texts: the first is the name, the
    /// others are joined into the description.
    pub fn from_vec(v: Vec<String>) -> (r: Exercise)
        ensures
            r@ == ExerciseModel::from_parts(v.deep_view()),
    {
        let ghost parts = v.deep_view();
        let mut description = String::new();
        if v.len() == 0 {
            return Exercise { name: String::new(), description, selected: false };
        }
        let name = v[0].clone();
        let mut i: usize = 1;
        assert(parts.subrange(1, 1).flatten() =~= Seq::<char>::empty());
        while i < v.len()
            invariant
                1 <= i <= v.len(),
                parts == v.deep_view(),
                description@ == parts.subrange(1, i as int).flatten(),
            decreases v.len() - i,
        {
            description.append(v[i].as_str());
            proof {
                assert(parts.subrange(1, i + 1) =~= parts.subrange(1, i as int).push(parts[i as int]));
                parts.subrange(1, i as int).lemma_flatten_push(parts[i as int]);
            }
            i = i + 1;
        }
        assert(parts.subrange(1, i as int) =~= parts.skip(1));
        Exercise { name, description, selected: false }
    }

    /// The exercise as a screen shows it.
    pub fn to_string(&self) -> (s: String)
        ensures
            s@ == self@.text(),
    {
        let left = just_left();
        let mut s = String::from_str("\n");
        s.append(left.as_str());
        s.append(bold().as_str());
        s.append(red().as_str());
        s.append(if self.selected {
            SELECTED_MARK
        } else {
            PLAIN_MARK
        });
        s.append(self.name.as_str());
        s.append("\n");
        s.append(left.as_str());
        s.append(plain().as_str());
        s.append(default_colour().as_str());
        s.append(self.description.as_str());
        s.append("\n\n");
        s
    }
}

impl ExerciseSet {
    /// Makes a set of the three exercises that `v` lists.
    pub fn from_vec(v: Vec<Vec<String>>, t: &WorkoutType) -> (r: ExerciseSet)
        requires
            v.len() == 3,
        ensures
            r@ == ExerciseSetModel::from_parts(v.deep_view(), *t),
    {
        let mut v = v;
        let ghost parts = v.deep_view();
        let p3 = v.pop().unwrap();
        let p2 = v.pop().unwrap();
        let p1 = v.pop().unwrap();
        assert(p1.deep_view() == parts[0]);
        assert(p2.deep_view() == parts[1]);
        assert(p3.deep_view() == parts[2]);
        let e1 = Exercise::from_vec(p1);
        let e2 = Exercise::from_vec(p2);
        let e3 = Exercise::from_vec(p3);
        ExerciseSet { exercises: (e1, e2, e3), exercise_type: *t }
    }

    /// The set as a screen shows it.
    pub fn to_string(&self) -> (s: String)
        ensures
            s@ == self@.text(),
    {
        let mut s = self.exercises.0.to_string();
        s.append("\n");
        s.append(self.exercises.1.to_string().as_str());
        s.append("\n");
        s.append(self.exercises.2.to_string().as_str());
        s.append("\n");
        s
    }
}

} // verus!
