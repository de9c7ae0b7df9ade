//! Workouts as they are written down for import: every exercise a list of
//! texts.

use vstd::prelude::*;
use vstd::string::StringExecFns;
use crate::enums::{DayOfWeek, WorkoutType};
use crate::exercise::{ExerciseSet, ExerciseSetModel};
use crate::workout::{Workout, WorkoutModel};

verus! {

/// What stands between the words of a description.
pub const WORD_GAP: &'static str = " ";

/// A workout as an import file holds it.
#[derive(Debug)]
pub struct WorkoutImport {
    pub title: String,
    pub link: String,
    pub day: DayOfWeek,
    pub warmup_length: u64,
    pub workout_type: WorkoutType,
    pub sets: Vec<Vec<Vec<String>>>,
}

/// What a workout for import holds.
pub struct WorkoutImportModel {
    pub title: Seq<char>,
    pub link: Seq<char>,
    pub day: DayOfWeek,
    pub warmup_length: u64,
    pub workout_type: WorkoutType,
    pub sets: Seq<Seq<Seq<Seq<char>>>>,
}

impl View for WorkoutImport {
    type V = WorkoutImportModel;

    open spec fn view(&self) -> WorkoutImportModel {
        WorkoutImportModel {
            title: self.title@,
            link: self.link@,
            day: self.day,
            warmup_length: self.warmup_length,
            workout_type: self.workout_type,
            sets: self.sets.deep_view(),
        }
    }
}

impl DeepView for WorkoutImport {
    type V = WorkoutImportModel;

    open spec fn deep_view(&self) -> WorkoutImportModel {
        self@
    }
}

/// Words in a row, a gap between each two.
pub open spec fn join_words(words: Seq<Seq<char>>) -> Seq<char>
    decreases words.len(),
{
    if words.len() == 0 {
        Seq::empty()
    } else if words.len() == 1 {
        words[0]
    } else {
        join_words(words.drop_last()) + WORD_GAP@ + words.last()
    }
}

/// An exercise in two texts: its name, which is the first text, and its
/// description, which is the other texts in a row.
pub open spec fn compress_parts(parts: Seq<Seq<char>>) -> Seq<Seq<char>>
    recommends
        parts.len() >= 1,
{
    seq![parts[0], join_words(parts.skip(1))]
}

/// A set with each of its exercises in two texts.
pub open spec fn compress_set(set: Seq<Seq<Seq<char>>>) -> Seq<Seq<Seq<char>>> {
    set.map_values(|parts: Seq<Seq<char>>| compress_parts(parts))
}

impl WorkoutImportModel {
    /// Whether every exercise has a text for its name.
    pub open spec fn named(self) -> bool {
        forall|i: int, j: int|
            0 <= i < self.sets.len() && 0 <= j < self.sets[i].len() ==> (#[trigger] self.sets[i][j]).len()
                >= 1
    }

    /// Whether every set has exactly three exercises.
    pub open spec fn complete(self) -> bool {
        forall|i: int| 0 <= i < self.sets.len() ==> (#[trigger] self.sets[i]).len() == 3
    }

    /// The same workout with each exercise in two texts.
    pub open spec fn compressed(self) -> WorkoutImportModel {
        WorkoutImportModel {
            sets: self.sets.map_values(|set: Seq<Seq<Seq<char>>>| compress_set(set)),
            ..self
        }
    }

    /// The workout that is played: the same entries, each set made of its
    /// three exercises and marked with the type of the workout.
    pub open spec fn upgraded(self) -> WorkoutModel {
        WorkoutModel {
            title: self.title,
            link: self.link,
            day: self.day,
            warmup_length: self.warmup_length,
            workout_type: self.workout_type,
            sets: self.sets.map_values(
                |set: Seq<Seq<Seq<char>>>| ExerciseSetModel::from_parts(set, self.workout_type),
            ),
        }
    }
}

/// The texts from index `from` on in a row, a gap between each two.
fn join_from(parts: &Vec<String>, from: usize) -> (r: String)
    requires
        from <= parts.len(),
    ensures
        r@ == join_words(parts.deep_view().skip(from as int)),
{
    let ghost all = parts.deep_view();
    let mut r = String::new();
    let mut i: usize = from;
    assert(all.subrange(from as int, from as int) =~= Seq::<Seq<char>>::empty());
    while i < parts.len()
        invariant
            from <= i <= parts.len(),
            all == parts.deep_view(),
            r@ == join_words(all.subrange(from as int, i as int)),
        decreases parts.len() - i,
    {
        let ghost before = all.subrange(from as int, i as int);
        let ghost now = all.subrange(from as int, i + 1);
        proof {
            assert(now.drop_last() =~= before);
            assert(now.last() == all[i as int]);
        }
        if i > from {
            r.append(WORD_GAP);
        } else {
            assert(r@ + all[i as int] =~= all[i as int]);
        }
        r.append(parts[i].as_str());
        i = i + 1;
    }
    assert(all.subrange(from as int, i as int) =~= all.skip(from as int));
    r
}

/// An exercise in two texts.
fn compress_exercise(parts: &Vec<String>) -> (r: Vec<String>)
    requires
        parts.len() >= 1,
    ensures
        r.deep_view() == compress_parts(parts.deep_view()),
{
    let mut r: Vec<String> = Vec::new();
    r.push(parts[0].clone());
    r.push(join_from(parts, 1));
    assert(r.deep_view() =~= compress_parts(parts.deep_view()));
    r
}

impl WorkoutImport {
    /// Whether every exercise has a text for its name.
    pub fn is_named(&self) -> (r: bool)
        ensures
            r == self@.named(),
    {
        let ghost all = self.sets.deep_view();
        let mut i: usize = 0;
        while i < self.sets.len()
            invariant
                i <= self.sets.len(),
                all == self.sets.deep_view(),
                all == self@.sets,
                forall|a: int, b: int|
                    0 <= a < i && 0 <= b < all[a].len() ==> (#[trigger] all[a][b]).len() >= 1,
            decreases self.sets.len() - i,
        {
            let set = &self.sets[i];
            let mut j: usize = 0;
            while j < set.len()
                invariant
                    j <= set.len(),
                    i < self.sets.len(),
                    all == self.sets.deep_view(),
                    all == self@.sets,
                all == self@.sets,
                    set.deep_view() == all[i as int],
                    forall|b: int| 0 <= b < j ==> (#[trigger] all[i as int][b]).len() >= 1,
                decreases set.len() - j,
            {
                if set[j].len() == 0 {
                    assert(all[i as int][j as int].len() == 0);
                    return false;
                }
                assert(all[i as int][j as int].len() >= 1);
                j = j + 1;
            }
            i = i + 1;
        }
        true
    }

    /// Whether every set has exactly three exercises.
    pub fn is_complete(&self) -> (r: bool)
        ensures
            r == self@.complete(),
    {
        let ghost all = self.sets.deep_view();
        let mut i: usize = 0;
        while i < self.sets.len()
            invariant
                i <= self.sets.len(),
                all == self.sets.deep_view(),
                all == self@.sets,
                forall|a: int| 0 <= a < i ==> (#[trigger] all[a]).len() == 3,
            decreases self.sets.len() - i,
        {
            if self.sets[i].len() != 3 {
                assert(all[i as int].len() != 3);
                return false;
            }
            i = i + 1;
        }
        true
    }

    /// Puts each exercise in two texts: its name, and its description in one
    /// piece.
    pub fn compress(self) -> (r: WorkoutImport)
        requires
            self@.named(),
        ensures
            r@ == self@.compressed(),
    {
        let ghost all = self.sets.deep_view();
        let mut sets: Vec<Vec<Vec<String>>> = Vec::new();
        let mut i: usize = 0;
        while i < self.sets.len()
            invariant
                i <= self.sets.len(),
                all == self.sets.deep_view(),
                all == self@.sets,
                self@.named(),
                sets@.len() == i,
                forall|a: int| 0 <= a < i ==> (#[trigger] sets@[a]).deep_view() == compress_set(all[a]),
            decreases self.sets.len() - i,
        {
            let old_set = &self.sets[i];
            let mut set: Vec<Vec<String>> = Vec::new();
            let mut j: usize = 0;
            while j < old_set.len()
                invariant
                    j <= old_set.len(),
                    i < self.sets.len(),
                    all == self.sets.deep_view(),
                    all == self@.sets,
                all == self@.sets,
                    self@.named(),
                    old_set.deep_view() == all[i as int],
                    set@.len() == j,
                    forall|b: int|
                        0 <= b < j ==> (#[trigger] set@[b]).deep_view() == compress_parts(
                            all[i as int][b],
                        ),
                decreases old_set.len() - j,
            {
                assert(all[i as int][j as int].len() >= 1);
                set.push(compress_exercise(&old_set[j]));
                j = j + 1;
            }
            assert(set.deep_view() =~= compress_set(all[i as int]));
            sets.push(set);
            i = i + 1;
        }
        assert(sets.deep_view() =~= self@.compressed().sets);
        WorkoutImport {
            title: self.title,
            link: self.link,
            day: self.day,
            warmup_length: self.warmup_length,
            workout_type: self.workout_type,
            sets,
        }
    }

    /// Makes the workout that is played of the imported one.
    pub fn upgrade(self) -> (r: Workout)
        requires
            self@.complete(),
        ensures
            r@ == self@.upgraded(),
    {
        let ghost model = self@;
        let ghost all = self.sets.deep_view();
        let workout_type = self.workout_type;
        let mut sets: Vec<ExerciseSet> = Vec::new();
        let ghost given = self.sets@;
        for set in it: self.sets
            invariant
                it.seq() == given,
                all.len() == given.len(),
                forall|a: int| 0 <= a < given.len() ==> (#[trigger] given[a]).deep_view() == all[a],
                forall|a: int| 0 <= a < all.len() ==> (#[trigger] all[a]).len() == 3,
                sets@.len() == it.index(),
                forall|a: int|
                    0 <= a < sets@.len() ==> (#[trigger] sets@[a])@ == ExerciseSetModel::from_parts(
                        all[a],
                        workout_type,
                    ),
        {
            assert(set.deep_view() == all[it.index() as int]);
            assert(set.deep_view().len() == 3);
            sets.push(ExerciseSet::from_vec(set, &workout_type));
        }
        assert(sets.deep_view() =~= model.upgraded().sets);
        Workout {
            title: self.title,
            link: self.link,
            day: self.day,
            warmup_length: self.warmup_length,
            workout_type,
            sets,
        }
    }
}

} // verus!
