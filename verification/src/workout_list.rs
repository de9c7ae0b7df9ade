//! Narrowing a list of workouts by day or by type.

use vstd::prelude::*;
use crate::enums::{DayOfWeek, WorkoutType};
use crate::workout::Workout;

verus! {

/// Whether a workout is meant for the given day.
pub open spec fn on_day(day: DayOfWeek) -> spec_fn(Workout) -> bool {
    |w: Workout| w.day == day
}

/// Whether a workout is of the given type.
pub open spec fn of_type(workout_type: WorkoutType) -> spec_fn(Workout) -> bool {
    |w: Workout| w.workout_type == workout_type
}

/// The workouts that a list of references points to.
pub open spec fn pointed(refs: Seq<&Workout>) -> Seq<Workout> {
    refs.map_values(|w: &Workout| *w)
}

/// A list of workouts that can be narrowed.
pub trait WorkoutList {
    /// The workouts of the list, in order.
    spec fn workouts(&self) -> Seq<Workout>;

    /// The workouts for the given day, in the order of the list.
    fn filter_by_day(&self, day: &DayOfWeek) -> (r: Vec<&Workout>)
        ensures
            pointed(r@) == self.workouts().filter(on_day(*day)),
    ;

    /// The workouts of the given type, in the order of the list.
    fn filter_by_type(&self, workout_type: &WorkoutType) -> (r: Vec<&Workout>)
        ensures
            pointed(r@) == self.workouts().filter(of_type(*workout_type)),
    ;
}

/// The workouts of a slice for the given day.
pub(crate) fn slice_by_day<'a>(list: &'a [Workout], day: &DayOfWeek) -> (r: Vec<&'a Workout>)
    ensures
        pointed(r@) == list@.filter(on_day(*day)),
{
    let mut r: Vec<&Workout> = Vec::new();
    let mut i: usize = 0;
    assert(list@.take(0).filter(on_day(*day)) =~= Seq::<Workout>::empty()) by {
        reveal(Seq::filter);
    }
    assert(pointed(r@) =~= Seq::<Workout>::empty());
    while i < list.len()
        invariant
            i <= list.len(),
            pointed(r@) == list@.take(i as int).filter(on_day(*day)),
        decreases list.len() - i,
    {
        let ghost before = pointed(r@);
        proof {
            assert(list@.take(i + 1) =~= list@.take(i as int).push(list@[i as int]));
            list@.take(i as int).lemma_filter_push(list@[i as int], on_day(*day));
        }
        if list[i].day == *day {
            r.push(&list[i]);
            assert(pointed(r@) =~= before.push(list@[i as int]));
        }
        i = i + 1;
    }
    assert(list@.take(i as int) =~= list@);
    r
}

/// The workouts of a slice that are of the given type.
pub(crate) fn slice_by_type<'a>(list: &'a [Workout], workout_type: &WorkoutType) -> (r: Vec<&'a Workout>)
    ensures
        pointed(r@) == list@.filter(of_type(*workout_type)),
{
    let mut r: Vec<&Workout> = Vec::new();
    let mut i: usize = 0;
    assert(list@.take(0).filter(of_type(*workout_type)) =~= Seq::<Workout>::empty()) by {
        reveal(Seq::filter);
    }
    assert(pointed(r@) =~= Seq::<Workout>::empty());
    while i < list.len()
        invariant
            i <= list.len(),
            pointed(r@) == list@.take(i as int).filter(of_type(*workout_type)),
        decreases list.len() - i,
    {
        let ghost before = pointed(r@);
        proof {
            assert(list@.take(i + 1) =~= list@.take(i as int).push(list@[i as int]));
            list@.take(i as int).lemma_filter_push(list@[i as int], of_type(*workout_type));
        }
        if list[i].workout_type == *workout_type {
            r.push(&list[i]);
            assert(pointed(r@) =~= before.push(list@[i as int]));
        }
        i = i + 1;
    }
    assert(list@.take(i as int) =~= list@);
    r
}

impl WorkoutList for Vec<Workout> {
    open spec fn workouts(&self) -> Seq<Workout> {
        self@
    }

    fn filter_by_day(&self, day: &DayOfWeek) -> (r: Vec<&Workout>) {
        slice_by_day(self.as_slice(), day)
    }

    fn filter_by_type(&self, workout_type: &WorkoutType) -> (r: Vec<&Workout>) {
        slice_by_type(self.as_slice(), workout_type)
    }
}

impl WorkoutList for &[Workout] {
    open spec fn workouts(&self) -> Seq<Workout> {
        self@
    }

    fn filter_by_day(&self, day: &DayOfWeek) -> (r: Vec<&Workout>) {
        slice_by_day(*self, day)
    }

    fn filter_by_type(&self, workout_type: &WorkoutType) -> (r: Vec<&Workout>) {
        slice_by_type(*self, workout_type)
    }
}

} // verus!
