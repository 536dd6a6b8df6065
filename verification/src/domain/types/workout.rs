use crate::domain::types::exercise::{Exercise, ExerciseView};
use crate::domain::types::weight::Weight;
use vstd::prelude::*;

verus! {

/// A set of a weighted exercise, as stored.
#[derive(Clone, Copy, Debug, PartialEq, Eq, Structural)]
pub struct WeightedSet {
    pub id: u64,
    pub reps: u16,
    pub weight: Weight,
    pub failure: bool,
}

/// A set of a weighted exercise, before it is stored.
#[derive(Clone, Copy, Debug, PartialEq, Eq, Structural)]
pub struct NewWeightedSet {
    pub reps: u16,
    pub weight: Weight,
    pub failure: bool,
}

/// A set of a bodyweight exercise counted in repetitions, as stored.
#[derive(Clone, Copy, Debug, PartialEq, Eq, Structural)]
pub struct BodyweightRepSet {
    pub id: u64,
    pub reps: u16,
    pub failure: bool,
}

/// A set of a bodyweight exercise counted in repetitions, before it is
/// stored.
#[derive(Clone, Copy, Debug, PartialEq, Eq, Structural)]
pub struct NewBodyweightRepSet {
    pub reps: u16,
    pub failure: bool,
}

/// A set of a bodyweight exercise that is held for a time, as stored.
#[derive(Clone, Copy, Debug, PartialEq, Eq, Structural)]
pub struct BodyweightTimeSet {
    pub id: u64,
    pub duration_seconds: u16,
    pub failure: bool,
}

/// A set of a bodyweight exercise that is held for a time, before it is
/// stored.
#[derive(Clone, Copy, Debug, PartialEq, Eq, Structural)]
pub struct NewBodyweightTimeSet {
    pub duration_seconds: u16,
    pub failure: bool,
}

/// One stored set, of any of the three kinds.
#[derive(Clone, Copy, Debug, PartialEq, Eq, Structural)]
pub enum WorkoutSet {
    Weighted(WeightedSet),
    BodyweightReps(BodyweightRepSet),
    BodyweightTime(BodyweightTimeSet),
}

/// One set that is not stored yet, of any of the three kinds.
#[derive(Clone, Copy, Debug, PartialEq, Eq, Structural)]
pub enum NewWorkoutSet {
    Weighted(NewWeightedSet),
    BodyweightReps(NewBodyweightRepSet),
    BodyweightTime(NewBodyweightTimeSet),
}

impl WorkoutSet {
    /// The set without its identifier.
    pub open spec fn payload(self) -> NewWorkoutSet {
        match self {
            WorkoutSet::Weighted(s) => NewWorkoutSet::Weighted(
                NewWeightedSet { reps: s.reps, weight: s.weight, failure: s.failure },
            ),
            WorkoutSet::BodyweightReps(s) => NewWorkoutSet::BodyweightReps(
                NewBodyweightRepSet { reps: s.reps, failure: s.failure },
            ),
            WorkoutSet::BodyweightTime(s) => NewWorkoutSet::BodyweightTime(
                NewBodyweightTimeSet { duration_seconds: s.duration_seconds, failure: s.failure },
            ),
        }
    }

    /// The identifier under which the set is stored.
    pub open spec fn id(self) -> u64 {
        match self {
            WorkoutSet::Weighted(s) => s.id,
            WorkoutSet::BodyweightReps(s) => s.id,
            WorkoutSet::BodyweightTime(s) => s.id,
        }
    }
}

/// The sets of a sequence, each without its identifier.
pub open spec fn payloads(sets: Seq<WorkoutSet>) -> Seq<NewWorkoutSet> {
    Seq::new(sets.len(), |i: int| sets[i].payload())
}

/// One exercise of a workout with the sets done of it.
#[derive(Clone, Debug, PartialEq, Eq)]
pub struct WorkoutExercise {
    pub exercise: Exercise,
    pub sets: Vec<WorkoutSet>,
}

/// The mathematical content of a [`WorkoutExercise`].
pub struct WorkoutExerciseView {
    pub exercise: ExerciseView,
    pub sets: Seq<WorkoutSet>,
}

impl View for WorkoutExercise {
    type V = WorkoutExerciseView;

    open spec fn view(&self) -> WorkoutExerciseView {
        WorkoutExerciseView { exercise: self.exercise@, sets: self.sets@ }
    }
}

/// The views of a sequence of workout exercises, in order.
pub open spec fn workout_exercise_views(exercises: Seq<WorkoutExercise>) -> Seq<
    WorkoutExerciseView,
> {
    Seq::new(exercises.len(), |i: int| exercises[i]@)
}

/// One exercise of a workout that is not stored yet: the exercise by its
/// identifier, and the sets done of it.
#[derive(Clone, Debug, PartialEq, Eq)]
pub struct NewWorkoutExercise {
    pub exercise_id: u64,
    pub sets: Vec<NewWorkoutSet>,
}

/// The mathematical content of a [`NewWorkoutExercise`].
pub struct NewWorkoutExerciseView {
    pub exercise_id: u64,
    pub sets: Seq<NewWorkoutSet>,
}

impl View for NewWorkoutExercise {
    type V = NewWorkoutExerciseView;

    open spec fn view(&self) -> NewWorkoutExerciseView {
        NewWorkoutExerciseView { exercise_id: self.exercise_id, sets: self.sets@ }
    }
}

/// The views of a sequence of new workout exercises, in order.
pub open spec fn new_workout_exercise_views(exercises: Seq<NewWorkoutExercise>) -> Seq<
    NewWorkoutExerciseView,
> {
    Seq::new(exercises.len(), |i: int| exercises[i]@)
}

/// A stored workout: a dated session of exercises and sets.
#[derive(Debug)]
pub struct Workout {
    pub id: u64,
    pub date: chrono::NaiveDate,
    /// Mood on a scale of 1-10, where 1 is very bad and 10 is very good
    pub mood: Option<u8>,
    pub exercises: Vec<WorkoutExercise>,
}

/// The mathematical content of a [`Workout`].
pub struct WorkoutView {
    pub id: u64,
    pub date: chrono::NaiveDate,
    pub mood: Option<u8>,
    pub exercises: Seq<WorkoutExerciseView>,
}

impl View for Workout {
    type V = WorkoutView;

    open spec fn view(&self) -> WorkoutView {
        WorkoutView {
            id: self.id,
            date: self.date,
            mood: self.mood,
            exercises: workout_exercise_views(self.exercises@),
        }
    }
}

/// A workout that is not stored yet.
#[derive(Debug)]
pub struct NewWorkout {
    pub date: chrono::NaiveDate,
    /// Mood on a scale of 1-10, where 1 is very bad and 10 is very good
    pub mood: Option<u8>,
    pub exercises: Vec<NewWorkoutExercise>,
}

/// The mathematical content of a [`NewWorkout`].
pub struct NewWorkoutView {
    pub date: chrono::NaiveDate,
    pub mood: Option<u8>,
    pub exercises: Seq<NewWorkoutExerciseView>,
}

impl View for NewWorkout {
    type V = NewWorkoutView;

    open spec fn view(&self) -> NewWorkoutView {
        NewWorkoutView {
            date: self.date,
            mood: self.mood,
            exercises: new_workout_exercise_views(self.exercises@),
        }
    }
}

} // verus!
