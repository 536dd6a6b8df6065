use crate::domain::types::weight::Weight;
use vstd::prelude::*;

verus! {

/// What an exercise is measured by, with the goal set for it.
#[derive(Clone, Copy, Debug, PartialEq, Eq, Structural)]
pub enum ExerciseType {
    Weighted { goal_weight: Weight },
    BodyweightReps { goal_reps: u16 },
    BodyweightTime { goal_duration_seconds: u16 },
}

/// An exercise that the store knows under `id`.
#[derive(Clone, Debug, PartialEq, Eq)]
pub struct Exercise {
    pub id: u64,
    pub name: String,
    pub exercise_type: ExerciseType,
}

/// The mathematical content of an [`Exercise`].
pub struct ExerciseView {
    pub id: u64,
    pub name: Seq<char>,
    pub exercise_type: ExerciseType,
}

impl View for Exercise {
    type V = ExerciseView;

    open spec fn view(&self) -> ExerciseView {
        ExerciseView { id: self.id, name: self.name@, exercise_type: self.exercise_type }
    }
}

/// The views of a sequence of exercises, in order.
pub open spec fn exercise_views(exercises: Seq<Exercise>) -> Seq<ExerciseView> {
    Seq::new(exercises.len(), |i: int| exercises[i]@)
}

/// An exercise that no store has numbered yet.
#[derive(Clone, Debug, PartialEq, Eq)]
pub struct NewExercise {
    pub name: String,
    pub exercise_type: ExerciseType,
}

/// The mathematical content of a [`NewExercise`].
pub struct NewExerciseView {
    pub name: Seq<char>,
    pub exercise_type: ExerciseType,
}

impl View for NewExercise {
    type V = NewExerciseView;

    open spec fn view(&self) -> NewExerciseView {
        NewExerciseView { name: self.name@, exercise_type: self.exercise_type }
    }
}

/// A chain of exercise variants of rising difficulty under one name.
#[derive(Clone, Debug, PartialEq, Eq)]
pub struct ExerciseProgression {
    pub name: String,
    pub progression: Vec<Exercise>,
}

/// The mathematical content of an [`ExerciseProgression`].
pub struct ExerciseProgressionView {
    pub name: Seq<char>,
    pub progression: Seq<ExerciseView>,
}

impl View for ExerciseProgression {
    type V = ExerciseProgressionView;

    open spec fn view(&self) -> ExerciseProgressionView {
        ExerciseProgressionView {
            name: self.name@,
            progression: exercise_views(self.progression@),
        }
    }
}

/// The views of a sequence of progressions, in order.
pub open spec fn progression_views(progressions: Seq<ExerciseProgression>) -> Seq<
    ExerciseProgressionView,
> {
    Seq::new(progressions.len(), |i: int| progressions[i]@)
}

} // verus!
