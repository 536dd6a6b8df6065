use crate::domain::types::exercise::{exercise_views, Exercise, ExerciseView};
use vstd::prelude::*;

verus! {

/// A named list of exercises from which a workout can be planned.
#[derive(Clone, Debug, PartialEq, Eq)]
pub struct WorkoutTemplate {
    pub id: u64,
    pub name: String,
    pub exercises: Vec<Exercise>,
}

/// The mathematical content of a [`WorkoutTemplate`].
pub struct WorkoutTemplateView {
    pub id: u64,
    pub name: Seq<char>,
    pub exercises: Seq<ExerciseView>,
}

impl View for WorkoutTemplate {
    type V = WorkoutTemplateView;

    open spec fn view(&self) -> WorkoutTemplateView {
        WorkoutTemplateView {
            id: self.id,
            name: self.name@,
            exercises: exercise_views(self.exercises@),
        }
    }
}

/// A template that is not stored yet; its exercises by their identifiers.
#[derive(Clone, Debug, PartialEq, Eq)]
pub struct NewWorkoutTemplate {
    pub name: String,
    pub exercise_ids: Vec<u64>,
}

/// The mathematical content of a [`NewWorkoutTemplate`].
pub struct NewWorkoutTemplateView {
    pub name: Seq<char>,
    pub exercise_ids: Seq<u64>,
}

impl View for NewWorkoutTemplate {
    type V = NewWorkoutTemplateView;

    open spec fn view(&self) -> NewWorkoutTemplateView {
        NewWorkoutTemplateView { name: self.name@, exercise_ids: self.exercise_ids@ }
    }
}

} // verus!
