use crate::domain::types::weight::Weight;
use vstd::prelude::*;

verus! {

/// One planned exercise, by name, with the value aimed at.
#[derive(Clone, Debug, PartialEq, Eq)]
pub enum ExercisesPlanned {
    Weighted { name: String, value: Weight },
    BodyweightReps { name: String, value: i32 },
    BodyweightTime { name: String, value: i32 },
}

/// The exercises planned for one workout.
#[derive(Clone, Debug, PartialEq, Eq)]
pub struct WorkoutPlan {
    pub exercises: Vec<ExercisesPlanned>,
}

} // verus!
