use crate::domain::types::weight::Weight;
use vstd::prelude::*;

verus! {

/// What is planned of one exercise.
#[derive(Clone, Copy, Debug, PartialEq, Eq, Structural)]
pub enum ExercisePlannedDetails {
    Weighted { value: Weight },
    BodyweightReps { value: i32 },
    BodyweightTime { value: i32 },
}

/// One exercise of a plan.
#[derive(Clone, Debug, PartialEq, Eq)]
pub struct ExercisePlanned {
    pub name: String,
    pub details: ExercisePlannedDetails,
}

/// The workout planned for a day.
#[derive(Debug)]
pub struct WorkoutPlan {
    pub date: chrono::NaiveDate,
    pub name: String,
    pub exercises: Vec<ExercisePlanned>,
}

} // verus!
