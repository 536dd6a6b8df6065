use crate::domain::types::weight::Weight;
use vstd::prelude::*;

verus! {

/// What to reach in one step of a progression counted in repetitions.
#[derive(Debug, Clone, Copy, PartialEq, Eq, Structural)]
pub struct BodyweightRepsTarget {
    pub target_reps: u32,
    pub target_sets: Option<u32>,
}

/// One named step of a progression counted in repetitions.
#[derive(Debug, Clone, PartialEq, Eq)]
pub struct BodyweightRepsProgression {
    pub name: String,
    pub target: BodyweightRepsTarget,
}

/// What to reach in one step of a progression that is held for a time.
#[derive(Debug, Clone, Copy, PartialEq, Eq, Structural)]
pub struct BodyweightTimeTarget {
    pub target_duration_seconds: u32,
    pub target_sets: Option<u32>,
}

/// One named step of a progression that is held for a time.
#[derive(Debug, Clone, PartialEq, Eq)]
pub struct BodyweightTimeProgression {
    pub name: String,
    pub target: BodyweightTimeTarget,
}

/// What a goal aims at.
#[derive(Debug, Clone, PartialEq, Eq)]
pub enum ExerciseTarget {
    Weighted { target_weight: Weight, target_reps: Option<u32>, target_sets: Option<u32> },
    BodyweightReps { progression: Vec<BodyweightRepsProgression> },
    BodyweightTime { progression: Vec<BodyweightTimeProgression> },
}

/// A long-term goal for one exercise.
#[derive(Debug, Clone, PartialEq, Eq)]
pub struct Goal {
    pub name: String,
    pub target: ExerciseTarget,
}

} // verus!
