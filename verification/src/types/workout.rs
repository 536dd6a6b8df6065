use crate::domain::types::weight::Weight;
use vstd::prelude::*;

verus! {

/// A checked set of a weighted exercise.
#[derive(Clone, Copy, Debug, PartialEq, Eq, Structural)]
pub struct WeightedSet {
    pub reps: u32,
    pub weight: Weight,
    pub failure: bool,
}

/// A checked set of a bodyweight exercise counted in repetitions.
#[derive(Clone, Copy, Debug, PartialEq, Eq, Structural)]
pub struct BodyweightRepSet {
    pub reps: u32,
    pub failure: bool,
}

/// A checked set of a bodyweight exercise that is held for a time.
#[derive(Clone, Copy, Debug, PartialEq, Eq, Structural)]
pub struct BodyweightTimeSet {
    pub duration_seconds: u32,
}

/// The sets done of one exercise, all of one kind.
#[derive(Clone, Debug, PartialEq, Eq)]
pub enum ExerciseSet {
    Weighted(Vec<WeightedSet>),
    BodyweightReps(Vec<BodyweightRepSet>),
    BodyweightTime(Vec<BodyweightTimeSet>),
}

/// The mathematical content of an [`ExerciseSet`].
pub enum ExerciseSetView {
    Weighted(Seq<WeightedSet>),
    BodyweightReps(Seq<BodyweightRepSet>),
    BodyweightTime(Seq<BodyweightTimeSet>),
}

impl View for ExerciseSet {
    type V = ExerciseSetView;

    open spec fn view(&self) -> ExerciseSetView {
        match self {
            ExerciseSet::Weighted(sets) => ExerciseSetView::Weighted(sets@),
            ExerciseSet::BodyweightReps(sets) => ExerciseSetView::BodyweightReps(sets@),
            ExerciseSet::BodyweightTime(sets) => ExerciseSetView::BodyweightTime(sets@),
        }
    }
}

/// One exercise, by name, with the sets done of it.
#[derive(Clone, Debug, PartialEq, Eq)]
pub struct Exercise {
    pub name: String,
    pub sets: ExerciseSet,
}

/// The mathematical content of an [`Exercise`].
pub struct ExerciseView {
    pub name: Seq<char>,
    pub sets: ExerciseSetView,
}

impl View for Exercise {
    type V = ExerciseView;

    open spec fn view(&self) -> ExerciseView {
        ExerciseView { name: self.name@, sets: self.sets@ }
    }
}

/// The views of a sequence of exercises, in order.
pub open spec fn exercise_views(exercises: Seq<Exercise>) -> Seq<ExerciseView> {
    Seq::new(exercises.len(), |i: int| exercises[i]@)
}

/// A workout as a client reports it, every set checked.
#[derive(Debug)]
pub struct Workout {
    pub date: chrono::NaiveDate,
    pub mood: Option<u8>,
    pub exercises: Vec<Exercise>,
}

/// The mathematical content of a [`Workout`].
pub struct WorkoutView {
    pub date: chrono::NaiveDate,
    pub mood: Option<u8>,
    pub exercises: Seq<ExerciseView>,
}

impl View for Workout {
    type V = WorkoutView;

    open spec fn view(&self) -> WorkoutView {
        WorkoutView {
            date: self.date,
            mood: self.mood,
            exercises: exercise_views(self.exercises@),
        }
    }
}

impl WeightedSet {
    /// The set has at least one repetition and a weight greater than
    /// zero.
    pub open spec fn is_positive(self) -> bool {
        self.reps > 0 && self.weight.is_positive()
    }
}

impl BodyweightRepSet {
    /// The set has at least one repetition.
    pub open spec fn is_positive(self) -> bool {
        self.reps > 0
    }
}

impl BodyweightTimeSet {
    /// The set lasts at least one second.
    pub open spec fn is_positive(self) -> bool {
        self.duration_seconds > 0
    }
}

impl ExerciseSetView {
    /// Every set is positive.
    pub open spec fn all_positive(self) -> bool {
        match self {
            ExerciseSetView::Weighted(sets) => forall|i: int|
                0 <= i < sets.len() ==> (#[trigger] sets[i]).is_positive(),
            ExerciseSetView::BodyweightReps(sets) => forall|i: int|
                0 <= i < sets.len() ==> (#[trigger] sets[i]).is_positive(),
            ExerciseSetView::BodyweightTime(sets) => forall|i: int|
                0 <= i < sets.len() ==> (#[trigger] sets[i]).is_positive(),
        }
    }
}

impl WorkoutView {
    /// Every set of every exercise is positive.
    pub open spec fn all_positive(self) -> bool {
        forall|i: int|
            0 <= i < self.exercises.len() ==> (#[trigger] self.exercises[i]).sets.all_positive()
    }
}

} // verus!
