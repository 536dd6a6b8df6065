use crate::domain::types::date::{date_from_ymd, date_of_ymd};
use crate::domain::types::weight::Weight;
use crate::domain::types::workout_plan::{ExercisePlanned, ExercisePlannedDetails, WorkoutPlan};
use vstd::prelude::*;

verus! {

/// The bit pattern of the weight sixty.
pub const SIXTY: u32 = 0x4270_0000;

/// What is planned of the three exercises of the plan that the page
/// shows: their names and the values aimed at.
pub open spec fn planned_exercises() -> Seq<(Seq<char>, ExercisePlannedDetails)> {
    seq![
        ("squat"@, ExercisePlannedDetails::Weighted { value: Weight { bits: SIXTY } }),
        ("handstand pushup"@, ExercisePlannedDetails::BodyweightReps { value: 2 }),
        ("handstand"@, ExercisePlannedDetails::BodyweightTime { value: 12 }),
    ]
}

/// The exercises of a plan as names and details, in order.
pub open spec fn plan_content(exercises: Seq<ExercisePlanned>) -> Seq<
    (Seq<char>, ExercisePlannedDetails),
> {
    Seq::new(exercises.len(), |i: int| (exercises[i].name@, exercises[i].details))
}

/// The plan that the page shows, for the day `date`: a squat towards a
/// weight of sixty, handstand pushups towards two repetitions and a
/// handstand towards twelve seconds, under no name.
pub fn planned_workout(date: chrono::NaiveDate) -> (plan: WorkoutPlan)
    ensures
        plan.date == date,
        plan.name@ == Seq::<char>::empty(),
        plan.exercises@.len() == 3,
        plan_content(plan.exercises@) == planned_exercises(),
{
    let mut exercises: Vec<ExercisePlanned> = Vec::new();
    exercises.push(
        ExercisePlanned {
            name: "squat".to_string(),
            details: ExercisePlannedDetails::Weighted { value: Weight::from_bits(SIXTY) },
        },
    );
    exercises.push(
        ExercisePlanned {
            name: "handstand pushup".to_string(),
            details: ExercisePlannedDetails::BodyweightReps { value: 2 },
        },
    );
    exercises.push(
        ExercisePlanned {
            name: "handstand".to_string(),
            details: ExercisePlannedDetails::BodyweightTime { value: 12 },
        },
    );
    assert(plan_content(exercises@) =~= planned_exercises());
    WorkoutPlan { date, name: String::new(), exercises }
}

/// The plan that the page shows: that of [`planned_workout`] for the
/// fifteenth of June 2024.
pub fn workout_template() -> (plan: WorkoutPlan)
    ensures
        date_of_ymd(2024, 6, 15) == Some(plan.date),
        plan.name@ == Seq::<char>::empty(),
        plan.exercises@.len() == 3,
        plan_content(plan.exercises@) == planned_exercises(),
{
    let date = date_from_ymd(2024, 6, 15).unwrap();
    planned_workout(date)
}

} // verus!
