use crate::domain::types::exercise::{Exercise, ExerciseType, ExerciseView};
use crate::domain::types::weight::Weight;
use crate::domain::types::workout_template::{WorkoutTemplate, WorkoutTemplateView};
use vstd::prelude::*;

verus! {

/// The bit pattern of the weight one hundred.
pub const ONE_HUNDRED: u32 = 0x42c8_0000;

/// The template that the planning page shows: legs and handstand work,
/// under no stored identifier, with a squat towards a weight of a hundred,
/// handstand pushups towards two repetitions and a handstand towards
/// twelve seconds.
pub fn workout_template() -> (template: WorkoutTemplate)
    ensures
        template.exercises@.len() == 3,
        template@ == (WorkoutTemplateView {
            id: 0,
            name: "Legs and Handstand"@,
            exercises: seq![
                ExerciseView {
                    id: 1,
                    name: "squat"@,
                    exercise_type: ExerciseType::Weighted {
                        goal_weight: Weight { bits: ONE_HUNDRED },
                    },
                },
                ExerciseView {
                    id: 2,
                    name: "handstand pushup"@,
                    exercise_type: ExerciseType::BodyweightReps { goal_reps: 2 },
                },
                ExerciseView {
                    id: 3,
                    name: "handstand"@,
                    exercise_type: ExerciseType::BodyweightTime { goal_duration_seconds: 12 },
                },
            ],
        }),
{
    let mut exercises: Vec<Exercise> = Vec::new();
    exercises.push(
        Exercise {
            id: 1,
            name: "squat".to_string(),
            exercise_type: ExerciseType::Weighted {
                goal_weight: Weight::from_bits(ONE_HUNDRED),
            },
        },
    );
    exercises.push(
        Exercise {
            id: 2,
            name: "handstand pushup".to_string(),
            exercise_type: ExerciseType::BodyweightReps { goal_reps: 2 },
        },
    );
    exercises.push(
        Exercise {
            id: 3,
            name: "handstand".to_string(),
            exercise_type: ExerciseType::BodyweightTime { goal_duration_seconds: 12 },
        },
    );
    let template = WorkoutTemplate { id: 0, name: "Legs and Handstand".to_string(), exercises };
    assert(template@.exercises =~= seq![
        ExerciseView {
            id: 1,
            name: "squat"@,
            exercise_type: ExerciseType::Weighted {
                goal_weight: Weight { bits: ONE_HUNDRED },
            },
        },
        ExerciseView {
            id: 2,
            name: "handstand pushup"@,
            exercise_type: ExerciseType::BodyweightReps { goal_reps: 2 },
        },
        ExerciseView {
            id: 3,
            name: "handstand"@,
            exercise_type: ExerciseType::BodyweightTime { goal_duration_seconds: 12 },
        },
    ]);
    template
}

} // verus!
