use chrono::NaiveDate;
use sport_tracker::domain::types::exercise::ExerciseType;
use sport_tracker::domain::types::workout_plan::{ExercisePlanned, ExercisePlannedDetails};
use sport_tracker::inbound::new_workout;
use sport_tracker::pages::new_workout::{planned_workout, workout_template};

#[test]
fn plan_of_the_planning_page_is_for_the_fifteenth_of_june_2024() {
    let plan = workout_template();
    assert_eq!(plan.date, NaiveDate::from_ymd_opt(2024, 6, 15).unwrap());
    assert_eq!(plan.date.to_string(), "2024-06-15");
    assert_eq!(plan.name, "");
    assert_eq!(plan.exercises.len(), 3);
}

#[test]
fn plan_of_the_planning_page_for_any_day() {
    let day = NaiveDate::from_ymd_opt(1999, 12, 31).unwrap();
    let plan = planned_workout(day);
    assert_eq!(plan.date, day);
    assert_eq!(plan.name, "");
    assert_eq!(
        plan.exercises,
        vec![
            ExercisePlanned {
                name: "squat".to_string(),
                details: ExercisePlannedDetails::Weighted {
                    value: sport_tracker::domain::types::weight::Weight::from_bits(
                        60.0f32.to_bits()
                    ),
                },
            },
            ExercisePlanned {
                name: "handstand pushup".to_string(),
                details: ExercisePlannedDetails::BodyweightReps { value: 2 },
            },
            ExercisePlanned {
                name: "handstand".to_string(),
                details: ExercisePlannedDetails::BodyweightTime { value: 12 },
            },
        ]
    );
    assert_eq!(workout_template().exercises, plan.exercises);
}

#[test]
fn template_and_plan_of_the_planning_page_name_the_same_exercises() {
    let template = new_workout::workout_template();
    let plan = workout_template();
    let of_template: Vec<&str> = template.exercises.iter().map(|e| e.name.as_str()).collect();
    let of_plan: Vec<&str> = plan.exercises.iter().map(|e| e.name.as_str()).collect();
    assert_eq!(of_template, of_plan);
    assert!(matches!(
        template.exercises[1].exercise_type,
        ExerciseType::BodyweightReps { goal_reps: 2 }
    ));
}
