use chrono::NaiveDate;
use sport_tracker::domain::traits::exercise_model::ExerciseModelError;
use sport_tracker::domain::traits::workout_model::WorkoutModelError;
use sport_tracker::domain::traits::workout_template_model::WorkoutTemplateModelError;
use sport_tracker::domain::types::exercise::{Exercise, ExerciseProgression, ExerciseType};
use sport_tracker::domain::types::weight::Weight;
use sport_tracker::domain::types::workout::{
    BodyweightRepSet, BodyweightTimeSet, NewBodyweightRepSet, NewBodyweightTimeSet, NewWeightedSet,
    NewWorkoutExercise, NewWorkoutSet, WeightedSet, Workout, WorkoutExercise, WorkoutSet,
};
use sport_tracker::domain::types::workout_template::WorkoutTemplate;
use sport_tracker::inbound::new_workout::workout_template;
use sport_tracker::outbound::exercise_repository::{
    add_exercise_progression_statements, add_exercise_statements,
    delete_exercise_progression_statements, delete_exercise_statements,
    update_exercise_progression_statements, update_exercise_statements, ExerciseStatement,
    exercise_goals_to_sqlite, exercises_from_rows, fetched_exercise, fetched_exercises,
    fetched_progression, fetched_progressions, from_exercise_to_sqlite_goal_update,
    from_exercise_to_sqlite_insert, from_exercise_to_sqlite_update, progression_insert_rows,
    progression_of_exercise, progression_update_rows, progressions_from_rows, SqliteExercise,
    SqliteExerciseGoalUpdate, SqliteExerciseInsert, SqliteExerciseType, SqliteExerciseUpdate,
};
use sport_tracker::outbound::store::{
    completed, fetched_one, id, inserted, key, Batch, StatementOutcome, StoreError,
};
use sport_tracker::outbound::workout_repository::{
    delete_workout_statements, insert_workout_sets_statements,
    update_workout_header_statements, update_workout_statements,
    WorkoutStatement, groups_from_rows, mood_from_sqlite, mood_to_sqlite, order_keys_fit, replacement_exercises,
    set_from_sqlite, set_to_sqlite, set_without_id, sets_from_rows, workout_ids, workout_insert,
    workout_set_rows, workout_update, SetGroup, SqliteWorkout, SqliteWorkoutSet,
    SqliteWorkoutSetInsert, WorkoutAssembly,
};
use sport_tracker::outbound::workout_template_repository::{
    delete_workout_template_statements, insert_template_exercises_statements,
    update_workout_template_statements, SqliteWorkoutTemplateUpdate, TemplateStatement,
    template_exercise_ids, template_ids, template_link_rows, template_update,
    SqliteWorkoutTemplate, SqliteWorkoutTemplateExercise, SqliteWorkoutTemplateExerciseInsert,
    TemplateAssembly,
};

fn bits_of(value: f32) -> Weight {
    Weight::from_bits(value.to_bits())
}

fn day() -> NaiveDate {
    NaiveDate::from_ymd_opt(2024, 6, 15).unwrap()
}

fn missing() -> StoreError {
    StoreError {
        row_not_found: true,
        message: "no rows returned by a query that expected to return at least one row"
            .to_string(),
    }
}

fn broken() -> StoreError {
    StoreError {
        row_not_found: false,
        message: "disk I/O error".to_string(),
    }
}

fn row(id: u64, name: &str, progression: Option<(&str, u64)>, reps: u16) -> SqliteExercise {
    SqliteExercise {
        id,
        name: name.to_string(),
        exercise_type: SqliteExerciseType::BodyweightReps,
        progression_name: progression.map(|p| p.0.to_string()),
        progression_order: progression.map(|p| p.1),
        goal_reps: Some(reps),
        goal_weight: None,
        goal_duration_seconds: None,
    }
}

fn reps_exercise(id: u64, name: &str, reps: u16) -> Exercise {
    Exercise {
        id,
        name: name.to_string(),
        exercise_type: ExerciseType::BodyweightReps { goal_reps: reps },
    }
}

#[test]
fn exercise_type_is_encoded_in_the_column_of_its_kind() {
    assert_eq!(
        exercise_goals_to_sqlite(&ExerciseType::Weighted {
            goal_weight: bits_of(80.0)
        }),
        (
            SqliteExerciseType::Weighted,
            None,
            Some(bits_of(80.0)),
            None
        )
    );
    assert_eq!(
        exercise_goals_to_sqlite(&ExerciseType::BodyweightReps { goal_reps: 8 }),
        (SqliteExerciseType::BodyweightReps, Some(8), None, None)
    );
    assert_eq!(
        exercise_goals_to_sqlite(&ExerciseType::BodyweightTime {
            goal_duration_seconds: 60
        }),
        (SqliteExerciseType::BodyweightTime, None, None, Some(60))
    );
}

#[test]
fn exercise_is_encoded_as_insert_and_as_updates() {
    let exercise = Exercise {
        id: 4,
        name: "bench press".to_string(),
        exercise_type: ExerciseType::Weighted {
            goal_weight: bits_of(80.0),
        },
    };
    assert_eq!(
        from_exercise_to_sqlite_insert(exercise.clone(), None, None),
        SqliteExerciseInsert {
            name: "bench press".to_string(),
            exercise_type: SqliteExerciseType::Weighted,
            progression_name: None,
            progression_order: None,
            goal_reps: None,
            goal_weight: Some(bits_of(80.0)),
            goal_duration_seconds: None,
        }
    );
    assert_eq!(
        from_exercise_to_sqlite_update(exercise.clone(), Some("press".to_string()), Some(2)),
        SqliteExerciseUpdate {
            id: 4,
            name: "bench press".to_string(),
            exercise_type: SqliteExerciseType::Weighted,
            progression_name: Some("press".to_string()),
            progression_order: Some(2),
            goal_reps: None,
            goal_weight: Some(bits_of(80.0)),
            goal_duration_seconds: None,
        }
    );
    assert_eq!(
        from_exercise_to_sqlite_goal_update(exercise),
        SqliteExerciseGoalUpdate {
            id: 4,
            name: "bench press".to_string(),
            exercise_type: SqliteExerciseType::Weighted,
            goal_reps: None,
            goal_weight: Some(bits_of(80.0)),
            goal_duration_seconds: None,
        }
    );
}

#[test]
fn row_is_decoded_by_its_tag_alone() {
    let stray = SqliteExercise {
        id: 9,
        name: "squat".to_string(),
        exercise_type: SqliteExerciseType::Weighted,
        progression_name: Some("squat".to_string()),
        progression_order: Some(1),
        goal_reps: Some(5),
        goal_weight: None,
        goal_duration_seconds: Some(30),
    };
    assert_eq!(
        Exercise::from(stray.clone()),
        Exercise {
            id: 9,
            name: "squat".to_string(),
            exercise_type: ExerciseType::Weighted {
                goal_weight: bits_of(0.0)
            },
        }
    );
    let timed = SqliteExercise {
        exercise_type: SqliteExerciseType::BodyweightTime,
        ..stray.clone()
    };
    assert_eq!(
        Exercise::from(timed).exercise_type,
        ExerciseType::BodyweightTime {
            goal_duration_seconds: 30
        }
    );
    let counted = SqliteExercise {
        exercise_type: SqliteExerciseType::BodyweightReps,
        goal_reps: None,
        ..stray
    };
    assert_eq!(
        Exercise::from(counted).exercise_type,
        ExerciseType::BodyweightReps { goal_reps: 0 }
    );
}

#[test]
fn inserted_exercise_reads_back_for_each_kind() {
    let kinds = [
        ExerciseType::Weighted {
            goal_weight: bits_of(80.0),
        },
        ExerciseType::BodyweightReps { goal_reps: 8 },
        ExerciseType::BodyweightTime {
            goal_duration_seconds: 60,
        },
    ];
    for kind in kinds {
        let exercise = Exercise {
            id: 0,
            name: "any".to_string(),
            exercise_type: kind,
        };
        let insert = from_exercise_to_sqlite_insert(exercise, Some("chain".to_string()), Some(3));
        let stored = SqliteExercise {
            id: 17,
            name: insert.name,
            exercise_type: insert.exercise_type,
            progression_name: insert.progression_name,
            progression_order: insert.progression_order,
            goal_reps: insert.goal_reps,
            goal_weight: insert.goal_weight,
            goal_duration_seconds: insert.goal_duration_seconds,
        };
        assert_eq!(
            Exercise::from(stored),
            Exercise {
                id: 17,
                name: "any".to_string(),
                exercise_type: kind,
            }
        );
    }
}

#[test]
fn reply_to_the_lookup_of_one_exercise() {
    assert_eq!(
        fetched_exercise(Ok(row(1, "pushup", None, 10))),
        Ok(reps_exercise(1, "pushup", 10))
    );
    assert_eq!(
        fetched_exercise(Err(missing())),
        Err(ExerciseModelError::NotFound)
    );
    assert_eq!(
        fetched_exercise(Err(broken())),
        Err(ExerciseModelError::DatabaseError(
            "disk I/O error".to_string()
        ))
    );
}

#[test]
fn reply_to_the_listing_of_exercises() {
    assert_eq!(fetched_exercises(Ok(vec![])), Ok(vec![]));
    assert_eq!(
        fetched_exercises(Ok(vec![
            row(2, "pushup", None, 10),
            row(1, "pullup", None, 8)
        ])),
        Ok(vec![
            reps_exercise(2, "pushup", 10),
            reps_exercise(1, "pullup", 8)
        ])
    );
    assert_eq!(
        fetched_exercises(Err(missing())),
        Err(ExerciseModelError::DatabaseError(missing().message))
    );
    assert_eq!(
        exercises_from_rows(vec![row(5, "dip", None, 3)]),
        vec![reps_exercise(5, "dip", 3)]
    );
}

#[test]
fn rows_are_grouped_by_progression_name_in_order_of_first_occurrence() {
    let rows = vec![
        row(1, "pushup incline", Some(("pushup", 1)), 10),
        row(2, "ring row", Some(("pullup", 1)), 10),
        row(3, "plank", None, 0),
        row(4, "pushup knees", Some(("pushup", 2)), 15),
        row(5, "pullup", Some(("pullup", 2)), 5),
        row(6, "pushup", Some(("pushup", 3)), 20),
    ];
    let expected = vec![
        ExerciseProgression {
            name: "pushup".to_string(),
            progression: vec![
                reps_exercise(1, "pushup incline", 10),
                reps_exercise(4, "pushup knees", 15),
                reps_exercise(6, "pushup", 20),
            ],
        },
        ExerciseProgression {
            name: "pullup".to_string(),
            progression: vec![reps_exercise(2, "ring row", 10), reps_exercise(5, "pullup", 5)],
        },
    ];
    assert_eq!(progressions_from_rows(rows.clone()), expected);
    assert_eq!(fetched_progressions(Ok(rows)), Ok(expected));
    assert_eq!(fetched_progressions(Ok(vec![])), Ok(vec![]));
    assert_eq!(
        fetched_progressions(Ok(vec![row(3, "plank", None, 0)])),
        Ok(vec![])
    );
    assert_eq!(
        fetched_progressions(Err(broken())),
        Err(ExerciseModelError::DatabaseError(
            "disk I/O error".to_string()
        ))
    );
}

#[test]
fn reply_to_the_lookup_of_the_exercise_of_a_progression() {
    assert_eq!(
        progression_of_exercise(Ok(row(1, "pushup incline", Some(("pushup", 1)), 10))),
        Ok("pushup".to_string())
    );
    assert_eq!(
        progression_of_exercise(Ok(row(1, "squat", None, 10))),
        Err(ExerciseModelError::NotFound)
    );
    assert_eq!(
        progression_of_exercise(Err(missing())),
        Err(ExerciseModelError::NotFound)
    );
    assert_eq!(
        progression_of_exercise(Err(broken())),
        Err(ExerciseModelError::DatabaseError(
            "disk I/O error".to_string()
        ))
    );
}

#[test]
fn reply_to_the_listing_of_one_progression() {
    assert_eq!(
        fetched_progression(
            "pushup",
            Ok(vec![
                row(1, "pushup incline", Some(("pushup", 1)), 10),
                row(2, "pushup", Some(("pushup", 2)), 20)
            ])
        ),
        Ok(ExerciseProgression {
            name: "pushup".to_string(),
            progression: vec![
                reps_exercise(1, "pushup incline", 10),
                reps_exercise(2, "pushup", 20)
            ],
        })
    );
    assert_eq!(
        fetched_progression("nonexistent", Ok(vec![])),
        Err(ExerciseModelError::NotFound)
    );
    assert_eq!(
        fetched_progression("pushup", Err(missing())),
        Err(ExerciseModelError::DatabaseError(missing().message))
    );
}

fn long_progression(members: usize) -> ExerciseProgression {
    ExerciseProgression {
        name: "chain".to_string(),
        progression: (0..members)
            .map(|i| reps_exercise(100 + i as u64, &format!("step {}", i), i as u16))
            .collect(),
    }
}

#[test]
fn progression_is_stored_with_order_keys_from_one() {
    let rows = progression_insert_rows(long_progression(3)).expect("rows");
    assert_eq!(rows.len(), 3);
    for (i, row) in rows.iter().enumerate() {
        assert_eq!(
            *row,
            SqliteExerciseInsert {
                name: format!("step {}", i),
                exercise_type: SqliteExerciseType::BodyweightReps,
                progression_name: Some("chain".to_string()),
                progression_order: Some(i as u64 + 1),
                goal_reps: Some(i as u16),
                goal_weight: None,
                goal_duration_seconds: None,
            }
        );
    }
    assert_eq!(progression_insert_rows(long_progression(0)), None);
    let updates = progression_update_rows(long_progression(2));
    assert_eq!(
        updates,
        vec![
            SqliteExerciseUpdate {
                id: 100,
                name: "step 0".to_string(),
                exercise_type: SqliteExerciseType::BodyweightReps,
                progression_name: Some("chain".to_string()),
                progression_order: Some(1),
                goal_reps: Some(0),
                goal_weight: None,
                goal_duration_seconds: None,
            },
            SqliteExerciseUpdate {
                id: 101,
                name: "step 1".to_string(),
                exercise_type: SqliteExerciseType::BodyweightReps,
                progression_name: Some("chain".to_string()),
                progression_order: Some(2),
                goal_reps: Some(1),
                goal_weight: None,
                goal_duration_seconds: None,
            },
        ]
    );
    assert_eq!(progression_update_rows(long_progression(0)), vec![]);
}

#[test]
fn order_keys_of_a_progression_rise_by_one_beyond_255_members() {
    let rows = progression_insert_rows(long_progression(300)).expect("rows");
    let keys: Vec<Option<u64>> = rows.iter().map(|row| row.progression_order).collect();
    let expected: Vec<Option<u64>> = (1..=300).map(Some).collect();
    assert_eq!(keys, expected);
    assert_eq!(keys[254], Some(255));
    assert_eq!(keys[255], Some(256));
    assert_eq!(keys[256], Some(257));
    let updates = progression_update_rows(long_progression(300));
    let keys: Vec<Option<u64>> = updates.iter().map(|row| row.progression_order).collect();
    assert_eq!(keys, expected);
}

#[test]
fn replies_of_the_store_for_each_kind_of_statement() {
    let done = StatementOutcome {
        rows_affected: 1,
        last_insert_rowid: 12,
    };

    assert_eq!(fetched_one::<u8, ExerciseModelError>(Ok(3)), Ok(3));
    assert_eq!(
        fetched_one::<u8, WorkoutModelError>(Err(missing())),
        Err(WorkoutModelError::NotFound)
    );
    assert_eq!(
        fetched_one::<u8, WorkoutTemplateModelError>(Err(broken())),
        Err(WorkoutTemplateModelError::DatabaseError(
            "disk I/O error".to_string()
        ))
    );

    assert_eq!(
        completed::<Vec<u8>, WorkoutModelError>(Ok(vec![1, 2])),
        Ok(vec![1, 2])
    );
    assert_eq!(
        completed::<Vec<u8>, WorkoutModelError>(Err(missing())),
        Err(WorkoutModelError::DatabaseError(missing().message))
    );

    assert_eq!(inserted::<WorkoutModelError>(Ok(done)), Ok(12));
    assert_eq!(
        inserted::<WorkoutModelError>(Ok(StatementOutcome {
            rows_affected: 1,
            last_insert_rowid: -1
        })),
        Ok(u64::MAX)
    );
    assert_eq!(
        inserted::<WorkoutModelError>(Err(broken())),
        Err(WorkoutModelError::DatabaseError(
            "disk I/O error".to_string()
        ))
    );
}

#[test]
fn keys_and_identifiers_share_their_bits() {
    assert_eq!(key(0), 0);
    assert_eq!(key(5), 5);
    assert_eq!(key(i64::MAX as u64), i64::MAX);
    assert_eq!(key(i64::MAX as u64 + 1), i64::MIN);
    assert_eq!(key(u64::MAX), -1);
    assert_eq!(id(0), 0);
    assert_eq!(id(999), 999);
    assert_eq!(id(-1), u64::MAX);
    assert_eq!(id(i64::MIN), i64::MAX as u64 + 1);
    for value in [0u64, 1, 999, u64::MAX / 3, u64::MAX] {
        assert_eq!(id(key(value)), value);
    }
}

#[test]
fn mood_is_stored_widened_and_read_back_in_its_low_eight_bits() {
    assert_eq!(mood_to_sqlite(None), None);
    assert_eq!(mood_to_sqlite(Some(7)), Some(7));
    assert_eq!(mood_to_sqlite(Some(255)), Some(255));
    assert_eq!(mood_from_sqlite(None), None);
    assert_eq!(mood_from_sqlite(Some(7)), Some(7));
    assert_eq!(mood_from_sqlite(Some(259)), Some(3));
    assert_eq!(mood_from_sqlite(Some(-1)), Some(255));
    let insert = workout_insert(day(), Some(10));
    assert_eq!(insert.date, day());
    assert_eq!(insert.mood, Some(10));
    let update = workout_update(&Workout {
        id: 31,
        date: day(),
        mood: None,
        exercises: vec![],
    });
    assert_eq!(update.id, 31);
    assert_eq!(update.date, day());
    assert_eq!(update.mood, None);
}

fn rep_set(reps: u16) -> NewWorkoutSet {
    NewWorkoutSet::BodyweightReps(NewBodyweightRepSet {
        reps,
        failure: false,
    })
}

#[test]
fn sets_are_encoded_in_the_columns_of_their_kind() {
    assert_eq!(
        set_to_sqlite(&NewWorkoutSet::Weighted(NewWeightedSet {
            reps: 5,
            weight: bits_of(82.5),
            failure: true,
        })),
        (Some(5), Some(bits_of(82.5)), None, 1)
    );
    assert_eq!(set_to_sqlite(&rep_set(12)), (Some(12), None, None, 0));
    assert_eq!(
        set_to_sqlite(&NewWorkoutSet::BodyweightTime(NewBodyweightTimeSet {
            duration_seconds: 45,
            failure: true,
        })),
        (None, None, Some(45), 1)
    );
}

#[test]
fn order_key_is_a_thousand_for_each_exercise_before_plus_the_place_of_the_set() {
    let exercises = vec![
        NewWorkoutExercise {
            exercise_id: 7,
            sets: vec![rep_set(1), rep_set(2)],
        },
        NewWorkoutExercise {
            exercise_id: 8,
            sets: vec![],
        },
        NewWorkoutExercise {
            exercise_id: 9,
            sets: (0..6).map(rep_set).collect(),
        },
    ];
    assert!(order_keys_fit(&exercises));
    let rows = workout_set_rows(3, &exercises);
    let keys: Vec<(i64, i64)> = rows.iter().map(|r| (r.exercise_id, r.set_order)).collect();
    assert_eq!(
        keys,
        vec![
            (7, 1),
            (7, 2),
            (9, 2001),
            (9, 2002),
            (9, 2003),
            (9, 2004),
            (9, 2005),
            (9, 2006)
        ]
    );
    assert_eq!(
        rows[7],
        SqliteWorkoutSetInsert {
            workout_id: 3,
            exercise_id: 9,
            set_order: 2006,
            reps: Some(5),
            weight: None,
            duration_seconds: None,
            failure: 0,
        }
    );
    assert_eq!(workout_set_rows(3, &vec![]), vec![]);
    assert!(order_keys_fit(&vec![]));
}

#[test]
fn order_keys_of_two_exercises_collide_beyond_a_thousand_sets() {
    let exactly = vec![
        NewWorkoutExercise {
            exercise_id: 1,
            sets: (0..1000).map(|_| rep_set(1)).collect(),
        },
        NewWorkoutExercise {
            exercise_id: 2,
            sets: vec![rep_set(1)],
        },
    ];
    let rows = workout_set_rows(1, &exactly);
    assert_eq!(rows[998].set_order, 999);
    assert_eq!(rows[999].set_order, 1000);
    assert_eq!(rows[1000].set_order, 1001);
    assert_eq!(rows[1000].exercise_id, 2);

    let beyond = vec![
        NewWorkoutExercise {
            exercise_id: 1,
            sets: (0..1002).map(|_| rep_set(1)).collect(),
        },
        NewWorkoutExercise {
            exercise_id: 2,
            sets: vec![rep_set(1), rep_set(1)],
        },
    ];
    let rows = workout_set_rows(1, &beyond);
    assert_eq!((rows[1000].exercise_id, rows[1000].set_order), (1, 1001));
    assert_eq!((rows[1001].exercise_id, rows[1001].set_order), (1, 1002));
    assert_eq!((rows[1002].exercise_id, rows[1002].set_order), (2, 1001));
    assert_eq!((rows[1003].exercise_id, rows[1003].set_order), (2, 1002));
}

fn set_row(id: u64, exercise_id: u64, set_order: i64) -> SqliteWorkoutSet {
    SqliteWorkoutSet {
        id,
        workout_id: 1,
        exercise_id,
        set_order,
        reps: Some(5),
        weight: None,
        duration_seconds: None,
        failure: 0,
    }
}

#[test]
fn set_row_is_decoded_by_the_columns_that_are_set() {
    let plain = set_row(4, 2, 1);
    assert_eq!(
        set_from_sqlite(&plain),
        WorkoutSet::BodyweightReps(BodyweightRepSet {
            id: 4,
            reps: 5,
            failure: false,
        })
    );
    let weighted = SqliteWorkoutSet {
        weight: Some(bits_of(82.5)),
        duration_seconds: Some(30),
        failure: 2,
        ..plain
    };
    assert_eq!(
        set_from_sqlite(&weighted),
        WorkoutSet::Weighted(WeightedSet {
            id: 4,
            reps: 5,
            weight: bits_of(82.5),
            failure: true,
        })
    );
    let timed = SqliteWorkoutSet {
        duration_seconds: Some(30),
        failure: -1,
        ..plain
    };
    assert_eq!(
        set_from_sqlite(&timed),
        WorkoutSet::BodyweightTime(BodyweightTimeSet {
            id: 4,
            duration_seconds: 30,
            failure: true,
        })
    );
    let empty = SqliteWorkoutSet {
        reps: None,
        ..plain
    };
    assert_eq!(
        set_from_sqlite(&empty),
        WorkoutSet::BodyweightReps(BodyweightRepSet {
            id: 4,
            reps: 0,
            failure: false,
        })
    );
    let weighted_without_reps = SqliteWorkoutSet {
        reps: None,
        weight: Some(bits_of(10.0)),
        ..plain
    };
    assert_eq!(
        set_from_sqlite(&weighted_without_reps),
        WorkoutSet::Weighted(WeightedSet {
            id: 4,
            reps: 0,
            weight: bits_of(10.0),
            failure: false,
        })
    );
    let wide = SqliteWorkoutSet {
        reps: Some(65536 + 12),
        ..plain
    };
    assert_eq!(
        set_from_sqlite(&wide),
        WorkoutSet::BodyweightReps(BodyweightRepSet {
            id: 4,
            reps: 12,
            failure: false,
        })
    );
    assert_eq!(
        sets_from_rows(&vec![plain, timed]),
        vec![set_from_sqlite(&plain), set_from_sqlite(&timed)]
    );
}

#[test]
fn set_rows_are_grouped_by_exercise_in_order_of_first_occurrence() {
    let rows = vec![
        set_row(1, 7, 1),
        set_row(2, 7, 2),
        set_row(3, 9, 1001),
        set_row(4, 7, 2001),
        set_row(5, 8, 3001),
        set_row(6, 9, 4001),
    ];
    assert_eq!(
        groups_from_rows(&rows),
        vec![
            SetGroup {
                exercise_id: 7,
                rows: vec![rows[0], rows[1], rows[3]],
            },
            SetGroup {
                exercise_id: 9,
                rows: vec![rows[2], rows[5]],
            },
            SetGroup {
                exercise_id: 8,
                rows: vec![rows[4]],
            },
        ]
    );
    assert_eq!(groups_from_rows(&vec![]), vec![]);
}

fn header() -> SqliteWorkout {
    SqliteWorkout {
        id: 1,
        date: day(),
        mood: Some(7),
    }
}

#[test]
fn workout_is_assembled_exercise_by_exercise() {
    let rows = vec![set_row(1, 7, 1), set_row(2, 9, 1001), set_row(3, 7, 2001)];
    let assembly = WorkoutAssembly::begin(header(), rows.clone());
    assert_eq!(assembly.next_exercise_id(), Some(7));
    let assembly = assembly
        .resolved(Ok(reps_exercise(7, "pullup", 8)))
        .expect("should go on");
    assert_eq!(assembly.next_exercise_id(), Some(9));
    let assembly = assembly
        .resolved(Ok(reps_exercise(9, "dip", 10)))
        .expect("should go on");
    assert_eq!(assembly.next_exercise_id(), None);
    let assembly = assembly
        .resolved(Ok(reps_exercise(11, "stray", 1)))
        .expect("should go on");
    assert_eq!(assembly.next_exercise_id(), None);
    let workout = assembly.finish();
    assert_eq!(workout.id, 1);
    assert_eq!(workout.date, day());
    assert_eq!(workout.mood, Some(7));
    assert_eq!(
        workout.exercises,
        vec![
            WorkoutExercise {
                exercise: reps_exercise(7, "pullup", 8),
                sets: vec![set_from_sqlite(&rows[0]), set_from_sqlite(&rows[2])],
            },
            WorkoutExercise {
                exercise: reps_exercise(9, "dip", 10),
                sets: vec![set_from_sqlite(&rows[1])],
            },
        ]
    );

    let empty = WorkoutAssembly::begin(header(), vec![]);
    assert_eq!(empty.next_exercise_id(), None);
    assert!(empty.finish().exercises.is_empty());
}

#[test]
fn assembly_of_a_workout_ends_on_a_failed_lookup_with_its_debug_text() {
    let assembly = WorkoutAssembly::begin(header(), vec![set_row(1, 7, 1)]);
    match assembly.resolved(Err(ExerciseModelError::NotFound)) {
        Err(error) => assert_eq!(error, WorkoutModelError::DatabaseError("NotFound".to_string())),
        Ok(assembly) => panic!("expected an error, got {:?}", assembly),
    }
    let assembly = WorkoutAssembly::begin(header(), vec![set_row(1, 7, 1)]);
    match assembly.resolved(Err(ExerciseModelError::DatabaseError(
        "disk \"full\"".to_string(),
    ))) {
        Err(error) => assert_eq!(
            error,
            WorkoutModelError::DatabaseError("DatabaseError(\"disk \\\"full\\\"\")".to_string())
        ),
        Ok(assembly) => panic!("expected an error, got {:?}", assembly),
    }
}

#[test]
fn template_is_assembled_link_by_link() {
    let links = vec![
        SqliteWorkoutTemplateExercise {
            workout_template_id: 4,
            exercise_id: 9,
        },
        SqliteWorkoutTemplateExercise {
            workout_template_id: 4,
            exercise_id: 7,
        },
        SqliteWorkoutTemplateExercise {
            workout_template_id: 4,
            exercise_id: 9,
        },
    ];
    let template_row = SqliteWorkoutTemplate {
        id: 4,
        name: "Pull".to_string(),
    };
    let mut assembly = TemplateAssembly::begin(template_row.clone(), links);
    let mut asked = Vec::new();
    while let Some(exercise_id) = assembly.next_exercise_id() {
        asked.push(exercise_id);
        assembly = assembly
            .resolved(Ok(reps_exercise(exercise_id, "any", exercise_id as u16)))
            .expect("should go on");
    }
    assert_eq!(asked, vec![9, 7, 9]);
    let unchanged = assembly
        .clone()
        .resolved(Ok(reps_exercise(1, "stray", 1)))
        .expect("should go on");
    assert_eq!(unchanged, assembly);
    assert_eq!(
        assembly.finish(),
        WorkoutTemplate {
            id: 4,
            name: "Pull".to_string(),
            exercises: vec![
                reps_exercise(9, "any", 9),
                reps_exercise(7, "any", 7),
                reps_exercise(9, "any", 9)
            ],
        }
    );

    let failing = TemplateAssembly::begin(
        template_row.clone(),
        vec![SqliteWorkoutTemplateExercise {
            workout_template_id: 4,
            exercise_id: 9,
        }],
    );
    assert_eq!(
        failing.resolved(Err(ExerciseModelError::NotFound)),
        Err(WorkoutTemplateModelError::DatabaseError(
            "NotFound".to_string()
        ))
    );
    let failing = TemplateAssembly::begin(
        template_row,
        vec![SqliteWorkoutTemplateExercise {
            workout_template_id: 4,
            exercise_id: 9,
        }],
    );
    assert_eq!(
        failing.resolved(Err(ExerciseModelError::DatabaseError("locked".to_string()))),
        Err(WorkoutTemplateModelError::DatabaseError(
            "DatabaseError(\"locked\")".to_string()
        ))
    );
}

#[test]
fn exercises_of_a_stored_workout_are_stored_again_without_the_keys_of_their_sets() {
    let exercises = vec![
        WorkoutExercise {
            exercise: reps_exercise(7, "pullup", 8),
            sets: vec![
                WorkoutSet::BodyweightReps(BodyweightRepSet {
                    id: 41,
                    reps: 8,
                    failure: true,
                }),
                WorkoutSet::Weighted(WeightedSet {
                    id: 42,
                    reps: 3,
                    weight: bits_of(10.0),
                    failure: false,
                }),
            ],
        },
        WorkoutExercise {
            exercise: reps_exercise(9, "plank", 0),
            sets: vec![WorkoutSet::BodyweightTime(BodyweightTimeSet {
                id: 43,
                duration_seconds: 50,
                failure: false,
            })],
        },
        WorkoutExercise {
            exercise: reps_exercise(11, "rest", 0),
            sets: vec![],
        },
    ];
    assert_eq!(
        replacement_exercises(&exercises),
        vec![
            NewWorkoutExercise {
                exercise_id: 7,
                sets: vec![
                    NewWorkoutSet::BodyweightReps(NewBodyweightRepSet {
                        reps: 8,
                        failure: true,
                    }),
                    NewWorkoutSet::Weighted(NewWeightedSet {
                        reps: 3,
                        weight: bits_of(10.0),
                        failure: false,
                    }),
                ],
            },
            NewWorkoutExercise {
                exercise_id: 9,
                sets: vec![NewWorkoutSet::BodyweightTime(NewBodyweightTimeSet {
                    duration_seconds: 50,
                    failure: false,
                })],
            },
            NewWorkoutExercise {
                exercise_id: 11,
                sets: vec![],
            },
        ]
    );
    assert_eq!(
        set_without_id(&exercises[0].sets[0]),
        NewWorkoutSet::BodyweightReps(NewBodyweightRepSet {
            reps: 8,
            failure: true,
        })
    );
}

#[test]
fn identifiers_are_listed_in_the_order_of_the_rows() {
    assert_eq!(
        workout_ids(&vec![
            SqliteWorkout {
                id: 3,
                date: day(),
                mood: None
            },
            SqliteWorkout {
                id: 1,
                date: day(),
                mood: Some(2)
            }
        ]),
        vec![3, 1]
    );
    assert_eq!(
        template_ids(&vec![
            SqliteWorkoutTemplate {
                id: 8,
                name: "a".to_string()
            },
            SqliteWorkoutTemplate {
                id: 2,
                name: "b".to_string()
            }
        ]),
        vec![8, 2]
    );
    assert_eq!(
        template_exercise_ids(&vec![
            reps_exercise(5, "a", 1),
            reps_exercise(5, "a", 1),
            reps_exercise(2, "b", 1)
        ]),
        vec![5, 5, 2]
    );
    assert_eq!(template_exercise_ids(&vec![]), vec![]);
}

#[test]
fn links_of_a_template_are_planned_in_the_order_of_its_exercises() {
    assert_eq!(template_link_rows(4, &vec![]), None);
    assert_eq!(
        template_link_rows(4, &vec![9, 7, u64::MAX]),
        Some(vec![
            SqliteWorkoutTemplateExerciseInsert {
                workout_template_id: 4,
                exercise_id: 9,
            },
            SqliteWorkoutTemplateExerciseInsert {
                workout_template_id: 4,
                exercise_id: 7,
            },
            SqliteWorkoutTemplateExerciseInsert {
                workout_template_id: 4,
                exercise_id: -1,
            },
        ])
    );
    let update = template_update(&WorkoutTemplate {
        id: 4,
        name: "Lower body".to_string(),
        exercises: vec![reps_exercise(1, "squat", 5)],
    });
    assert_eq!(update.id, 4);
    assert_eq!(update.name, "Lower body");
}

#[test]
fn template_of_the_planning_page() {
    let template = workout_template();
    assert_eq!(template.id, 0);
    assert_eq!(template.name, "Legs and Handstand");
    assert_eq!(template.exercises.len(), 3);
    assert_eq!(
        template.exercises[0],
        Exercise {
            id: 1,
            name: "squat".to_string(),
            exercise_type: ExerciseType::Weighted {
                goal_weight: bits_of(100.0)
            },
        }
    );
    assert_eq!(
        template.exercises[1],
        Exercise {
            id: 2,
            name: "handstand pushup".to_string(),
            exercise_type: ExerciseType::BodyweightReps { goal_reps: 2 },
        }
    );
    assert_eq!(
        template.exercises[2],
        Exercise {
            id: 3,
            name: "handstand".to_string(),
            exercise_type: ExerciseType::BodyweightTime {
                goal_duration_seconds: 12
            },
        }
    );
}

fn changed_rows(rows_affected: u64) -> Result<StatementOutcome, StoreError> {
    Ok(StatementOutcome {
        rows_affected,
        last_insert_rowid: 0,
    })
}

#[test]
fn writes_of_the_exercise_repository_are_planned_statement_by_statement() {
    let squat = Exercise {
        id: 4,
        name: "squat".to_string(),
        exercise_type: ExerciseType::Weighted {
            goal_weight: bits_of(80.0),
        },
    };
    assert_eq!(
        add_exercise_statements(squat.clone()),
        vec![ExerciseStatement::Insert(from_exercise_to_sqlite_insert(
            squat.clone(),
            None,
            None
        ))]
    );
    assert_eq!(
        update_exercise_statements(squat.clone()),
        vec![ExerciseStatement::UpdateGoal(
            from_exercise_to_sqlite_goal_update(squat)
        )]
    );
    assert_eq!(
        delete_exercise_statements(999),
        vec![ExerciseStatement::Delete { id: 999 }]
    );
    assert_eq!(
        add_exercise_progression_statements(long_progression(0)),
        vec![]
    );
    assert_eq!(
        add_exercise_progression_statements(long_progression(3)),
        vec![ExerciseStatement::InsertMany(
            progression_insert_rows(long_progression(3)).unwrap()
        )]
    );
    assert_eq!(
        update_exercise_progression_statements(long_progression(2)),
        progression_update_rows(long_progression(2))
            .into_iter()
            .map(ExerciseStatement::Update)
            .collect::<Vec<_>>()
    );
    assert_eq!(
        delete_exercise_progression_statements(long_progression(2)),
        vec![ExerciseStatement::DeleteProgression {
            name: "chain".to_string()
        }]
    );
}

#[test]
fn batch_sends_its_statements_in_order_and_ends_on_the_first_failure() {
    let statements = update_exercise_progression_statements(long_progression(2));
    let batch = Batch::begin(statements.clone());
    assert_eq!(batch.sent, 0);
    assert_eq!(batch.pending(), Some(&statements[0]));
    let batch = batch
        .replied::<ExerciseModelError>(changed_rows(0))
        .expect("an update of a member reports no missing row");
    assert_eq!(batch.pending(), Some(&statements[1]));
    let batch = batch
        .replied::<ExerciseModelError>(changed_rows(1))
        .expect("should go on");
    assert_eq!(batch.pending(), None);
    assert_eq!(batch.sent, 2);
    let same = batch
        .clone()
        .replied::<ExerciseModelError>(Err(broken()))
        .expect("nothing is pending");
    assert_eq!(same, batch);

    let batch = Batch::begin(statements);
    assert_eq!(
        batch.replied::<ExerciseModelError>(Err(broken())),
        Err(ExerciseModelError::DatabaseError(
            "disk I/O error".to_string()
        ))
    );

    let empty = Batch::begin(add_exercise_progression_statements(long_progression(0)));
    assert_eq!(empty.pending(), None);
}

#[test]
fn statements_that_address_a_row_report_not_found_where_none_changed() {
    let squat = reps_exercise(4, "squat", 5);
    let plans = vec![
        update_exercise_statements(squat),
        delete_exercise_statements(4),
        delete_exercise_progression_statements(long_progression(1)),
    ];
    for statements in plans {
        assert_eq!(
            Batch::begin(statements.clone()).replied::<ExerciseModelError>(changed_rows(0)),
            Err(ExerciseModelError::NotFound)
        );
        let batch = Batch::begin(statements.clone())
            .replied::<ExerciseModelError>(changed_rows(1))
            .expect("should succeed");
        assert_eq!(batch.pending(), None);
        assert_eq!(
            Batch::begin(statements).replied::<ExerciseModelError>(Err(missing())),
            Err(ExerciseModelError::DatabaseError(missing().message))
        );
    }
    let batch = Batch::begin(add_exercise_statements(reps_exercise(0, "dip", 5)))
        .replied::<ExerciseModelError>(changed_rows(0))
        .expect("an insert reports no missing row");
    assert_eq!(batch.pending(), None);

    assert!(matches!(
        Batch::begin(delete_workout_statements(7)).replied::<WorkoutModelError>(changed_rows(0)),
        Err(WorkoutModelError::NotFound)
    ));
    assert_eq!(
        Batch::begin(delete_workout_template_statements(7))
            .replied::<WorkoutTemplateModelError>(changed_rows(0)),
        Err(WorkoutTemplateModelError::NotFound)
    );
}

fn stored_workout() -> Workout {
    Workout {
        id: 31,
        date: day(),
        mood: Some(4),
        exercises: vec![
            WorkoutExercise {
                exercise: reps_exercise(7, "pullup", 8),
                sets: vec![
                    WorkoutSet::BodyweightReps(BodyweightRepSet {
                        id: 41,
                        reps: 8,
                        failure: true,
                    }),
                    WorkoutSet::BodyweightReps(BodyweightRepSet {
                        id: 42,
                        reps: 6,
                        failure: false,
                    }),
                ],
            },
            WorkoutExercise {
                exercise: reps_exercise(9, "plank", 0),
                sets: vec![WorkoutSet::BodyweightTime(BodyweightTimeSet {
                    id: 43,
                    duration_seconds: 50,
                    failure: false,
                })],
            },
        ],
    }
}

#[test]
fn update_of_a_workout_is_header_then_removal_then_one_insert_for_each_set() {
    let workout = stored_workout();
    assert!(order_keys_fit(&replacement_exercises(&workout.exercises)));
    let statements = update_workout_statements(&workout);
    assert_eq!(statements.len(), 5);
    match &statements[0] {
        WorkoutStatement::UpdateWorkout(row) => {
            assert_eq!(row.id, 31);
            assert_eq!(row.date, day());
            assert_eq!(row.mood, Some(4));
        }
        other => panic!("expected the update of the header, got {:?}", other),
    }
    assert!(matches!(
        statements[1],
        WorkoutStatement::DeleteSets { workout_id: 31 }
    ));
    let expected = workout_set_rows(31, &replacement_exercises(&workout.exercises));
    for (statement, row) in statements[2..].iter().zip(expected.iter()) {
        match statement {
            WorkoutStatement::InsertSet(planned) => assert_eq!(planned, row),
            other => panic!("expected the insert of a set, got {:?}", other),
        }
    }
    assert_eq!(
        expected
            .iter()
            .map(|r| (r.exercise_id, r.set_order, r.reps, r.duration_seconds, r.failure))
            .collect::<Vec<_>>(),
        vec![
            (7, 1, Some(8), None, 1),
            (7, 2, Some(6), None, 0),
            (9, 1001, None, Some(50), 0)
        ]
    );

    let batch = Batch::begin(statements);
    assert!(matches!(
        batch.replied::<WorkoutModelError>(changed_rows(0)),
        Err(WorkoutModelError::NotFound)
    ));
    let mut batch = Batch::begin(update_workout_statements(&workout));
    let mut sent = 0;
    while batch.pending().is_some() {
        let rows = if sent == 0 { 1 } else { 0 };
        batch = batch
            .replied::<WorkoutModelError>(changed_rows(rows))
            .expect("only the header has to change a row");
        sent += 1;
    }
    assert_eq!(sent, 5);
}

#[test]
fn sets_of_a_new_workout_and_deletion_are_planned() {
    let exercises = vec![NewWorkoutExercise {
        exercise_id: 7,
        sets: vec![rep_set(1), rep_set(2)],
    }];
    let statements = insert_workout_sets_statements(3, &exercises);
    let rows = workout_set_rows(3, &exercises);
    assert_eq!(statements.len(), 2);
    for (statement, row) in statements.iter().zip(rows.iter()) {
        match statement {
            WorkoutStatement::InsertSet(planned) => assert_eq!(planned, row),
            other => panic!("expected the insert of a set, got {:?}", other),
        }
    }
    assert!(insert_workout_sets_statements(3, &vec![]).is_empty());
    let statements = delete_workout_statements(u64::MAX);
    assert_eq!(statements.len(), 1);
    assert!(matches!(
        statements[0],
        WorkoutStatement::DeleteWorkout { id: -1 }
    ));
}

#[test]
fn writes_of_the_template_repository_are_planned_statement_by_statement() {
    assert_eq!(insert_template_exercises_statements(4, &vec![]), vec![]);
    assert_eq!(
        insert_template_exercises_statements(4, &vec![9, 7]),
        vec![TemplateStatement::InsertLinks(
            template_link_rows(4, &vec![9, 7]).unwrap()
        )]
    );
    let template = WorkoutTemplate {
        id: 4,
        name: "Lower body".to_string(),
        exercises: vec![reps_exercise(9, "squat", 5), reps_exercise(7, "lunge", 8)],
    };
    assert_eq!(
        update_workout_template_statements(&template),
        vec![
            TemplateStatement::UpdateTemplate(SqliteWorkoutTemplateUpdate {
                id: 4,
                name: "Lower body".to_string(),
            }),
            TemplateStatement::DeleteLinks {
                workout_template_id: 4
            },
            TemplateStatement::InsertLinks(template_link_rows(4, &vec![9, 7]).unwrap()),
        ]
    );
    let bare = WorkoutTemplate {
        id: 999,
        name: "phantom".to_string(),
        exercises: vec![],
    };
    let statements = update_workout_template_statements(&bare);
    assert_eq!(
        statements,
        vec![
            TemplateStatement::UpdateTemplate(SqliteWorkoutTemplateUpdate {
                id: 999,
                name: "phantom".to_string(),
            }),
            TemplateStatement::DeleteLinks {
                workout_template_id: 999
            },
        ]
    );
    assert_eq!(
        Batch::begin(statements.clone()).replied::<WorkoutTemplateModelError>(changed_rows(0)),
        Err(WorkoutTemplateModelError::NotFound)
    );
    let batch = Batch::begin(statements)
        .replied::<WorkoutTemplateModelError>(changed_rows(1))
        .expect("should go on")
        .replied::<WorkoutTemplateModelError>(changed_rows(0))
        .expect("the removal of links reports no missing row");
    assert_eq!(batch.pending(), None);
    assert_eq!(
        delete_workout_template_statements(4),
        vec![TemplateStatement::DeleteTemplate { id: 4 }]
    );
}

#[test]
fn header_part_of_the_update_of_a_workout_is_its_first_two_statements() {
    let workout = stored_workout();
    let statements = update_workout_header_statements(&workout);
    assert_eq!(statements.len(), 2);
    match &statements[0] {
        WorkoutStatement::UpdateWorkout(row) => {
            assert_eq!(row.id, 31);
            assert_eq!(row.date, day());
            assert_eq!(row.mood, Some(4));
        }
        other => panic!("expected the update of the header, got {:?}", other),
    }
    assert!(matches!(
        statements[1],
        WorkoutStatement::DeleteSets { workout_id: 31 }
    ));
    assert!(matches!(
        Batch::begin(statements).replied::<WorkoutModelError>(changed_rows(0)),
        Err(WorkoutModelError::NotFound)
    ));
}
