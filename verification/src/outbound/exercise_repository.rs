use crate::domain::traits::exercise_model::ExerciseModelError;
use crate::domain::traits::model_error::ModelErrorView;
use crate::domain::types::exercise::{
    exercise_views, progression_views, Exercise, ExerciseProgression, ExerciseProgressionView,
    ExerciseType, ExerciseView,
};
use crate::domain::types::weight::Weight;
use crate::outbound::grouping;
use crate::outbound::grouping::{grouped, index_of, lemma_index_of, Shape};
use crate::outbound::store::{
    completed, fetched_one, key, key_of, one_row_failure, Statement, StoreError,
};
use vstd::prelude::*;

pub mod laws;

verus! {

/// The tag that says which goal column of an exercise row counts.
#[derive(Debug, Clone, Copy, PartialEq, Eq, Structural)]
pub enum SqliteExerciseType {
    Weighted,
    BodyweightReps,
    BodyweightTime,
}

/// A row of the exercise table.
#[derive(Debug, Clone, PartialEq, Eq)]
pub struct SqliteExercise {
    pub id: u64,
    pub name: String,
    pub exercise_type: SqliteExerciseType,
    pub progression_name: Option<String>,
    pub progression_order: Option<u64>,
    pub goal_reps: Option<u16>,
    pub goal_weight: Option<Weight>,
    pub goal_duration_seconds: Option<u16>,
}

/// The mathematical content of a [`SqliteExercise`].
pub struct SqliteExerciseView {
    pub id: u64,
    pub name: Seq<char>,
    pub exercise_type: SqliteExerciseType,
    pub progression_name: Option<Seq<char>>,
    pub progression_order: Option<u64>,
    pub goal_reps: Option<u16>,
    pub goal_weight: Option<Weight>,
    pub goal_duration_seconds: Option<u16>,
}

/// The text of an optional string.
pub open spec fn text_of(s: Option<String>) -> Option<Seq<char>> {
    match s {
        Some(s) => Some(s@),
        None => None,
    }
}

impl View for SqliteExercise {
    type V = SqliteExerciseView;

    open spec fn view(&self) -> SqliteExerciseView {
        SqliteExerciseView {
            id: self.id,
            name: self.name@,
            exercise_type: self.exercise_type,
            progression_name: text_of(self.progression_name),
            progression_order: self.progression_order,
            goal_reps: self.goal_reps,
            goal_weight: self.goal_weight,
            goal_duration_seconds: self.goal_duration_seconds,
        }
    }
}

/// The views of a sequence of exercise rows, in order.
pub open spec fn row_views(rows: Seq<SqliteExercise>) -> Seq<SqliteExerciseView> {
    Seq::new(rows.len(), |i: int| rows[i]@)
}

/// The columns of an exercise row that is about to be inserted.
#[derive(Debug, Clone, PartialEq, Eq)]
pub struct SqliteExerciseInsert {
    pub name: String,
    pub exercise_type: SqliteExerciseType,
    pub progression_name: Option<String>,
    pub progression_order: Option<u64>,
    pub goal_reps: Option<u16>,
    pub goal_weight: Option<Weight>,
    pub goal_duration_seconds: Option<u16>,
}

/// The mathematical content of a [`SqliteExerciseInsert`].
pub struct SqliteExerciseInsertView {
    pub name: Seq<char>,
    pub exercise_type: SqliteExerciseType,
    pub progression_name: Option<Seq<char>>,
    pub progression_order: Option<u64>,
    pub goal_reps: Option<u16>,
    pub goal_weight: Option<Weight>,
    pub goal_duration_seconds: Option<u16>,
}

impl View for SqliteExerciseInsert {
    type V = SqliteExerciseInsertView;

    open spec fn view(&self) -> SqliteExerciseInsertView {
        SqliteExerciseInsertView {
            name: self.name@,
            exercise_type: self.exercise_type,
            progression_name: text_of(self.progression_name),
            progression_order: self.progression_order,
            goal_reps: self.goal_reps,
            goal_weight: self.goal_weight,
            goal_duration_seconds: self.goal_duration_seconds,
        }
    }
}

/// The views of a sequence of inserts, in order.
pub open spec fn insert_views(rows: Seq<SqliteExerciseInsert>) -> Seq<SqliteExerciseInsertView> {
    Seq::new(rows.len(), |i: int| rows[i]@)
}

/// The columns that replace those of the exercise row with key `id`,
/// its place in a progression included.
#[derive(Debug, Clone, PartialEq, Eq)]
pub struct SqliteExerciseUpdate {
    pub id: u64,
    pub name: String,
    pub exercise_type: SqliteExerciseType,
    pub progression_name: Option<String>,
    pub progression_order: Option<u64>,
    pub goal_reps: Option<u16>,
    pub goal_weight: Option<Weight>,
    pub goal_duration_seconds: Option<u16>,
}

/// The mathematical content of a [`SqliteExerciseUpdate`].
pub struct SqliteExerciseUpdateView {
    pub id: u64,
    pub name: Seq<char>,
    pub exercise_type: SqliteExerciseType,
    pub progression_name: Option<Seq<char>>,
    pub progression_order: Option<u64>,
    pub goal_reps: Option<u16>,
    pub goal_weight: Option<Weight>,
    pub goal_duration_seconds: Option<u16>,
}

impl View for SqliteExerciseUpdate {
    type V = SqliteExerciseUpdateView;

    open spec fn view(&self) -> SqliteExerciseUpdateView {
        SqliteExerciseUpdateView {
            id: self.id,
            name: self.name@,
            exercise_type: self.exercise_type,
            progression_name: text_of(self.progression_name),
            progression_order: self.progression_order,
            goal_reps: self.goal_reps,
            goal_weight: self.goal_weight,
            goal_duration_seconds: self.goal_duration_seconds,
        }
    }
}

/// The views of a sequence of updates, in order.
pub open spec fn update_views(rows: Seq<SqliteExerciseUpdate>) -> Seq<SqliteExerciseUpdateView> {
    Seq::new(rows.len(), |i: int| rows[i]@)
}

/// The columns that replace the name and the goal of the exercise row
/// with key `id`; its place in a progression stays as it is.
#[derive(Debug, Clone, PartialEq, Eq)]
pub struct SqliteExerciseGoalUpdate {
    pub id: u64,
    pub name: String,
    pub exercise_type: SqliteExerciseType,
    pub goal_reps: Option<u16>,
    pub goal_weight: Option<Weight>,
    pub goal_duration_seconds: Option<u16>,
}

/// The mathematical content of a [`SqliteExerciseGoalUpdate`].
pub struct SqliteExerciseGoalUpdateView {
    pub id: u64,
    pub name: Seq<char>,
    pub exercise_type: SqliteExerciseType,
    pub goal_reps: Option<u16>,
    pub goal_weight: Option<Weight>,
    pub goal_duration_seconds: Option<u16>,
}

impl View for SqliteExerciseGoalUpdate {
    type V = SqliteExerciseGoalUpdateView;

    open spec fn view(&self) -> SqliteExerciseGoalUpdateView {
        SqliteExerciseGoalUpdateView {
            id: self.id,
            name: self.name@,
            exercise_type: self.exercise_type,
            goal_reps: self.goal_reps,
            goal_weight: self.goal_weight,
            goal_duration_seconds: self.goal_duration_seconds,
        }
    }
}

/// The tag and the three goal columns that stand for an exercise type:
/// the column of its kind holds the goal, the other two are null.
pub open spec fn goal_columns(exercise_type: ExerciseType) -> (
    SqliteExerciseType,
    Option<u16>,
    Option<Weight>,
    Option<u16>,
) {
    match exercise_type {
        ExerciseType::Weighted { goal_weight } => (
            SqliteExerciseType::Weighted,
            None,
            Some(goal_weight),
            None,
        ),
        ExerciseType::BodyweightReps { goal_reps } => (
            SqliteExerciseType::BodyweightReps,
            Some(goal_reps),
            None,
            None,
        ),
        ExerciseType::BodyweightTime { goal_duration_seconds } => (
            SqliteExerciseType::BodyweightTime,
            None,
            None,
            Some(goal_duration_seconds),
        ),
    }
}

/// The goal column that the tag names is set, and the other two are null.
pub open spec fn columns_agree(
    tag: SqliteExerciseType,
    goal_reps: Option<u16>,
    goal_weight: Option<Weight>,
    goal_duration_seconds: Option<u16>,
) -> bool {
    match tag {
        SqliteExerciseType::Weighted => goal_weight is Some && goal_reps is None
            && goal_duration_seconds is None,
        SqliteExerciseType::BodyweightReps => goal_reps is Some && goal_weight is None
            && goal_duration_seconds is None,
        SqliteExerciseType::BodyweightTime => goal_duration_seconds is Some && goal_reps is None
            && goal_weight is None,
    }
}

/// The exercise type that a tag and three goal columns stand for. Only
/// the column that the tag names is read; where it is null the goal is
/// zero.
pub open spec fn type_of_columns(
    tag: SqliteExerciseType,
    goal_reps: Option<u16>,
    goal_weight: Option<Weight>,
    goal_duration_seconds: Option<u16>,
) -> ExerciseType {
    match tag {
        SqliteExerciseType::Weighted => ExerciseType::Weighted {
            goal_weight: match goal_weight {
                Some(w) => w,
                None => Weight { bits: 0 },
            },
        },
        SqliteExerciseType::BodyweightReps => ExerciseType::BodyweightReps {
            goal_reps: match goal_reps {
                Some(n) => n,
                None => 0,
            },
        },
        SqliteExerciseType::BodyweightTime => ExerciseType::BodyweightTime {
            goal_duration_seconds: match goal_duration_seconds {
                Some(n) => n,
                None => 0,
            },
        },
    }
}

/// The exercise that a row stands for.
pub open spec fn exercise_of_row(row: SqliteExerciseView) -> ExerciseView {
    ExerciseView {
        id: row.id,
        name: row.name,
        exercise_type: type_of_columns(
            row.exercise_type,
            row.goal_reps,
            row.goal_weight,
            row.goal_duration_seconds,
        ),
    }
}

/// The exercises that a sequence of rows stands for, in order.
pub open spec fn exercises_of_rows(rows: Seq<SqliteExerciseView>) -> Seq<ExerciseView> {
    Seq::new(rows.len(), |i: int| exercise_of_row(rows[i]))
}

/// The insert that stores an exercise at a place in a progression, or
/// outside any. The identifier of the exercise is not stored: the store
/// numbers the row.
pub open spec fn insert_of_exercise(
    exercise: ExerciseView,
    progression_name: Option<Seq<char>>,
    progression_order: Option<u64>,
) -> SqliteExerciseInsertView {
    let columns = goal_columns(exercise.exercise_type);
    SqliteExerciseInsertView {
        name: exercise.name,
        exercise_type: columns.0,
        progression_name,
        progression_order,
        goal_reps: columns.1,
        goal_weight: columns.2,
        goal_duration_seconds: columns.3,
    }
}

/// The update that replaces the row of an exercise and puts it at a place
/// in a progression, or outside any.
pub open spec fn update_of_exercise(
    exercise: ExerciseView,
    progression_name: Option<Seq<char>>,
    progression_order: Option<u64>,
) -> SqliteExerciseUpdateView {
    let columns = goal_columns(exercise.exercise_type);
    SqliteExerciseUpdateView {
        id: exercise.id,
        name: exercise.name,
        exercise_type: columns.0,
        progression_name,
        progression_order,
        goal_reps: columns.1,
        goal_weight: columns.2,
        goal_duration_seconds: columns.3,
    }
}

/// The update that replaces the name and the goal of an exercise.
pub open spec fn goal_update_of_exercise(exercise: ExerciseView) -> SqliteExerciseGoalUpdateView {
    let columns = goal_columns(exercise.exercise_type);
    SqliteExerciseGoalUpdateView {
        id: exercise.id,
        name: exercise.name,
        exercise_type: columns.0,
        goal_reps: columns.1,
        goal_weight: columns.2,
        goal_duration_seconds: columns.3,
    }
}

/// Encodes an exercise type as the tag and the three goal columns.
pub fn exercise_goals_to_sqlite(exercise_type: &ExerciseType) -> (columns: (
    SqliteExerciseType,
    Option<u16>,
    Option<Weight>,
    Option<u16>,
))
    ensures
        columns == goal_columns(*exercise_type),
        columns_agree(columns.0, columns.1, columns.2, columns.3),
        type_of_columns(columns.0, columns.1, columns.2, columns.3) == *exercise_type,
{
    match exercise_type {
        ExerciseType::Weighted { goal_weight } => (
            SqliteExerciseType::Weighted,
            None,
            Some(*goal_weight),
            None,
        ),
        ExerciseType::BodyweightReps { goal_reps } => (
            SqliteExerciseType::BodyweightReps,
            Some(*goal_reps),
            None,
            None,
        ),
        ExerciseType::BodyweightTime { goal_duration_seconds } => (
            SqliteExerciseType::BodyweightTime,
            None,
            None,
            Some(*goal_duration_seconds),
        ),
    }
}

impl From<SqliteExercise> for Exercise {
    /// Decodes a row. A goal column that is null where the tag names it
    /// reads as zero.
    fn from(row: SqliteExercise) -> (exercise: Exercise)
        ensures
            exercise@ == exercise_of_row(row@),
    {
        let exercise_type = match row.exercise_type {
            SqliteExerciseType::Weighted => ExerciseType::Weighted {
                goal_weight: match row.goal_weight {
                    Some(w) => w,
                    None => Weight::zero(),
                },
            },
            SqliteExerciseType::BodyweightReps => ExerciseType::BodyweightReps {
                goal_reps: match row.goal_reps {
                    Some(n) => n,
                    None => 0,
                },
            },
            SqliteExerciseType::BodyweightTime => ExerciseType::BodyweightTime {
                goal_duration_seconds: match row.goal_duration_seconds {
                    Some(n) => n,
                    None => 0,
                },
            },
        };
        Exercise { id: row.id, name: row.name, exercise_type }
    }
}

impl vstd::std_specs::convert::FromSpecImpl<SqliteExercise> for Exercise {
    open spec fn obeys_from_spec() -> bool {
        true
    }

    open spec fn from_spec(row: SqliteExercise) -> Exercise {
        Exercise {
            id: row.id,
            name: row.name,
            exercise_type: type_of_columns(
                row.exercise_type,
                row.goal_reps,
                row.goal_weight,
                row.goal_duration_seconds,
            ),
        }
    }
}

/// Encodes an exercise as the insert that stores it at a place in a
/// progression, or outside any.
pub fn from_exercise_to_sqlite_insert(
    exercise: Exercise,
    progression_name: Option<String>,
    progression_order: Option<u64>,
) -> (row: SqliteExerciseInsert)
    ensures
        row@ == insert_of_exercise(exercise@, text_of(progression_name), progression_order),
{
    let (exercise_type, goal_reps, goal_weight, goal_duration_seconds) = exercise_goals_to_sqlite(
        &exercise.exercise_type,
    );
    SqliteExerciseInsert {
        name: exercise.name,
        exercise_type,
        progression_name,
        progression_order,
        goal_reps,
        goal_weight,
        goal_duration_seconds,
    }
}

/// Encodes an exercise as the update that replaces its row and puts it
/// at a place in a progression, or outside any.
pub fn from_exercise_to_sqlite_update(
    exercise: Exercise,
    progression_name: Option<String>,
    progression_order: Option<u64>,
) -> (row: SqliteExerciseUpdate)
    ensures
        row@ == update_of_exercise(exercise@, text_of(progression_name), progression_order),
{
    let (exercise_type, goal_reps, goal_weight, goal_duration_seconds) = exercise_goals_to_sqlite(
        &exercise.exercise_type,
    );
    SqliteExerciseUpdate {
        id: exercise.id,
        name: exercise.name,
        exercise_type,
        progression_name,
        progression_order,
        goal_reps,
        goal_weight,
        goal_duration_seconds,
    }
}

/// Encodes an exercise as the update that replaces its name and goal.
pub fn from_exercise_to_sqlite_goal_update(exercise: Exercise) -> (row: SqliteExerciseGoalUpdate)
    ensures
        row@ == goal_update_of_exercise(exercise@),
{
    let (exercise_type, goal_reps, goal_weight, goal_duration_seconds) = exercise_goals_to_sqlite(
        &exercise.exercise_type,
    );
    SqliteExerciseGoalUpdate {
        id: exercise.id,
        name: exercise.name,
        exercise_type,
        goal_reps,
        goal_weight,
        goal_duration_seconds,
    }
}

/// Decodes rows, in order.
pub fn exercises_from_rows(rows: Vec<SqliteExercise>) -> (exercises: Vec<Exercise>)
    ensures
        exercise_views(exercises@) == exercises_of_rows(row_views(rows@)),
        exercises@.len() == rows@.len(),
        forall|i: int|
            0 <= i < rows@.len() ==> (#[trigger] exercises@[i])@ == exercise_of_row(rows@[i]@),
{
    let ghost all = rows@;
    let mut exercises: Vec<Exercise> = Vec::new();
    for row in it: rows.into_iter()
        invariant
            it.seq() == all,
            exercises@.len() == it.index(),
            forall|k: int|
                0 <= k < it.index() ==> (#[trigger] exercises@[k])@ == exercise_of_row(all[k]@),
    {
        exercises.push(Exercise::from(row));
    }
    assert(exercise_views(exercises@) =~= exercises_of_rows(row_views(all)));
    exercises
}

/// Interprets the reply to the lookup of one exercise by key: the exercise
/// that the row stands for, not-found where the store had no such row, a
/// database error with the store's text for any other failure.
pub fn fetched_exercise(reply: Result<SqliteExercise, StoreError>) -> (r: Result<
    Exercise,
    ExerciseModelError,
>)
    ensures
        reply matches Ok(row) ==> r is Ok && r->Ok_0@ == exercise_of_row(row@),
        reply matches Err(e) ==> r is Err && r->Err_0@ == one_row_failure(e@),
{
    match fetched_one::<SqliteExercise, ExerciseModelError>(reply) {
        Ok(row) => Ok(Exercise::from(row)),
        Err(e) => Err(e),
    }
}

/// Interprets the reply to the listing of all exercises: the exercises
/// that the rows stand for, in the order of the rows, or a database error
/// with the store's text.
pub fn fetched_exercises(reply: Result<Vec<SqliteExercise>, StoreError>) -> (r: Result<
    Vec<Exercise>,
    ExerciseModelError,
>)
    ensures
        reply matches Ok(rows) ==> r is Ok && exercise_views(r->Ok_0@) == exercises_of_rows(
            row_views(rows@),
        ) && r->Ok_0@.len() == rows@.len(),
        reply matches Err(e) ==> r is Err && r->Err_0@ == ModelErrorView::DatabaseError(
            e@.message,
        ),
{
    match completed::<Vec<SqliteExercise>, ExerciseModelError>(reply) {
        Ok(rows) => Ok(exercises_from_rows(rows)),
        Err(e) => Err(e),
    }
}

/// How exercise rows fall into progressions: by their progression name,
/// each row with the exercise that it stands for.
pub open spec fn progression_shape() -> Shape<
    ExerciseProgressionView,
    SqliteExerciseView,
    Seq<char>,
    ExerciseView,
> {
    Shape {
        group_key: |group: ExerciseProgressionView| group.name,
        members: |group: ExerciseProgressionView| group.progression,
        row_key: |row: SqliteExerciseView| row.progression_name,
        member: |row: SqliteExerciseView| exercise_of_row(row),
        start: |name: Seq<char>, exercise: ExerciseView|
            ExerciseProgressionView { name, progression: seq![exercise] },
        extend: |group: ExerciseProgressionView, exercise: ExerciseView|
            ExerciseProgressionView {
                name: group.name,
                progression: group.progression.push(exercise),
            },
    }
}

/// The place in `groups` of the progression named `name`: the first index
/// whose progression has that name, or the length of `groups` where none
/// has it.
pub open spec fn index_of_name(groups: Seq<ExerciseProgressionView>, name: Seq<char>) -> int {
    index_of(groups, progression_shape(), name)
}

/// [`index_of_name`] is the one index at which the name stands first.
pub proof fn lemma_index_of_name(groups: Seq<ExerciseProgressionView>, name: Seq<char>, at: int)
    ensures
        0 <= index_of_name(groups, name) <= groups.len(),
        forall|k: int| 0 <= k < index_of_name(groups, name) ==> (#[trigger] groups[k]).name != name,
        index_of_name(groups, name) < groups.len() ==> groups[index_of_name(groups, name)].name
            == name,
        (0 <= at <= groups.len() && (forall|k: int|
            0 <= k < at ==> (#[trigger] groups[k]).name != name) && (at < groups.len()
            ==> groups[at].name == name)) ==> at == index_of_name(groups, name),
{
    lemma_index_of(groups, progression_shape(), name, at);
}

/// The progressions `groups` with one more row taken in: a row without a
/// progression name changes nothing; a row named like one of `groups`
/// adds its exercise at the end of that progression; a row with a new
/// name adds a progression of that one exercise at the end.
pub open spec fn with_row(groups: Seq<ExerciseProgressionView>, row: SqliteExerciseView) -> Seq<
    ExerciseProgressionView,
> {
    grouping::with_row(groups, progression_shape(), row)
}

/// The progressions that a sequence of rows stands for: one for each
/// progression name among the rows, in the order in which the names first
/// occur, each with the exercises of the rows of that name, in the order
/// of the rows. Rows without a progression name belong to none.
pub open spec fn group_by_progression(rows: Seq<SqliteExerciseView>) -> Seq<
    ExerciseProgressionView,
> {
    grouped(rows, progression_shape())
}

/// Finds the progression named `name` among `groups`.
fn find_progression(groups: &Vec<ExerciseProgression>, name: &String) -> (k: usize)
    ensures
        k == index_of_name(progression_views(groups@), name@),
        k <= groups.len(),
{
    let mut k: usize = 0;
    while k < groups.len() && groups[k].name != *name
        invariant
            k <= groups.len(),
            forall|j: int| 0 <= j < k ==> (#[trigger] groups@[j]).name@ != name@,
        decreases groups.len() - k,
    {
        k += 1;
    }
    proof {
        let views = progression_views(groups@);
        assert forall|j: int| 0 <= j < k implies (#[trigger] views[j]).name != name@ by {
            assert(views[j] == groups@[j]@);
        }
        lemma_index_of_name(views, name@, k as int);
    }
    k
}

/// Groups rows into progressions, as [`group_by_progression`] says.
pub fn progressions_from_rows(rows: Vec<SqliteExercise>) -> (groups: Vec<ExerciseProgression>)
    ensures
        progression_views(groups@) == group_by_progression(row_views(rows@)),
{
    let ghost all = row_views(rows@);
    let ghost exec_rows = rows@;
    let mut groups: Vec<ExerciseProgression> = Vec::new();
    assert(all.take(0) =~= Seq::empty());
    assert(progression_views(groups@) =~= group_by_progression(all.take(0)));
    for row in it: rows.into_iter()
        invariant
            it.seq() == exec_rows,
            all == row_views(exec_rows),
            progression_views(groups@) == group_by_progression(all.take(it.index() as int)),
    {
        let ghost i = it.index() as int;
        let ghost before = progression_views(groups@);
        let ghost row_view = row@;
        proof {
            assert(all.take(i + 1).drop_last() =~= all.take(i));
            assert(all.take(i + 1).last() == row_view);
        }
        let mut row = row;
        let progression_name = row.progression_name.take();
        match progression_name {
            None => {},
            Some(name) => {
                let k = find_progression(&groups, &name);
                assert(exercise_of_row(row@) == exercise_of_row(row_view));
                let exercise = Exercise::from(row);
                if k < groups.len() {
                    let ghost old_groups = groups@;
                    groups[k].progression.push(exercise);
                    proof {
                        let after = progression_views(groups@);
                        let expected = with_row(before, row_view);
                        assert(after.len() == expected.len());
                        assert forall|j: int| 0 <= j < after.len() implies after[j]
                            == expected[j] by {
                            assert(before[j] == old_groups[j]@);
                            if j == k {
                                assert(after[j].progression =~= expected[j].progression);
                            } else {
                                assert(groups@[j] == old_groups[j]);
                            }
                        }
                        assert(after =~= expected);
                    }
                } else {
                    let mut progression: Vec<Exercise> = Vec::new();
                    progression.push(exercise);
                    let ghost old_groups = groups@;
                    groups.push(ExerciseProgression { name, progression });
                    proof {
                        let after = progression_views(groups@);
                        let expected = with_row(before, row_view);
                        assert(after.len() == expected.len());
                        assert forall|j: int| 0 <= j < after.len() implies after[j]
                            == expected[j] by {
                            if j < old_groups.len() {
                                assert(before[j] == old_groups[j]@);
                                assert(groups@[j] == old_groups[j]);
                            } else {
                                assert(after[j].progression =~= expected[j].progression);
                            }
                        }
                        assert(after =~= expected);
                    }
                }
            },
        }
    }
    assert(all.take(exec_rows.len() as int) =~= all);
    groups
}

/// Interprets the reply to the listing of all rows that have a progression
/// name: the progressions that the rows stand for, or a database error
/// with the store's text.
pub fn fetched_progressions(reply: Result<Vec<SqliteExercise>, StoreError>) -> (r: Result<
    Vec<ExerciseProgression>,
    ExerciseModelError,
>)
    ensures
        reply matches Ok(rows) ==> r is Ok && progression_views(r->Ok_0@) == group_by_progression(
            row_views(rows@),
        ),
        reply matches Err(e) ==> r is Err && r->Err_0@ == ModelErrorView::DatabaseError(
            e@.message,
        ),
{
    match completed::<Vec<SqliteExercise>, ExerciseModelError>(reply) {
        Ok(rows) => Ok(progressions_from_rows(rows)),
        Err(e) => Err(e),
    }
}

/// Interprets the reply to the lookup of the exercise whose progression is
/// asked for: the name of that progression, by which its rows are then
/// fetched; not-found where the store had no such row or the row belongs
/// to no progression; a database error with the store's text for any
/// other failure.
pub fn progression_of_exercise(reply: Result<SqliteExercise, StoreError>) -> (r: Result<
    String,
    ExerciseModelError,
>)
    ensures
        reply matches Ok(row) ==> match row@.progression_name {
            Some(name) => r is Ok && r->Ok_0@ == name,
            None => r is Err && r->Err_0@ == ModelErrorView::NotFound,
        },
        reply matches Err(e) ==> r is Err && r->Err_0@ == one_row_failure(e@),
{
    match fetched_one::<SqliteExercise, ExerciseModelError>(reply) {
        Ok(row) => match row.progression_name {
            Some(name) => Ok(name),
            None => Err(ExerciseModelError::NotFound),
        },
        Err(e) => Err(e),
    }
}

/// Interprets the reply to the listing of the rows of the progression
/// named `name`: the progression of that name with the exercises of all
/// the rows, in the order of the rows; not-found where there is no row; a
/// database error with the store's text where the store failed.
pub fn fetched_progression(name: &str, reply: Result<Vec<SqliteExercise>, StoreError>) -> (r:
    Result<ExerciseProgression, ExerciseModelError>)
    ensures
        reply matches Ok(rows) ==> if rows@.len() == 0 {
            r is Err && r->Err_0@ == ModelErrorView::NotFound
        } else {
            r is Ok && r->Ok_0@ == (ExerciseProgressionView {
                name: name@,
                progression: exercises_of_rows(row_views(rows@)),
            })
        },
        reply matches Err(e) ==> r is Err && r->Err_0@ == ModelErrorView::DatabaseError(
            e@.message,
        ),
{
    match completed::<Vec<SqliteExercise>, ExerciseModelError>(reply) {
        Ok(rows) => {
            if rows.len() == 0 {
                Err(ExerciseModelError::NotFound)
            } else {
                Ok(
                    ExerciseProgression {
                        name: name.to_owned(),
                        progression: exercises_from_rows(rows),
                    },
                )
            }
        },
        Err(e) => Err(e),
    }
}

/// The order key stored for the member at `index` of a progression: one
/// more than the index, so that the keys of the members are 1, 2, 3 and
/// so on without end.
pub open spec fn order_key(index: int) -> u64 {
    (index + 1) as u64
}

/// The inserts that store a progression: one for each member, in order,
/// each under the name of the progression and with its order key.
pub open spec fn inserts_of_progression(progression: ExerciseProgressionView) -> Seq<
    SqliteExerciseInsertView,
> {
    Seq::new(
        progression.progression.len(),
        |i: int|
            insert_of_exercise(
                progression.progression[i],
                Some(progression.name),
                Some(order_key(i)),
            ),
    )
}

/// The updates that store a progression over the rows of its members: one
/// for each member, in order, each under the name of the progression and
/// with its order key.
pub open spec fn updates_of_progression(progression: ExerciseProgressionView) -> Seq<
    SqliteExerciseUpdateView,
> {
    Seq::new(
        progression.progression.len(),
        |i: int|
            update_of_exercise(
                progression.progression[i],
                Some(progression.name),
                Some(order_key(i)),
            ),
    )
}

/// Plans the one statement that stores a new progression: the rows to
/// insert together, or nothing where the progression has no member, in
/// which case no statement is sent.
pub fn progression_insert_rows(progression: ExerciseProgression) -> (rows: Option<
    Vec<SqliteExerciseInsert>,
>)
    ensures
        progression@.progression.len() == 0 ==> rows is None,
        progression@.progression.len() > 0 ==> rows is Some && insert_views(rows->Some_0@)
            == inserts_of_progression(progression@) && rows->Some_0@.len()
            == progression@.progression.len(),
{
    let ghost view = progression@;
    let ExerciseProgression { name, progression: members } = progression;
    if members.len() == 0 {
        return None;
    }
    let ghost exec_members = members@;
    let count: usize = members.len();
    let mut rows: Vec<SqliteExerciseInsert> = Vec::new();
    let mut index: usize = 0;
    for member in it: members.into_iter()
        invariant
            it.seq() == exec_members,
            exec_members.len() == count,
            view.progression == exercise_views(exec_members),
            view.name == name@,
            index == it.index(),
            rows@.len() == index,
            forall|k: int|
                0 <= k < index ==> (#[trigger] rows@[k])@ == insert_of_exercise(
                    view.progression[k],
                    Some(view.name),
                    Some(order_key(k)),
                ),
    {
        let order: u64 = index as u64 + 1;
        rows.push(from_exercise_to_sqlite_insert(member, Some(name.clone()), Some(order)));
        index += 1;
    }
    assert(insert_views(rows@) =~= inserts_of_progression(view));
    Some(rows)
}

/// Plans the statements that store a progression over the rows of its
/// members: one update for each member, to be sent in this order until
/// one fails.
pub fn progression_update_rows(progression: ExerciseProgression) -> (rows: Vec<
    SqliteExerciseUpdate,
>)
    ensures
        update_views(rows@) == updates_of_progression(progression@),
        rows@.len() == progression@.progression.len(),
{
    let ghost view = progression@;
    let ExerciseProgression { name, progression: members } = progression;
    let ghost exec_members = members@;
    let count: usize = members.len();
    let mut rows: Vec<SqliteExerciseUpdate> = Vec::new();
    let mut index: usize = 0;
    for member in it: members.into_iter()
        invariant
            it.seq() == exec_members,
            exec_members.len() == count,
            view.progression == exercise_views(exec_members),
            view.name == name@,
            index == it.index(),
            rows@.len() == index,
            forall|k: int|
                0 <= k < index ==> (#[trigger] rows@[k])@ == update_of_exercise(
                    view.progression[k],
                    Some(view.name),
                    Some(order_key(k)),
                ),
    {
        let order: u64 = index as u64 + 1;
        rows.push(from_exercise_to_sqlite_update(member, Some(name.clone()), Some(order)));
        index += 1;
    }
    assert(update_views(rows@) =~= updates_of_progression(view));
    rows
}

/// A statement that changes the exercise table.
#[derive(Debug, Clone, PartialEq, Eq)]
pub enum ExerciseStatement {
    /// Insert one row.
    Insert(SqliteExerciseInsert),
    /// Insert several rows at once; there is at least one.
    InsertMany(Vec<SqliteExerciseInsert>),
    /// Replace all columns of the row with the key of the update.
    Update(SqliteExerciseUpdate),
    /// Replace the name and the goal of the row with the key of the
    /// update.
    UpdateGoal(SqliteExerciseGoalUpdate),
    /// Delete the row with the key `id`.
    Delete { id: i64 },
    /// Delete the rows of the progression named `name`.
    DeleteProgression { name: String },
}

/// The mathematical content of an [`ExerciseStatement`].
pub enum ExerciseStatementView {
    Insert(SqliteExerciseInsertView),
    InsertMany(Seq<SqliteExerciseInsertView>),
    Update(SqliteExerciseUpdateView),
    UpdateGoal(SqliteExerciseGoalUpdateView),
    Delete { id: i64 },
    DeleteProgression { name: Seq<char> },
}

impl View for ExerciseStatement {
    type V = ExerciseStatementView;

    open spec fn view(&self) -> ExerciseStatementView {
        match self {
            ExerciseStatement::Insert(row) => ExerciseStatementView::Insert(row@),
            ExerciseStatement::InsertMany(rows) => ExerciseStatementView::InsertMany(
                insert_views(rows@),
            ),
            ExerciseStatement::Update(row) => ExerciseStatementView::Update(row@),
            ExerciseStatement::UpdateGoal(row) => ExerciseStatementView::UpdateGoal(row@),
            ExerciseStatement::Delete { id } => ExerciseStatementView::Delete { id: *id },
            ExerciseStatement::DeleteProgression { name } => {
                ExerciseStatementView::DeleteProgression { name: name@ }
            },
        }
    }
}

impl ExerciseStatementView {
    /// The update of the goal, and both deletes, address what they expect
    /// to exist. An insert does not, and neither does the update that
    /// places a member of a progression.
    pub open spec fn must_change(self) -> bool {
        self is UpdateGoal || self is Delete || self is DeleteProgression
    }
}

impl Statement for ExerciseStatement {
    open spec fn must_change(&self) -> bool {
        self@.must_change()
    }

    fn expects_change(&self) -> (b: bool) {
        match self {
            ExerciseStatement::UpdateGoal(_) => true,
            ExerciseStatement::Delete { .. } => true,
            ExerciseStatement::DeleteProgression { .. } => true,
            _ => false,
        }
    }
}

/// Plans the addition of an exercise outside any progression: one insert.
pub fn add_exercise_statements(exercise: Exercise) -> (statements: Vec<ExerciseStatement>)
    ensures
        statements@.len() == 1,
        statements@[0]@ == ExerciseStatementView::Insert(
            insert_of_exercise(exercise@, None, None),
        ),
{
    let mut statements: Vec<ExerciseStatement> = Vec::new();
    let row = from_exercise_to_sqlite_insert(exercise, None, None);
    statements.push(ExerciseStatement::Insert(row));
    statements
}

/// Plans the update of an exercise: one update of its name and goal, that
/// fails with not-found where the store has no row under its key. The
/// place of the exercise in a progression stays.
pub fn update_exercise_statements(exercise: Exercise) -> (statements: Vec<ExerciseStatement>)
    ensures
        statements@.len() == 1,
        statements@[0]@ == ExerciseStatementView::UpdateGoal(goal_update_of_exercise(exercise@)),
{
    let mut statements: Vec<ExerciseStatement> = Vec::new();
    statements.push(ExerciseStatement::UpdateGoal(from_exercise_to_sqlite_goal_update(exercise)));
    statements
}

/// Plans the deletion of an exercise: one delete by key, that fails with
/// not-found where the store has no row under that key.
pub fn delete_exercise_statements(id: u64) -> (statements: Vec<ExerciseStatement>)
    ensures
        statements@.len() == 1,
        statements@[0]@ == (ExerciseStatementView::Delete { id: key_of(id) }),
{
    let mut statements: Vec<ExerciseStatement> = Vec::new();
    statements.push(ExerciseStatement::Delete { id: key(id) });
    statements
}

/// Plans the addition of a progression: one insert of all its members
/// together, each under the name of the progression and with its order
/// key; nothing at all where the progression has no member.
pub fn add_exercise_progression_statements(progression: ExerciseProgression) -> (statements: Vec<
    ExerciseStatement,
>)
    ensures
        progression@.progression.len() == 0 ==> statements@.len() == 0,
        progression@.progression.len() > 0 ==> statements@.len() == 1 && statements@[0]@
            == ExerciseStatementView::InsertMany(inserts_of_progression(progression@)),
{
    let mut statements: Vec<ExerciseStatement> = Vec::new();
    match progression_insert_rows(progression) {
        None => {},
        Some(rows) => {
            statements.push(ExerciseStatement::InsertMany(rows));
        },
    }
    statements
}

/// Plans the update of a progression: one update for each member, in
/// order, that replaces the row of the member and puts it under the name
/// of the progression with its order key. No update reports a missing
/// row.
pub fn update_exercise_progression_statements(progression: ExerciseProgression) -> (statements:
    Vec<ExerciseStatement>)
    ensures
        statements@.len() == progression@.progression.len(),
        forall|i: int|
            0 <= i < statements@.len() ==> (#[trigger] statements@[i])@
                == ExerciseStatementView::Update(updates_of_progression(progression@)[i]),
{
    let ghost expected = updates_of_progression(progression@);
    let rows = progression_update_rows(progression);
    let ghost exec_rows = rows@;
    let mut statements: Vec<ExerciseStatement> = Vec::new();
    for row in it: rows.into_iter()
        invariant
            it.seq() == exec_rows,
            update_views(exec_rows) == expected,
            statements@.len() == it.index(),
            forall|k: int|
                0 <= k < it.index() ==> (#[trigger] statements@[k])@
                    == ExerciseStatementView::Update(expected[k]),
    {
        assert(update_views(exec_rows)[it.index() as int] == row@);
        statements.push(ExerciseStatement::Update(row));
    }
    assert(update_views(exec_rows).len() == exec_rows.len());
    assert(expected.len() == progression@.progression.len());
    statements
}

/// Plans the deletion of a progression with all its members: one delete
/// by the name of the progression, that fails with not-found where no
/// row carries that name.
pub fn delete_exercise_progression_statements(progression: ExerciseProgression) -> (statements:
    Vec<ExerciseStatement>)
    ensures
        statements@.len() == 1,
        statements@[0]@ == (ExerciseStatementView::DeleteProgression { name: progression@.name }),
{
    let mut statements: Vec<ExerciseStatement> = Vec::new();
    statements.push(ExerciseStatement::DeleteProgression { name: progression.name });
    statements
}

} // verus!
