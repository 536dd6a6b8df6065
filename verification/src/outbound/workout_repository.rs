use crate::domain::traits::exercise_model::{debug_text, exercise_error_debug, ExerciseModelError};
use crate::domain::traits::model_error::{ModelError, ModelErrorView};
use crate::domain::traits::workout_model::WorkoutModelError;
use crate::domain::types::exercise::{Exercise, ExerciseView};
use crate::domain::types::weight::Weight;
use crate::domain::types::workout::{
    new_workout_exercise_views, payloads, workout_exercise_views, BodyweightRepSet,
    BodyweightTimeSet, NewBodyweightRepSet, NewBodyweightTimeSet, NewWeightedSet,
    NewWorkoutExercise, NewWorkoutExerciseView, NewWorkoutSet, WeightedSet, Workout,
    WorkoutExercise, WorkoutExerciseView, WorkoutSet, WorkoutView,
};
use crate::outbound::grouping::{grouped, index_of, lemma_index_of, with_row, Shape};
use crate::outbound::store::{key, key_of, Statement};
use vstd::prelude::*;

pub mod laws;

verus! {

/// A row of the workout table.
#[derive(Debug)]
pub struct SqliteWorkout {
    pub id: u64,
    pub date: chrono::NaiveDate,
    pub mood: Option<i64>,
}

/// A row of the table of sets. The store keeps the weight in double
/// precision; the row holds it rounded to single precision.
#[derive(Debug, Clone, Copy, PartialEq, Eq, Structural)]
pub struct SqliteWorkoutSet {
    pub id: u64,
    pub workout_id: u64,
    pub exercise_id: u64,
    pub set_order: i64,
    pub reps: Option<i64>,
    pub weight: Option<Weight>,
    pub duration_seconds: Option<i64>,
    pub failure: i64,
}

/// The columns of a workout row that is about to be inserted.
#[derive(Debug)]
pub struct SqliteWorkoutInsert {
    pub date: chrono::NaiveDate,
    pub mood: Option<i64>,
}

/// The columns that replace those of the workout row with key `id`.
#[derive(Debug)]
pub struct SqliteWorkoutUpdate {
    pub id: i64,
    pub date: chrono::NaiveDate,
    pub mood: Option<i64>,
}

/// The columns of a row of the table of sets that is about to be
/// inserted.
#[derive(Debug, Clone, Copy, PartialEq, Eq, Structural)]
pub struct SqliteWorkoutSetInsert {
    pub workout_id: i64,
    pub exercise_id: i64,
    pub set_order: i64,
    pub reps: Option<i64>,
    pub weight: Option<Weight>,
    pub duration_seconds: Option<i64>,
    pub failure: i64,
}

/// The mood column that stands for a mood.
pub open spec fn mood_column(mood: Option<u8>) -> Option<i64> {
    match mood {
        Some(m) => Some(m as i64),
        None => None,
    }
}

/// The mood that a mood column stands for: its low eight bits.
pub open spec fn mood_of_column(column: Option<i64>) -> Option<u8> {
    match column {
        Some(m) => Some(m as u8),
        None => None,
    }
}

/// Encodes a mood as its column.
pub fn mood_to_sqlite(mood: Option<u8>) -> (column: Option<i64>)
    ensures
        column == mood_column(mood),
        mood_of_column(column) == mood,
{
    match mood {
        Some(m) => {
            assert((m as i64) as u8 == m) by (bit_vector);
            Some(m as i64)
        },
        None => None,
    }
}

/// Decodes a mood column.
pub fn mood_from_sqlite(column: Option<i64>) -> (mood: Option<u8>)
    ensures
        mood == mood_of_column(column),
        column matches Some(m) ==> (0 <= m <= 255 ==> mood is Some && mood->Some_0 == m),
{
    match column {
        Some(m) => Some(
            #[verifier::truncate]
            (m as u8),
        ),
        None => None,
    }
}

/// The repetitions, weight, duration and failure columns that stand for a
/// set: the columns that its kind does not have are null, and the failure
/// column is one for a set done to failure and zero for any other.
pub open spec fn set_columns(set: NewWorkoutSet) -> (
    Option<i64>,
    Option<Weight>,
    Option<i64>,
    i64,
) {
    match set {
        NewWorkoutSet::Weighted(s) => (
            Some(s.reps as i64),
            Some(s.weight),
            None,
            if s.failure {
                1
            } else {
                0
            },
        ),
        NewWorkoutSet::BodyweightReps(s) => (
            Some(s.reps as i64),
            None,
            None,
            if s.failure {
                1
            } else {
                0
            },
        ),
        NewWorkoutSet::BodyweightTime(s) => (
            None,
            None,
            Some(s.duration_seconds as i64),
            if s.failure {
                1
            } else {
                0
            },
        ),
    }
}

/// The low sixteen bits of a column, or zero for a null.
pub open spec fn count_of_column(column: Option<i64>) -> u16 {
    match column {
        Some(n) => n as u16,
        None => 0,
    }
}

/// The set that a row stands for. A row with a weight is a weighted set;
/// a row without a weight and with a duration is a timed set; any other
/// row is a set counted in repetitions. A null count reads as zero, and
/// the set was done to failure where the failure column is not zero.
pub open spec fn set_of_row(row: SqliteWorkoutSet) -> WorkoutSet {
    let failure = row.failure != 0;
    if row.weight is Some {
        WorkoutSet::Weighted(
            WeightedSet {
                id: row.id,
                reps: count_of_column(row.reps),
                weight: row.weight->Some_0,
                failure,
            },
        )
    } else if row.duration_seconds is Some {
        WorkoutSet::BodyweightTime(
            BodyweightTimeSet {
                id: row.id,
                duration_seconds: count_of_column(row.duration_seconds),
                failure,
            },
        )
    } else {
        WorkoutSet::BodyweightReps(
            BodyweightRepSet { id: row.id, reps: count_of_column(row.reps), failure },
        )
    }
}

/// The sets that a sequence of rows stands for, in order.
pub open spec fn sets_of_rows(rows: Seq<SqliteWorkoutSet>) -> Seq<WorkoutSet> {
    Seq::new(rows.len(), |i: int| set_of_row(rows[i]))
}

/// The key by which the sets of a workout are ordered: a thousand for each
/// exercise before the set's own, and one more than the set's place
/// within its exercise.
pub open spec fn set_key(exercise_index: int, set_index: int) -> int {
    exercise_index * 1000 + set_index + 1
}

/// The insert that stores one set of a workout.
pub open spec fn set_insert(
    workout_id: u64,
    exercise_id: u64,
    order: int,
    set: NewWorkoutSet,
) -> SqliteWorkoutSetInsert {
    let columns = set_columns(set);
    SqliteWorkoutSetInsert {
        workout_id: key_of(workout_id),
        exercise_id: key_of(exercise_id),
        set_order: order as i64,
        reps: columns.0,
        weight: columns.1,
        duration_seconds: columns.2,
        failure: columns.3,
    }
}

/// The inserts that store the sets of the exercise at `exercise_index` of
/// a workout, in order.
pub open spec fn block_inserts(
    workout_id: u64,
    exercise_index: int,
    exercise: NewWorkoutExerciseView,
) -> Seq<SqliteWorkoutSetInsert> {
    Seq::new(
        exercise.sets.len(),
        |j: int|
            set_insert(
                workout_id,
                exercise.exercise_id,
                set_key(exercise_index, j),
                exercise.sets[j],
            ),
    )
}

/// The inserts that store all the sets of a workout: those of its first
/// exercise, then those of its second, and so on.
pub open spec fn set_inserts(workout_id: u64, exercises: Seq<NewWorkoutExerciseView>) -> Seq<
    SqliteWorkoutSetInsert,
>
    decreases exercises.len(),
{
    if exercises.len() == 0 {
        Seq::empty()
    } else {
        set_inserts(workout_id, exercises.drop_last()) + block_inserts(
            workout_id,
            exercises.len() - 1,
            exercises.last(),
        )
    }
}

/// Every order key of the sets of `exercises` fits the column that holds
/// it.
pub open spec fn keys_fit(exercises: Seq<NewWorkoutExerciseView>) -> bool {
    forall|i: int|
        0 <= i < exercises.len() && (#[trigger] exercises[i]).sets.len() > 0 ==> set_key(
            i,
            exercises[i].sets.len() - 1,
        ) <= i64::MAX
}

/// Encodes a set as its repetitions, weight, duration and failure
/// columns.
pub fn set_to_sqlite(set: &NewWorkoutSet) -> (columns: (
    Option<i64>,
    Option<Weight>,
    Option<i64>,
    i64,
))
    ensures
        columns == set_columns(*set),
{
    match set {
        NewWorkoutSet::Weighted(s) => (
            Some(s.reps as i64),
            Some(s.weight),
            None,
            if s.failure {
                1
            } else {
                0
            },
        ),
        NewWorkoutSet::BodyweightReps(s) => (
            Some(s.reps as i64),
            None,
            None,
            if s.failure {
                1
            } else {
                0
            },
        ),
        NewWorkoutSet::BodyweightTime(s) => (
            None,
            None,
            Some(s.duration_seconds as i64),
            if s.failure {
                1
            } else {
                0
            },
        ),
    }
}

/// Decodes the low sixteen bits of a column; a null reads as zero.
fn count_from_sqlite(column: Option<i64>) -> (count: u16)
    ensures
        count == count_of_column(column),
{
    match column {
        Some(n) => {
            #[verifier::truncate]
            (n as u16)
        },
        None => 0,
    }
}

/// Decodes a row of the table of sets.
pub fn set_from_sqlite(row: &SqliteWorkoutSet) -> (set: WorkoutSet)
    ensures
        set == set_of_row(*row),
{
    let failure = row.failure != 0;
    match row.weight {
        Some(weight) => WorkoutSet::Weighted(
            WeightedSet { id: row.id, reps: count_from_sqlite(row.reps), weight, failure },
        ),
        None => {
            if row.duration_seconds.is_some() {
                WorkoutSet::BodyweightTime(
                    BodyweightTimeSet {
                        id: row.id,
                        duration_seconds: count_from_sqlite(row.duration_seconds),
                        failure,
                    },
                )
            } else {
                WorkoutSet::BodyweightReps(
                    BodyweightRepSet { id: row.id, reps: count_from_sqlite(row.reps), failure },
                )
            }
        },
    }
}

/// Decodes rows of the table of sets, in order.
pub fn sets_from_rows(rows: &Vec<SqliteWorkoutSet>) -> (sets: Vec<WorkoutSet>)
    ensures
        sets@ == sets_of_rows(rows@),
{
    let mut sets: Vec<WorkoutSet> = Vec::new();
    let mut i: usize = 0;
    while i < rows.len()
        invariant
            i <= rows.len(),
            sets@.len() == i,
            forall|k: int| 0 <= k < i ==> #[trigger] sets@[k] == set_of_row(rows@[k]),
        decreases rows.len() - i,
    {
        sets.push(set_from_sqlite(&rows[i]));
        i += 1;
    }
    assert(sets@ =~= sets_of_rows(rows@));
    sets
}

/// Tells whether every order key of the sets of `exercises` fits the
/// column that holds it.
pub fn order_keys_fit(exercises: &Vec<NewWorkoutExercise>) -> (fit: bool)
    ensures
        fit == keys_fit(new_workout_exercise_views(exercises@)),
{
    let ghost views = new_workout_exercise_views(exercises@);
    let mut i: usize = 0;
    while i < exercises.len()
        invariant
            i <= exercises.len(),
            views == new_workout_exercise_views(exercises@),
            forall|k: int|
                0 <= k < i && (#[trigger] views[k]).sets.len() > 0 ==> set_key(
                    k,
                    views[k].sets.len() - 1,
                ) <= i64::MAX,
        decreases exercises.len() - i,
    {
        let count = exercises[i].sets.len();
        assert(views[i as int].sets.len() == count);
        if count > 0 {
            // The largest key of the block is i * 1000 + count.
            if i as u128 * 1000 + count as u128 > i64::MAX as u128 {
                assert(!(set_key(i as int, views[i as int].sets.len() - 1) <= i64::MAX));
                return false;
            }
        }
        i += 1;
    }
    true
}

/// Plans the statements that store the sets of a workout: one insert for
/// each set, exercise by exercise, to be sent in this order until one
/// fails.
pub fn workout_set_rows(workout_id: u64, exercises: &Vec<NewWorkoutExercise>) -> (rows: Vec<
    SqliteWorkoutSetInsert,
>)
    requires
        keys_fit(new_workout_exercise_views(exercises@)),
    ensures
        rows@ == set_inserts(workout_id, new_workout_exercise_views(exercises@)),
{
    let ghost views = new_workout_exercise_views(exercises@);
    let mut rows: Vec<SqliteWorkoutSetInsert> = Vec::new();
    let mut exercise_idx: usize = 0;
    assert(views.take(0) =~= Seq::empty());
    while exercise_idx < exercises.len()
        invariant
            exercise_idx <= exercises.len(),
            views == new_workout_exercise_views(exercises@),
            keys_fit(views),
            rows@ == set_inserts(workout_id, views.take(exercise_idx as int)),
        decreases exercises.len() - exercise_idx,
    {
        let exercise = &exercises[exercise_idx];
        let ghost block = views[exercise_idx as int];
        let ghost before = rows@;
        assert(block == exercise@);
        let mut set_idx: usize = 0;
        while set_idx < exercise.sets.len()
            invariant
                set_idx <= exercise.sets.len(),
                exercise_idx < exercises.len(),
                block == exercise@,
                block == views[exercise_idx as int],
                views.len() == exercises.len(),
                keys_fit(views),
                rows@ == before + block_inserts(workout_id, exercise_idx as int, block).take(
                    set_idx as int,
                ),
            decreases exercise.sets.len() - set_idx,
        {
            assert(set_key(exercise_idx as int, block.sets.len() - 1) <= i64::MAX);
            let set_order: i64 = (exercise_idx as i64) * 1000 + (set_idx as i64) + 1;
            let (reps, weight, duration_seconds, failure) = set_to_sqlite(&exercise.sets[set_idx]);
            rows.push(
                SqliteWorkoutSetInsert {
                    workout_id: key(workout_id),
                    exercise_id: key(exercise.exercise_id),
                    set_order,
                    reps,
                    weight,
                    duration_seconds,
                    failure,
                },
            );
            proof {
                let all = block_inserts(workout_id, exercise_idx as int, block);
                assert(all.take(set_idx as int + 1) =~= all.take(set_idx as int).push(
                    all[set_idx as int],
                ));
                assert(rows@ =~= before + all.take(set_idx as int + 1));
            }
            set_idx += 1;
        }
        proof {
            let all = block_inserts(workout_id, exercise_idx as int, block);
            assert(all.take(all.len() as int) =~= all);
            let next = views.take(exercise_idx as int + 1);
            assert(next.drop_last() =~= views.take(exercise_idx as int));
            assert(next.last() == block);
        }
        exercise_idx += 1;
    }
    assert(views.take(exercises.len() as int) =~= views);
    rows
}

/// The rows of the sets done of one exercise in a workout.
#[derive(Debug, Clone, PartialEq, Eq)]
pub struct SetGroup {
    pub exercise_id: u64,
    pub rows: Vec<SqliteWorkoutSet>,
}

/// The mathematical content of a [`SetGroup`].
pub struct SetGroupView {
    pub exercise_id: u64,
    pub rows: Seq<SqliteWorkoutSet>,
}

impl View for SetGroup {
    type V = SetGroupView;

    open spec fn view(&self) -> SetGroupView {
        SetGroupView { exercise_id: self.exercise_id, rows: self.rows@ }
    }
}

/// The views of a sequence of groups, in order.
pub open spec fn group_views(groups: Seq<SetGroup>) -> Seq<SetGroupView> {
    Seq::new(groups.len(), |i: int| groups[i]@)
}

/// How set rows fall into groups: by their exercise, each row as it is.
pub open spec fn set_shape() -> Shape<SetGroupView, SqliteWorkoutSet, u64, SqliteWorkoutSet> {
    Shape {
        group_key: |group: SetGroupView| group.exercise_id,
        members: |group: SetGroupView| group.rows,
        row_key: |row: SqliteWorkoutSet| Some(row.exercise_id),
        member: |row: SqliteWorkoutSet| row,
        start: |exercise_id: u64, row: SqliteWorkoutSet|
            SetGroupView { exercise_id, rows: seq![row] },
        extend: |group: SetGroupView, row: SqliteWorkoutSet|
            SetGroupView { exercise_id: group.exercise_id, rows: group.rows.push(row) },
    }
}

/// The place in `groups` of the group of the exercise `exercise_id`: the
/// first index whose group is of that exercise, or the length of `groups`
/// where none is.
pub open spec fn index_of_exercise(groups: Seq<SetGroupView>, exercise_id: u64) -> int {
    index_of(groups, set_shape(), exercise_id)
}

/// [`index_of_exercise`] is the one index at which the exercise stands
/// first.
pub proof fn lemma_index_of_exercise(groups: Seq<SetGroupView>, exercise_id: u64, at: int)
    ensures
        0 <= index_of_exercise(groups, exercise_id) <= groups.len(),
        forall|k: int|
            0 <= k < index_of_exercise(groups, exercise_id) ==> (#[trigger] groups[k]).exercise_id
                != exercise_id,
        index_of_exercise(groups, exercise_id) < groups.len() ==> groups[index_of_exercise(
            groups,
            exercise_id,
        )].exercise_id == exercise_id,
        (0 <= at <= groups.len() && (forall|k: int|
            0 <= k < at ==> (#[trigger] groups[k]).exercise_id != exercise_id) && (at
            < groups.len() ==> groups[at].exercise_id == exercise_id)) ==> at == index_of_exercise(
            groups,
            exercise_id,
        ),
{
    lemma_index_of(groups, set_shape(), exercise_id, at);
}

/// The groups `groups` with one more row taken in: a row of an exercise
/// that has a group joins that group at its end; a row of any other
/// exercise starts a group of its own at the end.
pub open spec fn with_set_row(groups: Seq<SetGroupView>, row: SqliteWorkoutSet) -> Seq<
    SetGroupView,
> {
    with_row(groups, set_shape(), row)
}

/// The rows of a workout grouped by exercise: one group for each exercise
/// among the rows, in the order in which the exercises first occur, each
/// with the rows of that exercise in the order of the rows.
pub open spec fn group_by_exercise(rows: Seq<SqliteWorkoutSet>) -> Seq<SetGroupView> {
    grouped(rows, set_shape())
}

/// Finds the group of the exercise `exercise_id` among `groups`.
fn find_group(groups: &Vec<SetGroup>, exercise_id: u64) -> (k: usize)
    ensures
        k == index_of_exercise(group_views(groups@), exercise_id),
        k <= groups.len(),
{
    let mut k: usize = 0;
    while k < groups.len() && groups[k].exercise_id != exercise_id
        invariant
            k <= groups.len(),
            forall|j: int| 0 <= j < k ==> (#[trigger] groups@[j]).exercise_id != exercise_id,
        decreases groups.len() - k,
    {
        k += 1;
    }
    proof {
        let views = group_views(groups@);
        assert forall|j: int| 0 <= j < k implies (#[trigger] views[j]).exercise_id
            != exercise_id by {
            assert(views[j] == groups@[j]@);
        }
        lemma_index_of_exercise(views, exercise_id, k as int);
    }
    k
}

/// Groups the rows of a workout by exercise, as [`group_by_exercise`]
/// says.
pub fn groups_from_rows(rows: &Vec<SqliteWorkoutSet>) -> (groups: Vec<SetGroup>)
    ensures
        group_views(groups@) == group_by_exercise(rows@),
{
    let mut groups: Vec<SetGroup> = Vec::new();
    let mut i: usize = 0;
    assert(rows@.take(0) =~= Seq::empty());
    assert(group_views(groups@) =~= group_by_exercise(rows@.take(0)));
    while i < rows.len()
        invariant
            i <= rows.len(),
            group_views(groups@) == group_by_exercise(rows@.take(i as int)),
        decreases rows.len() - i,
    {
        let row = rows[i];
        let ghost before = group_views(groups@);
        let ghost old_groups = groups@;
        proof {
            assert(rows@.take(i + 1).drop_last() =~= rows@.take(i as int));
            assert(rows@.take(i + 1).last() == row);
        }
        let k = find_group(&groups, row.exercise_id);
        if k < groups.len() {
            groups[k].rows.push(row);
            proof {
                let after = group_views(groups@);
                let expected = with_set_row(before, row);
                assert(after.len() == expected.len());
                assert forall|j: int| 0 <= j < after.len() implies after[j] == expected[j] by {
                    assert(before[j] == old_groups[j]@);
                    if j == k {
                        assert(after[j].rows =~= expected[j].rows);
                    } else {
                        assert(groups@[j] == old_groups[j]);
                    }
                }
                assert(after =~= expected);
            }
        } else {
            let mut group_rows: Vec<SqliteWorkoutSet> = Vec::new();
            group_rows.push(row);
            groups.push(SetGroup { exercise_id: row.exercise_id, rows: group_rows });
            proof {
                let after = group_views(groups@);
                let expected = with_set_row(before, row);
                assert(after.len() == expected.len());
                assert forall|j: int| 0 <= j < after.len() implies after[j] == expected[j] by {
                    if j < old_groups.len() {
                        assert(before[j] == old_groups[j]@);
                        assert(groups@[j] == old_groups[j]);
                    } else {
                        assert(after[j].rows =~= expected[j].rows);
                    }
                }
                assert(after =~= expected);
            }
        }
        i += 1;
    }
    assert(rows@.take(rows@.len() as int) =~= rows@);
    groups
}

/// A workout that is being put together from its rows: the header row,
/// the rows of its sets grouped by exercise, and the exercises resolved
/// so far, one for each of the first groups.
#[derive(Debug)]
pub struct WorkoutAssembly {
    pub header: SqliteWorkout,
    pub groups: Vec<SetGroup>,
    pub exercises: Vec<WorkoutExercise>,
}

/// The mathematical content of a [`WorkoutAssembly`].
pub struct WorkoutAssemblyView {
    pub header: SqliteWorkout,
    pub groups: Seq<SetGroupView>,
    pub exercises: Seq<WorkoutExerciseView>,
}

impl View for WorkoutAssembly {
    type V = WorkoutAssemblyView;

    open spec fn view(&self) -> WorkoutAssemblyView {
        WorkoutAssemblyView {
            header: self.header,
            groups: group_views(self.groups@),
            exercises: workout_exercise_views(self.exercises@),
        }
    }
}

impl WorkoutAssemblyView {
    /// The assembly of a workout from its header and the rows of its sets,
    /// before any exercise is resolved.
    pub open spec fn begin(header: SqliteWorkout, rows: Seq<SqliteWorkoutSet>) -> Self {
        WorkoutAssemblyView { header, groups: group_by_exercise(rows), exercises: Seq::empty() }
    }

    /// The exercise to resolve next: that of the first group without an
    /// exercise, or none where every group has its exercise.
    pub open spec fn pending(self) -> Option<u64> {
        if self.exercises.len() < self.groups.len() {
            Some(self.groups[self.exercises.len() as int].exercise_id)
        } else {
            None
        }
    }

    /// The assembly once `exercise` has come back for the pending group:
    /// the exercise joins the resolved ones with the sets that the rows of
    /// the group stand for. Where nothing is pending, nothing changes.
    pub open spec fn resolve(self, exercise: ExerciseView) -> Self {
        if self.exercises.len() < self.groups.len() {
            WorkoutAssemblyView {
                header: self.header,
                groups: self.groups,
                exercises: self.exercises.push(
                    WorkoutExerciseView {
                        exercise,
                        sets: sets_of_rows(self.groups[self.exercises.len() as int].rows),
                    },
                ),
            }
        } else {
            self
        }
    }

    /// The assembly once the exercises `resolved` have come back, one
    /// after the other.
    pub open spec fn resolve_all(self, resolved: Seq<ExerciseView>) -> Self
        decreases resolved.len(),
    {
        if resolved.len() == 0 {
            self
        } else {
            self.resolve_all(resolved.drop_last()).resolve(resolved.last())
        }
    }

    /// The workout of the header with the exercises resolved so far.
    pub open spec fn workout(self) -> WorkoutView {
        WorkoutView {
            id: self.header.id,
            date: self.header.date,
            mood: mood_of_column(self.header.mood),
            exercises: self.exercises,
        }
    }
}

impl WorkoutAssembly {
    /// Starts to put a workout together from its header row and the rows
    /// of its sets.
    pub fn begin(header: SqliteWorkout, rows: Vec<SqliteWorkoutSet>) -> (assembly: WorkoutAssembly)
        ensures
            assembly@ == WorkoutAssemblyView::begin(header, rows@),
    {
        let groups = groups_from_rows(&rows);
        let assembly = WorkoutAssembly { header, groups, exercises: Vec::new() };
        assert(assembly@.exercises =~= Seq::empty());
        assembly
    }

    /// The exercise that has to be looked up next, or none where the
    /// workout is complete.
    pub fn next_exercise_id(&self) -> (next: Option<u64>)
        ensures
            next == self@.pending(),
    {
        let done = self.exercises.len();
        if done < self.groups.len() {
            assert(self@.groups[done as int] == self.groups@[done as int]@);
            Some(self.groups[done].exercise_id)
        } else {
            None
        }
    }

    /// Takes in the reply to the lookup of the pending exercise. An
    /// exercise joins the resolved ones with the sets of its group. A
    /// failure of the exercise model, of either kind, ends the assembly
    /// with a database error whose text is the failure as `{:?}` formats
    /// it.
    pub fn resolved(self, reply: Result<Exercise, ExerciseModelError>) -> (r: Result<
        WorkoutAssembly,
        WorkoutModelError,
    >)
        ensures
            reply matches Ok(exercise) ==> r is Ok && r->Ok_0@ == self@.resolve(exercise@),
            reply matches Err(e) ==> r is Err && r->Err_0@ == ModelErrorView::DatabaseError(
                exercise_error_debug(e@),
            ),
    {
        match reply {
            Ok(exercise) => {
                let mut assembly = self;
                let done = assembly.exercises.len();
                if done < assembly.groups.len() {
                    let ghost before = assembly@;
                    assert(before.groups[done as int] == assembly.groups@[done as int]@);
                    let sets = sets_from_rows(&assembly.groups[done].rows);
                    assembly.exercises.push(WorkoutExercise { exercise, sets });
                    assert(assembly@.exercises =~= before.resolve(exercise@).exercises);
                }
                Ok(assembly)
            },
            Err(e) => Err(WorkoutModelError::database_error(debug_text(&e))),
        }
    }

    /// The workout of the header with the exercises resolved so far.
    pub fn finish(self) -> (workout: Workout)
        ensures
            workout@ == self@.workout(),
    {
        Workout {
            id: self.header.id,
            date: self.header.date,
            mood: mood_from_sqlite(self.header.mood),
            exercises: self.exercises,
        }
    }
}

/// The identifiers of the workouts that a sequence of header rows stands
/// for, in order.
pub open spec fn ids_of_workouts(rows: Seq<SqliteWorkout>) -> Seq<u64> {
    Seq::new(rows.len(), |i: int| rows[i].id)
}

/// Lists the workouts to fetch, one by one and in this order, from the
/// header rows of all workouts.
pub fn workout_ids(rows: &Vec<SqliteWorkout>) -> (ids: Vec<u64>)
    ensures
        ids@ == ids_of_workouts(rows@),
{
    let mut ids: Vec<u64> = Vec::new();
    let mut i: usize = 0;
    while i < rows.len()
        invariant
            i <= rows.len(),
            ids@.len() == i,
            forall|k: int| 0 <= k < i ==> #[trigger] ids@[k] == rows@[k].id,
        decreases rows.len() - i,
    {
        ids.push(rows[i].id);
        i += 1;
    }
    assert(ids@ =~= ids_of_workouts(rows@));
    ids
}

/// Plans the statement that stores the header of a new workout.
pub fn workout_insert(date: chrono::NaiveDate, mood: Option<u8>) -> (row: SqliteWorkoutInsert)
    ensures
        row.date == date,
        row.mood == mood_column(mood),
{
    SqliteWorkoutInsert { date, mood: mood_to_sqlite(mood) }
}

/// Plans the statement that replaces the header of a stored workout.
pub fn workout_update(workout: &Workout) -> (row: SqliteWorkoutUpdate)
    ensures
        row.id == key_of(workout.id),
        row.date == workout.date,
        row.mood == mood_column(workout.mood),
{
    SqliteWorkoutUpdate {
        id: key(workout.id),
        date: workout.date,
        mood: mood_to_sqlite(workout.mood),
    }
}

/// The exercises of a stored workout as they are stored again: each
/// exercise by its identifier, each set without its own.
pub open spec fn replacements(exercises: Seq<WorkoutExerciseView>) -> Seq<NewWorkoutExerciseView> {
    Seq::new(
        exercises.len(),
        |i: int|
            NewWorkoutExerciseView {
                exercise_id: exercises[i].exercise.id,
                sets: payloads(exercises[i].sets),
            },
    )
}

/// Strips a set of its identifier.
pub fn set_without_id(set: &WorkoutSet) -> (new_set: NewWorkoutSet)
    ensures
        new_set == set.payload(),
{
    match set {
        WorkoutSet::Weighted(s) => NewWorkoutSet::Weighted(
            NewWeightedSet { reps: s.reps, weight: s.weight, failure: s.failure },
        ),
        WorkoutSet::BodyweightReps(s) => NewWorkoutSet::BodyweightReps(
            NewBodyweightRepSet { reps: s.reps, failure: s.failure },
        ),
        WorkoutSet::BodyweightTime(s) => NewWorkoutSet::BodyweightTime(
            NewBodyweightTimeSet { duration_seconds: s.duration_seconds, failure: s.failure },
        ),
    }
}

/// Turns the exercises of a stored workout into those that replace them
/// in the store.
pub fn replacement_exercises(exercises: &Vec<WorkoutExercise>) -> (new_exercises: Vec<
    NewWorkoutExercise,
>)
    ensures
        new_workout_exercise_views(new_exercises@) == replacements(
            workout_exercise_views(exercises@),
        ),
{
    let mut new_exercises: Vec<NewWorkoutExercise> = Vec::new();
    let mut i: usize = 0;
    while i < exercises.len()
        invariant
            i <= exercises.len(),
            new_exercises@.len() == i,
            forall|k: int|
                0 <= k < i ==> (#[trigger] new_exercises@[k])@ == (NewWorkoutExerciseView {
                    exercise_id: exercises@[k].exercise.id,
                    sets: payloads(exercises@[k].sets@),
                }),
        decreases exercises.len() - i,
    {
        let exercise = &exercises[i];
        let mut sets: Vec<NewWorkoutSet> = Vec::new();
        let mut j: usize = 0;
        while j < exercise.sets.len()
            invariant
                j <= exercise.sets.len(),
                sets@.len() == j,
                forall|k: int| 0 <= k < j ==> #[trigger] sets@[k] == exercise.sets@[k].payload(),
            decreases exercise.sets.len() - j,
        {
            sets.push(set_without_id(&exercise.sets[j]));
            j += 1;
        }
        assert(sets@ =~= payloads(exercise.sets@));
        new_exercises.push(NewWorkoutExercise { exercise_id: exercise.exercise.id, sets });
        i += 1;
    }
    assert(new_workout_exercise_views(new_exercises@) =~= replacements(
        workout_exercise_views(exercises@),
    ));
    new_exercises
}

/// A statement that changes the tables of workouts and of their sets.
#[derive(Debug)]
pub enum WorkoutStatement {
    /// Replace the date and the mood of the workout row with the key of
    /// the update.
    UpdateWorkout(SqliteWorkoutUpdate),
    /// Delete every set row of the workout with the key `workout_id`.
    DeleteSets { workout_id: i64 },
    /// Insert one set row.
    InsertSet(SqliteWorkoutSetInsert),
    /// Delete the workout row with the key `id`. The rows of its sets
    /// stay.
    DeleteWorkout { id: i64 },
}

impl Statement for WorkoutStatement {
    /// The update and the delete of a workout row address a row that they
    /// expect to exist. The statements on set rows do not.
    open spec fn must_change(&self) -> bool {
        self is UpdateWorkout || self is DeleteWorkout
    }

    fn expects_change(&self) -> (b: bool) {
        match self {
            WorkoutStatement::UpdateWorkout(_) => true,
            WorkoutStatement::DeleteWorkout { .. } => true,
            _ => false,
        }
    }
}

/// The statements that store the sets of a workout anew: one insert for
/// each set, exercise by exercise.
pub open spec fn set_statements(workout_id: u64, exercises: Seq<NewWorkoutExerciseView>) -> Seq<
    WorkoutStatement,
> {
    Seq::new(
        set_inserts(workout_id, exercises).len(),
        |k: int| WorkoutStatement::InsertSet(set_inserts(workout_id, exercises)[k]),
    )
}

/// The statements that update a workout: the header first, then the
/// removal of all its sets, then one insert for each of its sets.
pub open spec fn update_statements(workout: WorkoutView) -> Seq<WorkoutStatement> {
    seq![
        WorkoutStatement::UpdateWorkout(
            SqliteWorkoutUpdate {
                id: key_of(workout.id),
                date: workout.date,
                mood: mood_column(workout.mood),
            },
        ),
        WorkoutStatement::DeleteSets { workout_id: key_of(workout.id) },
    ] + set_statements(workout.id, replacements(workout.exercises))
}

/// Plans the storing of the sets of a workout: one insert for each set,
/// exercise by exercise, sent in this order until one fails.
pub fn insert_workout_sets_statements(
    workout_id: u64,
    exercises: &Vec<NewWorkoutExercise>,
) -> (statements: Vec<WorkoutStatement>)
    requires
        keys_fit(new_workout_exercise_views(exercises@)),
    ensures
        statements@ == set_statements(workout_id, new_workout_exercise_views(exercises@)),
        statements@.len() == set_inserts(workout_id, new_workout_exercise_views(exercises@)).len(),
        forall|k: int|
            0 <= k < statements@.len() ==> #[trigger] statements@[k] == WorkoutStatement::InsertSet(
                set_inserts(workout_id, new_workout_exercise_views(exercises@))[k],
            ),
{
    let rows = workout_set_rows(workout_id, exercises);
    let mut statements: Vec<WorkoutStatement> = Vec::new();
    let mut i: usize = 0;
    while i < rows.len()
        invariant
            i <= rows.len(),
            statements@.len() == i,
            forall|k: int|
                0 <= k < i ==> #[trigger] statements@[k] == WorkoutStatement::InsertSet(rows@[k]),
        decreases rows.len() - i,
    {
        statements.push(WorkoutStatement::InsertSet(rows[i]));
        i += 1;
    }
    assert(statements@ =~= set_statements(workout_id, new_workout_exercise_views(exercises@)));
    statements
}

/// Plans the update of a workout: the update of its header, which fails
/// with not-found where the store has no such workout; then the removal
/// of all its sets; then one insert for each set of the update, exercise
/// by exercise. The sets that the store held are dropped, not compared.
pub fn update_workout_statements(workout: &Workout) -> (statements: Vec<WorkoutStatement>)
    requires
        keys_fit(replacements(workout@.exercises)),
    ensures
        statements@ == update_statements(workout@),
        statements@.len() == 2 + set_inserts(workout.id, replacements(workout@.exercises)).len(),
        statements@[0] == WorkoutStatement::UpdateWorkout(
            SqliteWorkoutUpdate {
                id: key_of(workout.id),
                date: workout.date,
                mood: mood_column(workout.mood),
            },
        ),
        statements@[1] == (WorkoutStatement::DeleteSets { workout_id: key_of(workout.id) }),
        forall|k: int|
            2 <= k < statements@.len() ==> #[trigger] statements@[k] == WorkoutStatement::InsertSet(
                set_inserts(workout.id, replacements(workout@.exercises))[k - 2],
            ),
{
    let mut statements: Vec<WorkoutStatement> = Vec::new();
    statements.push(WorkoutStatement::UpdateWorkout(workout_update(workout)));
    statements.push(WorkoutStatement::DeleteSets { workout_id: key(workout.id) });
    let new_exercises = replacement_exercises(&workout.exercises);
    let rows = workout_set_rows(workout.id, &new_exercises);
    let mut i: usize = 0;
    while i < rows.len()
        invariant
            i <= rows.len(),
            statements@.len() == i + 2,
            rows@ == set_inserts(workout.id, replacements(workout@.exercises)),
            statements@[0] == update_statements(workout@)[0],
            statements@[1] == update_statements(workout@)[1],
            forall|k: int|
                2 <= k < i + 2 ==> #[trigger] statements@[k] == WorkoutStatement::InsertSet(
                    rows@[k - 2],
                ),
        decreases rows.len() - i,
    {
        statements.push(WorkoutStatement::InsertSet(rows[i]));
        i += 1;
    }
    proof {
        let expected = update_statements(workout@);
        let tail = set_statements(workout.id, replacements(workout@.exercises));
        assert(expected.len() == tail.len() + 2);
        assert forall|k: int| 0 <= k < statements@.len() implies statements@[k]
            == expected[k] by {
            if k >= 2 {
                assert(expected[k] == tail[k - 2]);
            }
        }
    }
    assert(statements@ =~= update_statements(workout@));
    statements
}

/// Plans the first two statements of the update of a workout, which do
/// not depend on its sets: the update of the header and the removal of
/// all its sets. They are what is sent of an update whose sets have order
/// keys that do not fit their column.
pub fn update_workout_header_statements(workout: &Workout) -> (statements: Vec<WorkoutStatement>)
    ensures
        statements@ == update_statements(workout@).take(2),
        statements@.len() == 2,
        statements@[0] == update_statements(workout@)[0],
        statements@[1] == update_statements(workout@)[1],
{
    let mut statements: Vec<WorkoutStatement> = Vec::new();
    statements.push(WorkoutStatement::UpdateWorkout(workout_update(workout)));
    statements.push(WorkoutStatement::DeleteSets { workout_id: key(workout.id) });
    assert(statements@ =~= update_statements(workout@).take(2));
    statements
}

/// Plans the deletion of a workout: one delete of its header by key, that
/// fails with not-found where the store has no such workout.
pub fn delete_workout_statements(workout_id: u64) -> (statements: Vec<WorkoutStatement>)
    ensures
        statements@.len() == 1,
        statements@[0] == (WorkoutStatement::DeleteWorkout { id: key_of(workout_id) }),
{
    let mut statements: Vec<WorkoutStatement> = Vec::new();
    statements.push(WorkoutStatement::DeleteWorkout { id: key(workout_id) });
    statements
}

} // verus!
