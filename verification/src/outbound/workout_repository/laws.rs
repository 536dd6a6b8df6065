//! What holds of the rows of a workout once the store has taken them in.

use crate::domain::types::exercise::ExerciseView;
use crate::domain::types::workout::{
    payloads, NewWorkoutExerciseView, NewWorkoutSet, WorkoutExerciseView, WorkoutView,
};
use crate::domain::traits::model_error::ModelErrorView;
use crate::outbound::grouping::{
    lemma_groups_partition, lemma_no_member_without_group, members_of,
};
use crate::outbound::store::{
    ascending_by, fits_key, id_of, key_of, lemma_key_holds_id, lemma_ordered_rows_unique,
    strictly_ascending_by, Batch, Statement, StatementOutcome,
};
use crate::outbound::workout_repository::{
    block_inserts, group_by_exercise, index_of_exercise, keys_fit, lemma_index_of_exercise,
    mood_column, mood_of_column, replacements, set_columns, set_insert, set_inserts, set_key,
    set_of_row, set_shape, sets_of_rows, update_statements, SqliteWorkout, SqliteWorkoutSet,
    SqliteWorkoutSetInsert, WorkoutAssemblyView, WorkoutStatement,
};
use vstd::prelude::*;

verus! {

/// When every lookup succeeds, the assembly of a workout ends with
/// nothing pending, and the workout has one exercise for each group of
/// rows, in the order of the groups: the exercise that came back for the
/// group, with the sets that the rows of the group stand for.
pub proof fn lemma_assembly_completes(
    header: SqliteWorkout,
    rows: Seq<SqliteWorkoutSet>,
    resolved: Seq<ExerciseView>,
)
    requires
        resolved.len() <= group_by_exercise(rows).len(),
    ensures
        ({
            let groups = group_by_exercise(rows);
            let end = WorkoutAssemblyView::begin(header, rows).resolve_all(resolved);
            &&& end.header == header
            &&& end.groups == groups
            &&& end.exercises.len() == resolved.len()
            &&& forall|k: int|
                0 <= k < resolved.len() ==> #[trigger] end.exercises[k] == (WorkoutExerciseView {
                    exercise: resolved[k],
                    sets: sets_of_rows(groups[k].rows),
                })
            &&& resolved.len() < groups.len() ==> end.pending() == Some(
                groups[resolved.len() as int].exercise_id,
            )
            &&& resolved.len() == groups.len() ==> end.pending() is None
        }),
    decreases resolved.len(),
{
    if resolved.len() > 0 {
        lemma_assembly_completes(header, rows, resolved.drop_last());
    }
}

/// The row that the store holds once it has taken in `insert` and given it
/// the key `id`.
pub open spec fn stored_set(insert: SqliteWorkoutSetInsert, id: u64) -> SqliteWorkoutSet {
    SqliteWorkoutSet {
        id,
        workout_id: id_of(insert.workout_id),
        exercise_id: id_of(insert.exercise_id),
        set_order: insert.set_order,
        reps: insert.reps,
        weight: insert.weight,
        duration_seconds: insert.duration_seconds,
        failure: insert.failure,
    }
}

/// The rows that the store holds once it has taken in `inserts` and given
/// them the keys `ids`, in that order.
pub open spec fn stored_sets(inserts: Seq<SqliteWorkoutSetInsert>, ids: Seq<u64>) -> Seq<
    SqliteWorkoutSet,
> {
    Seq::new(inserts.len(), |k: int| stored_set(inserts[k], ids[k]))
}

/// A set that is inserted and then read back is the set that went in,
/// under the key that the store gave it, and its row names the workout
/// and the exercise that it was planned for.
pub proof fn lemma_set_reads_back(
    workout_id: u64,
    exercise_id: u64,
    order: int,
    set: NewWorkoutSet,
    id: u64,
)
    requires
        fits_key(workout_id),
        fits_key(exercise_id),
        0 <= order <= i64::MAX,
    ensures
        ({
            let row = stored_set(set_insert(workout_id, exercise_id, order, set), id);
            &&& set_of_row(row).payload() == set
            &&& set_of_row(row).id() == id
            &&& row.workout_id == workout_id
            &&& row.exercise_id == exercise_id
            &&& row.set_order == order
        }),
{
    lemma_key_holds_id(workout_id);
    lemma_key_holds_id(exercise_id);
}

/// A mood that is stored and then read back is the mood that went in.
pub proof fn lemma_mood_reads_back(mood: Option<u8>)
    ensures
        mood_of_column(mood_column(mood)) == mood,
{
    if let Some(m) = mood {
        assert((m as i64) as u8 == m) by (bit_vector);
    }
}

/// The sets of a sequence of exercises, one exercise after the other.
pub open spec fn flat_sets(exercises: Seq<NewWorkoutExerciseView>) -> Seq<NewWorkoutSet>
    decreases exercises.len(),
{
    if exercises.len() == 0 {
        Seq::empty()
    } else {
        flat_sets(exercises.drop_last()) + exercises.last().sets
    }
}

/// The insert carries the columns that stand for the set.
pub open spec fn insert_stores(insert: SqliteWorkoutSetInsert, set: NewWorkoutSet) -> bool {
    (insert.reps, insert.weight, insert.duration_seconds, insert.failure) == set_columns(set)
}

/// No exercise has more than a thousand sets, so that no two sets of the
/// workout share an order key, and every order key fits its column.
pub open spec fn keys_distinct(exercises: Seq<NewWorkoutExerciseView>) -> bool {
    &&& keys_fit(exercises)
    &&& forall|i: int| 0 <= i < exercises.len() ==> (#[trigger] exercises[i]).sets.len() <= 1000
}

/// The store can hold the identifier of every exercise among `exercises`.
pub open spec fn exercises_fit(exercises: Seq<NewWorkoutExerciseView>) -> bool {
    forall|i: int| 0 <= i < exercises.len() ==> fits_key((#[trigger] exercises[i]).exercise_id)
}

/// The inserts of a workout in which no exercise has more than a thousand
/// sets: there is one for each set, in the order of the sets; each
/// carries the columns of its set and names the workout; and the order
/// keys rise from insert to insert.
pub proof fn lemma_set_inserts_in_order(workout_id: u64, exercises: Seq<NewWorkoutExerciseView>)
    requires
        keys_distinct(exercises),
    ensures
        ({
            let rows = set_inserts(workout_id, exercises);
            let sets = flat_sets(exercises);
            &&& rows.len() == sets.len()
            &&& forall|k: int|
                0 <= k < rows.len() ==> 1 <= (#[trigger] rows[k]).set_order <= exercises.len()
                    * 1000
            &&& forall|a: int, b: int|
                0 <= a < b < rows.len() ==> (#[trigger] rows[a]).set_order < (
                #[trigger] rows[b]).set_order
            &&& forall|k: int|
                0 <= k < rows.len() ==> insert_stores(#[trigger] rows[k], sets[k])
                    && rows[k].workout_id == key_of(workout_id)
        }),
    decreases exercises.len(),
{
    if exercises.len() > 0 {
        let earlier = exercises.drop_last();
        let last = exercises.last();
        let n = exercises.len() - 1;
        assert(last == exercises[n]);
        assert forall|i: int| 0 <= i < earlier.len() implies (#[trigger] earlier[i]).sets.len()
            <= 1000 by {
            assert(earlier[i] == exercises[i]);
        }
        lemma_set_inserts_in_order(workout_id, earlier);
        let head = set_inserts(workout_id, earlier);
        let block = block_inserts(workout_id, n, last);
        let rows = set_inserts(workout_id, exercises);
        let sets = flat_sets(exercises);
        assert(rows == head + block);
        assert forall|k: int| 0 <= k < rows.len() implies 1 <= (#[trigger] rows[k]).set_order
            <= exercises.len() * 1000 && insert_stores(rows[k], sets[k]) && rows[k].workout_id
            == key_of(workout_id) by {
            if k < head.len() {
                assert(rows[k] == head[k]);
            } else {
                assert(rows[k] == block[k - head.len()]);
            }
        }
        assert forall|a: int, b: int| 0 <= a < b < rows.len() implies (
        #[trigger] rows[a]).set_order < (#[trigger] rows[b]).set_order by {
            if b < head.len() {
                assert(rows[a] == head[a] && rows[b] == head[b]);
            } else if a < head.len() {
                assert(rows[a] == head[a]);
                assert(rows[b] == block[b - head.len()]);
            } else {
                assert(rows[a] == block[a - head.len()]);
                assert(rows[b] == block[b - head.len()]);
            }
        }
    }
}

/// The columns of a set, stored and read back under the key `id`, stand
/// for that set under that key.
pub proof fn lemma_columns_read_back(insert: SqliteWorkoutSetInsert, set: NewWorkoutSet, id: u64)
    requires
        insert_stores(insert, set),
    ensures
        set_of_row(stored_set(insert, id)).payload() == set,
        set_of_row(stored_set(insert, id)).id() == id,
{
}

/// The sets that are stored for a workout come back as they went in. In
/// a workout in which no exercise has more than a thousand sets, the
/// order keys of the stored rows rise in the order of the sets; so the
/// rows of the workout, returned in the order of their keys, are the rows
/// in the order in which they were planned, and they stand for exactly
/// the sets that were stored, in their order, each under the key that
/// the store gave it.
pub proof fn lemma_stored_sets_read_back(
    workout_id: u64,
    exercises: Seq<NewWorkoutExerciseView>,
    ids: Seq<u64>,
    fetched: Seq<SqliteWorkoutSet>,
)
    requires
        fits_key(workout_id),
        exercises_fit(exercises),
        keys_distinct(exercises),
        ids.len() == set_inserts(workout_id, exercises).len(),
        fetched.to_multiset() == stored_sets(set_inserts(workout_id, exercises), ids).to_multiset(),
        forall|i: int, j: int|
            0 <= i < j < fetched.len() ==> (#[trigger] fetched[i]).set_order <= (
            #[trigger] fetched[j]).set_order,
    ensures
        fetched == stored_sets(set_inserts(workout_id, exercises), ids),
        payloads(sets_of_rows(fetched)) == flat_sets(exercises),
        forall|k: int|
            0 <= k < fetched.len() ==> set_of_row(#[trigger] fetched[k]).id() == ids[k]
                && fetched[k].workout_id == workout_id,
{
    let inserts = set_inserts(workout_id, exercises);
    let stored = stored_sets(inserts, ids);
    let sets = flat_sets(exercises);
    let rank = |row: SqliteWorkoutSet| row.set_order as int;
    lemma_set_inserts_in_order(workout_id, exercises);
    lemma_key_holds_id(workout_id);
    assert forall|a: int, b: int| 0 <= a < b < stored.len() implies rank(stored[a]) < rank(
        stored[b],
    ) by {
        assert(inserts[a].set_order < inserts[b].set_order);
        assert(stored[a].set_order == inserts[a].set_order);
        assert(stored[b].set_order == inserts[b].set_order);
    }
    assert(strictly_ascending_by(stored, rank));
    assert(ascending_by(fetched, rank));
    lemma_ordered_rows_unique(stored, fetched, rank);
    assert forall|k: int| 0 <= k < stored.len() implies set_of_row(#[trigger] stored[k]).payload()
        == sets[k] && set_of_row(stored[k]).id() == ids[k] && stored[k].workout_id
        == workout_id by {
        assert(insert_stores(inserts[k], sets[k]));
        lemma_columns_read_back(inserts[k], sets[k], ids[k]);
    }
    assert(payloads(sets_of_rows(stored)) =~= sets);
}

/// The sets of the exercise `exercise_id` in a workout: those of each
/// entry of that exercise, one entry after the other.
pub open spec fn sets_of_exercise(exercises: Seq<NewWorkoutExerciseView>, exercise_id: u64) -> Seq<
    NewWorkoutSet,
>
    decreases exercises.len(),
{
    if exercises.len() == 0 {
        Seq::empty()
    } else if exercises.last().exercise_id == exercise_id {
        sets_of_exercise(exercises.drop_last(), exercise_id) + exercises.last().sets
    } else {
        sets_of_exercise(exercises.drop_last(), exercise_id)
    }
}

/// The rows of an exercise among rows that follow one another are its
/// rows among the first, then its rows among the second.
proof fn lemma_rows_of_exercise_split(
    head: Seq<SqliteWorkoutSet>,
    tail: Seq<SqliteWorkoutSet>,
    exercise_id: u64,
)
    ensures
        rows_of_exercise(head + tail, exercise_id) == rows_of_exercise(head, exercise_id)
            + rows_of_exercise(tail, exercise_id),
    decreases tail.len(),
{
    if tail.len() == 0 {
        assert(head + tail =~= head);
        assert(rows_of_exercise(head, exercise_id) + rows_of_exercise(tail, exercise_id)
            =~= rows_of_exercise(head, exercise_id));
    } else {
        lemma_rows_of_exercise_split(head, tail.drop_last(), exercise_id);
        assert((head + tail).drop_last() =~= head + tail.drop_last());
        assert((head + tail).last() == tail.last());
        assert(rows_of_exercise(head + tail, exercise_id) =~= rows_of_exercise(head, exercise_id)
            + rows_of_exercise(tail, exercise_id));
    }
}

/// Among rows that are all of one exercise, the rows of that exercise are
/// all of them, and any other exercise has none.
proof fn lemma_rows_of_one_exercise(block: Seq<SqliteWorkoutSet>, of: u64, exercise_id: u64)
    requires
        forall|j: int| 0 <= j < block.len() ==> (#[trigger] block[j]).exercise_id == of,
    ensures
        rows_of_exercise(block, exercise_id) == if exercise_id == of {
            block
        } else {
            Seq::empty()
        },
    decreases block.len(),
{
    if block.len() == 0 {
        assert(rows_of_exercise(block, exercise_id) =~= block);
    } else {
        let earlier = block.drop_last();
        assert(block.last() == block[block.len() - 1]);
        assert forall|j: int| 0 <= j < earlier.len() implies (#[trigger] earlier[j]).exercise_id
            == of by {
            assert(earlier[j] == block[j]);
        }
        lemma_rows_of_one_exercise(earlier, of, exercise_id);
        if exercise_id == of {
            assert(rows_of_exercise(block, exercise_id) =~= block);
        }
    }
}

/// The stored rows of one exercise of a workout stand for the sets of
/// that exercise, entry after entry, whether the workout lists the
/// exercise once, several times or not at all.
pub proof fn lemma_stored_rows_of_exercise(
    workout_id: u64,
    exercises: Seq<NewWorkoutExerciseView>,
    ids: Seq<u64>,
    exercise_id: u64,
)
    requires
        fits_key(workout_id),
        exercises_fit(exercises),
        keys_fit(exercises),
    ensures
        payloads(
            sets_of_rows(
                rows_of_exercise(
                    stored_sets(set_inserts(workout_id, exercises), ids),
                    exercise_id,
                ),
            ),
        ) == sets_of_exercise(exercises, exercise_id),
    decreases exercises.len(),
{
    let inserts = set_inserts(workout_id, exercises);
    let stored = stored_sets(inserts, ids);
    if exercises.len() == 0 {
        assert(stored =~= Seq::empty());
        assert(payloads(sets_of_rows(rows_of_exercise(stored, exercise_id))) =~= sets_of_exercise(
            exercises,
            exercise_id,
        ));
    } else {
        let earlier = exercises.drop_last();
        let last = exercises.last();
        let n = exercises.len() - 1;
        assert(last == exercises[n]);
        assert forall|i: int| 0 <= i < earlier.len() implies fits_key(
            (#[trigger] earlier[i]).exercise_id,
        ) && (earlier[i].sets.len() > 0 ==> set_key(i, earlier[i].sets.len() - 1) <= i64::MAX) by {
            assert(earlier[i] == exercises[i]);
        }
        lemma_stored_rows_of_exercise(workout_id, earlier, ids, exercise_id);
        let head_inserts = set_inserts(workout_id, earlier);
        let head = stored_sets(head_inserts, ids);
        let block_rows = block_inserts(workout_id, n, last);
        let block = Seq::new(
            block_rows.len(),
            |j: int| stored_set(block_rows[j], ids[head_inserts.len() + j]),
        );
        assert(inserts == head_inserts + block_rows);
        assert(stored =~= head + block);
        assert forall|j: int| 0 <= j < block.len() implies (#[trigger] block[j]).exercise_id
            == last.exercise_id && set_of_row(block[j]).payload() == last.sets[j] by {
            lemma_set_reads_back(
                workout_id,
                last.exercise_id,
                set_key(n, j),
                last.sets[j],
                ids[head_inserts.len() + j],
            );
        }
        lemma_rows_of_exercise_split(head, block, exercise_id);
        lemma_rows_of_one_exercise(block, last.exercise_id, exercise_id);
        let of_head = rows_of_exercise(head, exercise_id);
        let of_block = rows_of_exercise(block, exercise_id);
        assert(payloads(sets_of_rows(of_head + of_block)) =~= payloads(sets_of_rows(of_head))
            + payloads(sets_of_rows(of_block)));
        if exercise_id == last.exercise_id {
            assert(payloads(sets_of_rows(block)) =~= last.sets);
        } else {
            assert(payloads(sets_of_rows(of_block)) =~= Seq::<NewWorkoutSet>::empty());
            assert(payloads(sets_of_rows(of_head)) + Seq::<NewWorkoutSet>::empty() =~= payloads(
                sets_of_rows(of_head),
            ));
        }
    }
}

/// The stored rows of a workout group back into its exercises: there is
/// one group for each exercise that has a set, none for any other, no two
/// groups of the same exercise, and the rows of each group stand for
/// exactly the sets of its exercise, in the order in which the workout
/// lists them.
pub proof fn lemma_stored_exercises_read_back(
    workout_id: u64,
    exercises: Seq<NewWorkoutExerciseView>,
    ids: Seq<u64>,
)
    requires
        fits_key(workout_id),
        exercises_fit(exercises),
        keys_fit(exercises),
    ensures
        ({
            let groups = group_by_exercise(
                stored_sets(set_inserts(workout_id, exercises), ids),
            );
            &&& forall|i: int, j: int|
                0 <= i < j < groups.len() ==> (#[trigger] groups[i]).exercise_id != (
                #[trigger] groups[j]).exercise_id
            &&& forall|i: int|
                0 <= i < groups.len() ==> payloads(sets_of_rows((#[trigger] groups[i]).rows))
                    == sets_of_exercise(exercises, groups[i].exercise_id) && sets_of_exercise(
                    exercises,
                    groups[i].exercise_id,
                ).len() > 0
            &&& forall|exercise_id: u64|
                (#[trigger] sets_of_exercise(exercises, exercise_id)).len() > 0
                    ==> index_of_exercise(groups, exercise_id) < groups.len()
        }),
{
    let stored = stored_sets(set_inserts(workout_id, exercises), ids);
    let groups = group_by_exercise(stored);
    lemma_groups_partition_rows(stored);
    assert forall|i: int| 0 <= i < groups.len() implies payloads(
        sets_of_rows((#[trigger] groups[i]).rows),
    ) == sets_of_exercise(exercises, groups[i].exercise_id) && sets_of_exercise(
        exercises,
        groups[i].exercise_id,
    ).len() > 0 by {
        lemma_stored_rows_of_exercise(workout_id, exercises, ids, groups[i].exercise_id);
        assert(payloads(sets_of_rows(groups[i].rows)).len() == groups[i].rows.len());
    }
    assert forall|exercise_id: u64|
        (#[trigger] sets_of_exercise(exercises, exercise_id)).len() > 0 implies index_of_exercise(
        groups,
        exercise_id,
    ) < groups.len() by {
        lemma_index_of_exercise(groups, exercise_id, 0);
        if index_of_exercise(groups, exercise_id) == groups.len() {
            lemma_no_row_without_group(stored, exercise_id);
            lemma_stored_rows_of_exercise(workout_id, exercises, ids, exercise_id);
            let of = rows_of_exercise(stored, exercise_id);
            assert(payloads(sets_of_rows(of)).len() == of.len());
        }
    }
}

/// A workout that is stored and then fetched comes back with exactly the
/// sets that went in, exercise by exercise. This holds of a workout in
/// which no entry has more than a thousand sets, whether it lists an
/// exercise once or several times, with sets or without. Where the
/// header row holds what was written under the key of the workout, the
/// rows of the sets come back in the order of their keys, and the
/// exercises `resolved` come back for the lookups, the assembly asks for
/// each exercise that has a set once, and ends with the date and the mood
/// that went in and, for each of these exercises, with exactly its sets
/// in the order in which the workout lists them, up to the keys that the
/// store gave them. No other set comes back: the sets of the fetched
/// workout, one after the other in the order of their rows, are the sets
/// that went in.
pub proof fn lemma_created_workout_reads_back(
    workout_id: u64,
    date: chrono::NaiveDate,
    mood: Option<u8>,
    exercises: Seq<NewWorkoutExerciseView>,
    resolved: Seq<ExerciseView>,
    ids: Seq<u64>,
    fetched: Seq<SqliteWorkoutSet>,
)
    requires
        fits_key(workout_id),
        exercises_fit(exercises),
        keys_distinct(exercises),
        ids.len() == set_inserts(workout_id, exercises).len(),
        fetched.to_multiset() == stored_sets(set_inserts(workout_id, exercises), ids).to_multiset(),
        forall|i: int, j: int|
            0 <= i < j < fetched.len() ==> (#[trigger] fetched[i]).set_order <= (
            #[trigger] fetched[j]).set_order,
        resolved.len() == group_by_exercise(fetched).len(),
    ensures
        ({
            let header = SqliteWorkout { id: workout_id, date, mood: mood_column(mood) };
            let start = WorkoutAssemblyView::begin(header, fetched);
            let end = start.resolve_all(resolved);
            let read = end.workout();
            &&& payloads(sets_of_rows(fetched)) == flat_sets(exercises)
            &&& forall|i: int, j: int|
                0 <= i < j < start.groups.len() ==> (#[trigger] start.groups[i]).exercise_id != (
                #[trigger] start.groups[j]).exercise_id
            &&& forall|exercise_id: u64|
                (#[trigger] sets_of_exercise(exercises, exercise_id)).len() > 0
                    ==> index_of_exercise(start.groups, exercise_id) < start.groups.len()
            &&& end.pending() is None
            &&& read.id == workout_id
            &&& read.date == date
            &&& read.mood == mood
            &&& read.exercises.len() == start.groups.len()
            &&& forall|k: int|
                0 <= k < read.exercises.len() ==> (#[trigger] read.exercises[k]).exercise
                    == resolved[k] && payloads(read.exercises[k].sets) == sets_of_exercise(
                    exercises,
                    start.groups[k].exercise_id,
                ) && read.exercises[k].sets.len() > 0
        }),
{
    let header = SqliteWorkout { id: workout_id, date, mood: mood_column(mood) };
    lemma_stored_sets_read_back(workout_id, exercises, ids, fetched);
    lemma_stored_exercises_read_back(workout_id, exercises, ids);
    lemma_assembly_completes(header, fetched, resolved);
    lemma_mood_reads_back(mood);
    let groups = group_by_exercise(fetched);
    let read = WorkoutAssemblyView::begin(header, fetched).resolve_all(resolved).workout();
    assert forall|k: int| 0 <= k < read.exercises.len() implies (
    #[trigger] read.exercises[k]).exercise == resolved[k] && payloads(read.exercises[k].sets)
        == sets_of_exercise(exercises, groups[k].exercise_id) && read.exercises[k].sets.len()
        > 0 by {
        assert(read.exercises[k].sets == sets_of_rows(groups[k].rows));
        assert(payloads(read.exercises[k].sets).len() == read.exercises[k].sets.len());
    }
}

/// A workout that is updated and then fetched comes back with exactly the
/// sets of the update, exercise by exercise, and with nothing of the sets
/// that the store held before: the update removes every set row of the
/// workout before it stores the new ones, and these come back as
/// [`lemma_created_workout_reads_back`] says of a workout that is stored.
pub proof fn lemma_updated_workout_reads_back(
    workout: WorkoutView,
    resolved: Seq<ExerciseView>,
    ids: Seq<u64>,
    fetched: Seq<SqliteWorkoutSet>,
)
    requires
        fits_key(workout.id),
        exercises_fit(replacements(workout.exercises)),
        keys_distinct(replacements(workout.exercises)),
        ids.len() == set_inserts(workout.id, replacements(workout.exercises)).len(),
        fetched.to_multiset() == stored_sets(
            set_inserts(workout.id, replacements(workout.exercises)),
            ids,
        ).to_multiset(),
        forall|i: int, j: int|
            0 <= i < j < fetched.len() ==> (#[trigger] fetched[i]).set_order <= (
            #[trigger] fetched[j]).set_order,
        resolved.len() == group_by_exercise(fetched).len(),
    ensures
        update_statements(workout)[1] == (WorkoutStatement::DeleteSets {
            workout_id: key_of(workout.id),
        }),
        ({
            let exercises = replacements(workout.exercises);
            let header = SqliteWorkout {
                id: workout.id,
                date: workout.date,
                mood: mood_column(workout.mood),
            };
            let start = WorkoutAssemblyView::begin(header, fetched);
            let end = start.resolve_all(resolved);
            let read = end.workout();
            &&& payloads(sets_of_rows(fetched)) == flat_sets(exercises)
            &&& forall|i: int, j: int|
                0 <= i < j < start.groups.len() ==> (#[trigger] start.groups[i]).exercise_id != (
                #[trigger] start.groups[j]).exercise_id
            &&& forall|exercise_id: u64|
                (#[trigger] sets_of_exercise(exercises, exercise_id)).len() > 0
                    ==> index_of_exercise(start.groups, exercise_id) < start.groups.len()
            &&& end.pending() is None
            &&& read.id == workout.id
            &&& read.date == workout.date
            &&& read.mood == workout.mood
            &&& read.exercises.len() == start.groups.len()
            &&& forall|k: int|
                0 <= k < read.exercises.len() ==> (#[trigger] read.exercises[k]).exercise
                    == resolved[k] && payloads(read.exercises[k].sets) == sets_of_exercise(
                    exercises,
                    start.groups[k].exercise_id,
                ) && read.exercises[k].sets.len() > 0
        }),
{
    lemma_created_workout_reads_back(
        workout.id,
        workout.date,
        workout.mood,
        replacements(workout.exercises),
        resolved,
        ids,
        fetched,
    );
}

/// In the update of a workout only the first statement, the update of the
/// header, can report that the workout is missing: no statement after it
/// looks whether the workout exists.
pub proof fn lemma_update_looks_for_the_header_only(workout: WorkoutView)
    ensures
        ({
            let statements = update_statements(workout);
            &&& statements.len() >= 2
            &&& statements[0].must_change()
            &&& forall|k: int|
                1 <= k < statements.len() ==> !(#[trigger] statements[k]).must_change()
        }),
{
}

/// The rows of the exercise `exercise_id` among `rows`, in the order of
/// the rows.
pub open spec fn rows_of_exercise(rows: Seq<SqliteWorkoutSet>, exercise_id: u64) -> Seq<
    SqliteWorkoutSet,
> {
    members_of(rows, set_shape(), exercise_id)
}

/// An exercise that no group of [`group_by_exercise`] is of has no row.
pub proof fn lemma_no_row_without_group(rows: Seq<SqliteWorkoutSet>, exercise_id: u64)
    requires
        index_of_exercise(group_by_exercise(rows), exercise_id) == group_by_exercise(rows).len(),
    ensures
        rows_of_exercise(rows, exercise_id).len() == 0,
{
    lemma_no_member_without_group(rows, set_shape(), exercise_id);
}

/// What [`group_by_exercise`] returns: no two groups are of the same
/// exercise; each holds exactly the rows of its exercise, in the order of
/// the rows, and at least one; and the exercise of every row has its
/// group.
pub proof fn lemma_groups_partition_rows(rows: Seq<SqliteWorkoutSet>)
    ensures
        ({
            let groups = group_by_exercise(rows);
            &&& forall|i: int, j: int|
                0 <= i < j < groups.len() ==> (#[trigger] groups[i]).exercise_id != (
                #[trigger] groups[j]).exercise_id
            &&& forall|i: int|
                0 <= i < groups.len() ==> (#[trigger] groups[i]).rows == rows_of_exercise(
                    rows,
                    groups[i].exercise_id,
                ) && groups[i].rows.len() > 0
            &&& forall|r: int|
                0 <= r < rows.len() ==> index_of_exercise(
                    groups,
                    (#[trigger] rows[r]).exercise_id,
                ) < groups.len()
        }),
{
    lemma_groups_partition(rows, set_shape());
}

/// The deletion of a workout, or the update of its header, that changes
/// no row ends with not-found: so does the deletion of what is not there.
pub proof fn lemma_nothing_changed_is_not_found(
    batch: Batch<WorkoutStatement>,
    outcome: StatementOutcome,
)
    requires
        batch.sent == 0,
        batch.statements@.len() >= 1,
        batch.statements@[0] is DeleteWorkout || batch.statements@[0] is UpdateWorkout,
        outcome.rows_affected == 0,
    ensures
        batch.after(Ok(outcome)) == Err::<Batch<WorkoutStatement>, ModelErrorView>(
            ModelErrorView::NotFound,
        ),
{
}

} // verus!
