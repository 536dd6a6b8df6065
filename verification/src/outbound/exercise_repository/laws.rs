//! What holds of the rows of exercises once the store has taken them in.

use crate::domain::types::exercise::{
    ExerciseProgression, ExerciseProgressionView, ExerciseView,
};
use crate::domain::traits::model_error::ModelErrorView;
use crate::outbound::exercise_repository::{
    columns_agree, exercise_of_row, exercises_of_rows, goal_update_of_exercise,
    group_by_progression, index_of_name, insert_of_exercise, inserts_of_progression, order_key,
    progression_shape, update_of_exercise, ExerciseStatement, SqliteExerciseGoalUpdateView,
    SqliteExerciseInsertView, SqliteExerciseUpdateView, SqliteExerciseView,
};
use crate::outbound::grouping::{lemma_groups_partition, members_of};
use crate::outbound::store::{
    ascending_by, lemma_ordered_rows_unique, strictly_ascending_by, Batch, Statement,
    StatementOutcome,
};
use vstd::prelude::*;

verus! {

/// The row that the store holds once it has taken in `insert` and given it
/// the key `id`.
pub open spec fn stored_insert(insert: SqliteExerciseInsertView, id: u64) -> SqliteExerciseView {
    SqliteExerciseView {
        id,
        name: insert.name,
        exercise_type: insert.exercise_type,
        progression_name: insert.progression_name,
        progression_order: insert.progression_order,
        goal_reps: insert.goal_reps,
        goal_weight: insert.goal_weight,
        goal_duration_seconds: insert.goal_duration_seconds,
    }
}

/// The row that the store holds under the key of `update` once the update
/// has replaced its columns.
pub open spec fn stored_update(update: SqliteExerciseUpdateView) -> SqliteExerciseView {
    SqliteExerciseView {
        id: update.id,
        name: update.name,
        exercise_type: update.exercise_type,
        progression_name: update.progression_name,
        progression_order: update.progression_order,
        goal_reps: update.goal_reps,
        goal_weight: update.goal_weight,
        goal_duration_seconds: update.goal_duration_seconds,
    }
}

/// The row `row` once `update` has replaced its name and its goal; its
/// key and its place in a progression stay.
pub open spec fn stored_goal_update(
    row: SqliteExerciseView,
    update: SqliteExerciseGoalUpdateView,
) -> SqliteExerciseView {
    SqliteExerciseView {
        id: row.id,
        name: update.name,
        exercise_type: update.exercise_type,
        progression_name: row.progression_name,
        progression_order: row.progression_order,
        goal_reps: update.goal_reps,
        goal_weight: update.goal_weight,
        goal_duration_seconds: update.goal_duration_seconds,
    }
}

/// The exercise `exercise` under the identifier `id`.
pub open spec fn renumbered(exercise: ExerciseView, id: u64) -> ExerciseView {
    ExerciseView { id, name: exercise.name, exercise_type: exercise.exercise_type }
}

/// An exercise that is inserted and then read back is the exercise that
/// went in, under the key that the store gave it: the same name, the same
/// kind, the same goal. In the stored row the goal column of that kind is
/// set and the other two are null.
pub proof fn lemma_inserted_exercise_reads_back(
    exercise: ExerciseView,
    progression_name: Option<Seq<char>>,
    progression_order: Option<u64>,
    id: u64,
)
    ensures
        ({
            let row = stored_insert(
                insert_of_exercise(exercise, progression_name, progression_order),
                id,
            );
            &&& exercise_of_row(row) == renumbered(exercise, id)
            &&& columns_agree(
                row.exercise_type,
                row.goal_reps,
                row.goal_weight,
                row.goal_duration_seconds,
            )
            &&& row.progression_name == progression_name
            &&& row.progression_order == progression_order
        }),
{
}

/// An exercise whose row is updated and then read back is the exercise
/// that the update was made from, whether the update replaces the whole
/// row or only the name and the goal.
pub proof fn lemma_updated_exercise_reads_back(
    exercise: ExerciseView,
    progression_name: Option<Seq<char>>,
    progression_order: Option<u64>,
    row: SqliteExerciseView,
)
    requires
        row.id == exercise.id,
    ensures
        exercise_of_row(
            stored_update(update_of_exercise(exercise, progression_name, progression_order)),
        ) == exercise,
        exercise_of_row(stored_goal_update(row, goal_update_of_exercise(exercise))) == exercise,
        stored_goal_update(row, goal_update_of_exercise(exercise)).progression_name
            == row.progression_name,
        stored_goal_update(row, goal_update_of_exercise(exercise)).progression_order
            == row.progression_order,
{
}

/// The exercises of the rows named `name`, in the order of the rows.
pub open spec fn members_named(rows: Seq<SqliteExerciseView>, name: Seq<char>) -> Seq<
    ExerciseView,
> {
    members_of(rows, progression_shape(), name)
}

/// What [`group_by_progression`] returns: no two progressions share a
/// name; each holds exactly the exercises of the rows of its name, in the
/// order of the rows, and at least one; and every name that a row carries
/// has its progression.
pub proof fn lemma_groups_partition_rows(rows: Seq<SqliteExerciseView>)
    ensures
        ({
            let groups = group_by_progression(rows);
            &&& forall|i: int, j: int|
                0 <= i < j < groups.len() ==> (#[trigger] groups[i]).name != (
                #[trigger] groups[j]).name
            &&& forall|i: int|
                0 <= i < groups.len() ==> (#[trigger] groups[i]).progression == members_named(
                    rows,
                    groups[i].name,
                ) && groups[i].progression.len() > 0
            &&& forall|r: int|
                0 <= r < rows.len() && (#[trigger] rows[r]).progression_name is Some
                    ==> index_of_name(groups, rows[r].progression_name->Some_0) < groups.len()
        }),
{
    lemma_groups_partition(rows, progression_shape());
}

/// Rows that all carry the name `name` stand for one progression of that
/// name, with the exercises of all the rows in their order.
pub proof fn lemma_one_name_one_group(rows: Seq<SqliteExerciseView>, name: Seq<char>)
    requires
        rows.len() > 0,
        forall|r: int| 0 <= r < rows.len() ==> (#[trigger] rows[r]).progression_name == Some(name),
    ensures
        group_by_progression(rows) == seq![
            ExerciseProgressionView { name, progression: exercises_of_rows(rows) },
        ],
    decreases rows.len(),
{
    let earlier = rows.drop_last();
    let row = rows.last();
    assert(row == rows[rows.len() - 1]);
    if earlier.len() == 0 {
        assert(group_by_progression(earlier) =~= Seq::empty());
        assert(exercises_of_rows(rows) =~= seq![exercise_of_row(row)]);
        assert(group_by_progression(rows) =~= seq![
            ExerciseProgressionView { name, progression: exercises_of_rows(rows) },
        ]);
    } else {
        assert forall|r: int| 0 <= r < earlier.len() implies (
        #[trigger] earlier[r]).progression_name == Some(name) by {
            assert(earlier[r] == rows[r]);
        }
        lemma_one_name_one_group(earlier, name);
        let before = group_by_progression(earlier);
        assert(index_of_name(before, name) == 0);
        assert(exercises_of_rows(rows) =~= exercises_of_rows(earlier).push(exercise_of_row(row)));
        assert(group_by_progression(rows) =~= seq![
            ExerciseProgressionView { name, progression: exercises_of_rows(rows) },
        ]);
    }
}

/// Where a row stands among rows ordered by their order key; rows without
/// a key come first.
pub open spec fn order_rank(row: SqliteExerciseView) -> int {
    match row.progression_order {
        Some(key) => key as int,
        None => -1,
    }
}

/// The rows that the store holds once it has taken in the inserts of
/// `progression` and given them the keys `ids`, in that order.
pub open spec fn stored_progression(progression: ExerciseProgressionView, ids: Seq<u64>) -> Seq<
    SqliteExerciseView,
> {
    Seq::new(
        progression.progression.len(),
        |i: int| stored_insert(inserts_of_progression(progression)[i], ids[i]),
    )
}

/// The exercises `members`, each under the identifier at its place in
/// `ids`.
pub open spec fn renumbered_members(members: Seq<ExerciseView>, ids: Seq<u64>) -> Seq<
    ExerciseView,
> {
    Seq::new(members.len(), |i: int| renumbered(members[i], ids[i]))
}

/// A progression that is inserted and then fetched comes back with its
/// members in the order in which they went in, however many they are: the
/// stored order keys are 1, 2, 3 and so on, member by member, so the rows
/// of the progression, returned in the order of their keys, are the rows
/// in insertion order, and they stand for one progression with the same
/// members under the keys that the store gave them.
pub proof fn lemma_progression_reads_back_in_order(
    progression: ExerciseProgression,
    ids: Seq<u64>,
    fetched: Seq<SqliteExerciseView>,
)
    requires
        ids.len() == progression@.progression.len(),
        fetched.to_multiset() == stored_progression(progression@, ids).to_multiset(),
        forall|i: int, j: int|
            0 <= i < j < fetched.len() ==> order_rank(#[trigger] fetched[i]) <= order_rank(
                #[trigger] fetched[j],
            ),
    ensures
        fetched == stored_progression(progression@, ids),
        forall|i: int|
            0 <= i < fetched.len() ==> order_rank(#[trigger] fetched[i]) == i + 1,
        exercises_of_rows(fetched) == renumbered_members(progression@.progression, ids),
        progression@.progression.len() > 0 ==> group_by_progression(fetched) == seq![
            ExerciseProgressionView {
                name: progression@.name,
                progression: renumbered_members(progression@.progression, ids),
            },
        ],
{
    let view = progression@;
    let stored = stored_progression(view, ids);
    let rank = |row: SqliteExerciseView| order_rank(row);
    assert(progression.progression.len() == progression.progression@.len());
    assert(view.progression.len() == progression.progression@.len());
    assert forall|i: int| 0 <= i < stored.len() implies order_rank(#[trigger] stored[i]) == i
        + 1 by {
        assert(order_key(i) == i + 1);
    }
    assert(strictly_ascending_by(stored, rank)) by {
        assert forall|i: int, j: int| 0 <= i < j < stored.len() implies rank(stored[i]) < rank(
            stored[j],
        ) by {
            assert(order_rank(stored[i]) == i + 1);
            assert(order_rank(stored[j]) == j + 1);
        }
    }
    assert(ascending_by(fetched, rank));
    lemma_ordered_rows_unique(stored, fetched, rank);
    assert(exercises_of_rows(stored) =~= renumbered_members(view.progression, ids));
    if view.progression.len() > 0 {
        lemma_one_name_one_group(stored, view.name);
    }
}

/// The rows named `name`, in the order of the rows.
pub open spec fn rows_named(rows: Seq<SqliteExerciseView>, name: Seq<char>) -> Seq<
    SqliteExerciseView,
>
    decreases rows.len(),
{
    if rows.len() == 0 {
        Seq::empty()
    } else if rows.last().progression_name == Some(name) {
        rows_named(rows.drop_last(), name).push(rows.last())
    } else {
        rows_named(rows.drop_last(), name)
    }
}

/// Among rows of the same progression, the order keys never fall from
/// one row to a later one. Rows that the store returns ordered by
/// progression name and then by order key are so.
pub open spec fn ordered_within_progressions(rows: Seq<SqliteExerciseView>) -> bool {
    forall|i: int, j: int|
        0 <= i < j < rows.len() && (#[trigger] rows[i]).progression_name == (
        #[trigger] rows[j]).progression_name ==> order_rank(rows[i]) <= order_rank(rows[j])
}

/// The rows of one name are rows of the listing, carry that name, stand
/// for the members of that name, and keep the order of the listing.
pub proof fn lemma_rows_named(rows: Seq<SqliteExerciseView>, name: Seq<char>)
    requires
        ordered_within_progressions(rows),
    ensures
        members_named(rows, name) == exercises_of_rows(rows_named(rows, name)),
        forall|a: int|
            0 <= a < rows_named(rows, name).len() ==> rows.contains(
                #[trigger] rows_named(rows, name)[a],
            ) && rows_named(rows, name)[a].progression_name == Some(name),
        forall|a: int, b: int|
            0 <= a < b < rows_named(rows, name).len() ==> order_rank(
                #[trigger] rows_named(rows, name)[a],
            ) <= order_rank(#[trigger] rows_named(rows, name)[b]),
    decreases rows.len(),
{
    let named = rows_named(rows, name);
    if rows.len() == 0 {
        assert(members_named(rows, name) =~= exercises_of_rows(named));
    } else {
        let earlier = rows.drop_last();
        let last = rows.last();
        let before = rows_named(earlier, name);
        assert forall|i: int, j: int|
            0 <= i < j < earlier.len() && (#[trigger] earlier[i]).progression_name == (
            #[trigger] earlier[j]).progression_name implies order_rank(earlier[i]) <= order_rank(
            earlier[j],
        ) by {
            assert(earlier[i] == rows[i] && earlier[j] == rows[j]);
        }
        lemma_rows_named(earlier, name);
        assert(members_named(rows, name) =~= exercises_of_rows(named));
        assert forall|a: int| 0 <= a < before.len() implies rows.contains(#[trigger] before[a]) by {
            let i = choose|i: int| 0 <= i < earlier.len() && earlier[i] == before[a];
            assert(rows[i] == before[a]);
        }
        assert(rows[rows.len() - 1] == last);
        assert forall|a: int| 0 <= a < named.len() implies rows.contains(#[trigger] named[a])
            && named[a].progression_name == Some(name) by {
            if a < before.len() {
                assert(named[a] == before[a]);
            }
        }
        assert forall|a: int, b: int| 0 <= a < b < named.len() implies order_rank(
            #[trigger] named[a],
        ) <= order_rank(#[trigger] named[b]) by {
            if b < before.len() {
                assert(named[a] == before[a] && named[b] == before[b]);
            } else {
                assert(named[a] == before[a]);
                let i = choose|i: int| 0 <= i < earlier.len() && earlier[i] == before[a];
                assert(rows[i] == named[a]);
                assert(rows[rows.len() - 1] == named[b]);
            }
        }
    }
}

/// In the listing of all progressions, the members of every progression
/// rise by their stored order key: where the store returns the rows
/// ordered by progression name and then by order key, each listed
/// progression holds the exercises of exactly the rows of its name, and
/// the order keys of those rows never fall from one member to the next.
pub proof fn lemma_listed_progressions_rise_by_key(rows: Seq<SqliteExerciseView>)
    requires
        ordered_within_progressions(rows),
    ensures
        forall|g: int|
            0 <= g < group_by_progression(rows).len() ==> {
                let group = #[trigger] group_by_progression(rows)[g];
                let named = rows_named(rows, group.name);
                &&& group.progression == exercises_of_rows(named)
                &&& forall|a: int, b: int|
                    0 <= a < b < named.len() ==> order_rank(#[trigger] named[a]) <= order_rank(
                        #[trigger] named[b],
                    )
            },
{
    lemma_groups_partition_rows(rows);
    assert forall|g: int| 0 <= g < group_by_progression(rows).len() implies {
        let group = #[trigger] group_by_progression(rows)[g];
        let named = rows_named(rows, group.name);
        &&& group.progression == exercises_of_rows(named)
        &&& forall|a: int, b: int|
            0 <= a < b < named.len() ==> order_rank(#[trigger] named[a]) <= order_rank(
                #[trigger] named[b],
            )
    } by {
        lemma_rows_named(rows, group_by_progression(rows)[g].name);
    }
}

/// The deletion of an exercise, or the update of its name and goal, that
/// changes no row ends with not-found: so does the deletion of what is
/// not there.
pub proof fn lemma_nothing_changed_is_not_found(
    batch: Batch<ExerciseStatement>,
    outcome: StatementOutcome,
)
    requires
        batch.sent == 0,
        batch.statements@.len() == 1,
        batch.statements@[0]@ is Delete || batch.statements@[0]@ is UpdateGoal
            || batch.statements@[0]@ is DeleteProgression,
        outcome.rows_affected == 0,
    ensures
        batch.after(Ok(outcome)) == Err::<Batch<ExerciseStatement>, ModelErrorView>(
            ModelErrorView::NotFound,
        ),
{
}

} // verus!
