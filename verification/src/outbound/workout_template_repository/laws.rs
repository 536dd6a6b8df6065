//! What holds of the rows of a template once the store has taken them in.

use crate::domain::types::exercise::ExerciseView;
use crate::domain::types::workout_template::WorkoutTemplateView;
use crate::domain::traits::model_error::ModelErrorView;
use crate::outbound::store::{
    fits_key, id_of, lemma_key_holds_id, Batch, Statement, StatementOutcome,
};
use crate::outbound::workout_template_repository::{
    ids_of_exercises, link_inserts, update_statements, SqliteWorkoutTemplateExercise,
    SqliteWorkoutTemplateExerciseInsert, SqliteWorkoutTemplateView, TemplateAssemblyView,
    TemplateStatement,
};
use vstd::prelude::*;

verus! {

/// When every lookup succeeds, the assembly of a template asks for the
/// exercises of its links in the order of the links, and ends with
/// nothing pending and with the exercises that came back, in that order.
pub proof fn lemma_template_assembly_completes(
    header: SqliteWorkoutTemplateView,
    links: Seq<SqliteWorkoutTemplateExercise>,
    resolved: Seq<ExerciseView>,
)
    requires
        resolved.len() <= links.len(),
    ensures
        ({
            let end = TemplateAssemblyView::begin(header, links).resolve_all(resolved);
            &&& end.header == header
            &&& end.links == links
            &&& end.exercises == resolved
            &&& resolved.len() < links.len() ==> end.pending() == Some(
                links[resolved.len() as int].exercise_id,
            )
            &&& resolved.len() == links.len() ==> end.pending() is None
        }),
    decreases resolved.len(),
{
    if resolved.len() > 0 {
        lemma_template_assembly_completes(header, links, resolved.drop_last());
        let before = TemplateAssemblyView::begin(header, links).resolve_all(resolved.drop_last());
        assert(before.exercises.push(resolved.last()) =~= resolved);
    } else {
        assert(TemplateAssemblyView::begin(header, links).exercises =~= resolved);
    }
}

/// The link row that the store holds once it has taken in `insert`.
pub open spec fn stored_link(
    insert: SqliteWorkoutTemplateExerciseInsert,
) -> SqliteWorkoutTemplateExercise {
    SqliteWorkoutTemplateExercise {
        workout_template_id: id_of(insert.workout_template_id),
        exercise_id: id_of(insert.exercise_id),
    }
}

/// The links of a template, stored and read back in the order in which
/// they were inserted, name the template and its exercises in their
/// order; so a template that is fetched after them asks for exactly
/// those exercises, one after the other.
pub proof fn lemma_links_read_back(template_id: u64, exercise_ids: Seq<u64>)
    requires
        fits_key(template_id),
        forall|i: int| 0 <= i < exercise_ids.len() ==> fits_key(#[trigger] exercise_ids[i]),
    ensures
        ({
            let inserts = link_inserts(template_id, exercise_ids);
            &&& inserts.len() == exercise_ids.len()
            &&& forall|i: int|
                0 <= i < exercise_ids.len() ==> stored_link(#[trigger] inserts[i]) == (
                SqliteWorkoutTemplateExercise {
                    workout_template_id: template_id,
                    exercise_id: exercise_ids[i],
                })
        }),
{
    let inserts = link_inserts(template_id, exercise_ids);
    lemma_key_holds_id(template_id);
    assert forall|i: int| 0 <= i < exercise_ids.len() implies stored_link(#[trigger] inserts[i])
        == (SqliteWorkoutTemplateExercise {
        workout_template_id: template_id,
        exercise_id: exercise_ids[i],
    }) by {
        lemma_key_holds_id(exercise_ids[i]);
    }
}

/// In the update of a template only the first statement, the update of
/// the name, can report that the template is missing: no statement after
/// it looks whether the template exists.
pub proof fn lemma_update_looks_for_the_template_only(template: WorkoutTemplateView)
    ensures
        ({
            let statements = update_statements(template);
            &&& statements.len() >= 2
            &&& statements[0].must_change()
            &&& forall|k: int|
                1 <= k < statements.len() ==> !(#[trigger] statements[k]).must_change()
        }),
{
}

/// A template that is updated and then fetched comes back as it went in.
/// Where the template row holds what the update wrote, the links come
/// back in the order in which they were inserted, and every exercise is
/// looked up with success, the assembly asks for the exercises of the
/// template in their order and ends with the template that went in.
pub proof fn lemma_updated_template_reads_back(template: WorkoutTemplateView)
    requires
        fits_key(template.id),
        forall|i: int|
            0 <= i < template.exercises.len() ==> fits_key((#[trigger] template.exercises[i]).id),
    ensures
        ({
            let inserts = link_inserts(template.id, ids_of_exercises(template.exercises));
            let links = Seq::new(inserts.len(), |i: int| stored_link(inserts[i]));
            let header = SqliteWorkoutTemplateView { id: template.id, name: template.name };
            let start = TemplateAssemblyView::begin(header, links);
            let end = start.resolve_all(template.exercises);
            &&& start.links.len() == template.exercises.len()
            &&& forall|i: int|
                0 <= i < template.exercises.len() ==> (#[trigger] start.links[i]).exercise_id
                    == template.exercises[i].id
            &&& end.pending() is None
            &&& end.template() == template
        }),
{
    let ids = ids_of_exercises(template.exercises);
    let inserts = link_inserts(template.id, ids);
    let links = Seq::new(inserts.len(), |i: int| stored_link(inserts[i]));
    let header = SqliteWorkoutTemplateView { id: template.id, name: template.name };
    lemma_links_read_back(template.id, ids);
    lemma_template_assembly_completes(header, links, template.exercises);
}

/// The deletion of a template, or the update of its name, that changes no
/// row ends with not-found: so does the deletion of what is not there.
pub proof fn lemma_nothing_changed_is_not_found(
    batch: Batch<TemplateStatement>,
    outcome: StatementOutcome,
)
    requires
        batch.sent == 0,
        batch.statements@.len() >= 1,
        batch.statements@[0]@ is DeleteTemplate || batch.statements@[0]@ is UpdateTemplate,
        outcome.rows_affected == 0,
    ensures
        batch.after(Ok(outcome)) == Err::<Batch<TemplateStatement>, ModelErrorView>(
            ModelErrorView::NotFound,
        ),
{
}

} // verus!
