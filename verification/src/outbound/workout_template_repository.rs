use crate::domain::traits::exercise_model::{debug_text, exercise_error_debug, ExerciseModelError};
use crate::domain::traits::model_error::{ModelError, ModelErrorView};
use crate::domain::traits::workout_template_model::WorkoutTemplateModelError;
use crate::domain::types::exercise::{exercise_views, Exercise, ExerciseView};
use crate::domain::types::workout_template::{WorkoutTemplate, WorkoutTemplateView};
use crate::outbound::store::{key, key_of, Statement};
use vstd::prelude::*;

pub mod laws;

verus! {

/// A row of the template table.
#[derive(Debug, Clone, PartialEq, Eq)]
pub struct SqliteWorkoutTemplate {
    pub id: u64,
    pub name: String,
}

/// The mathematical content of a [`SqliteWorkoutTemplate`].
pub struct SqliteWorkoutTemplateView {
    pub id: u64,
    pub name: Seq<char>,
}

impl View for SqliteWorkoutTemplate {
    type V = SqliteWorkoutTemplateView;

    open spec fn view(&self) -> SqliteWorkoutTemplateView {
        SqliteWorkoutTemplateView { id: self.id, name: self.name@ }
    }
}

/// A row of the table that links templates to their exercises.
#[derive(Debug, Clone, Copy, PartialEq, Eq, Structural)]
pub struct SqliteWorkoutTemplateExercise {
    pub workout_template_id: u64,
    pub exercise_id: u64,
}

/// The columns of a link row that is about to be inserted.
#[derive(Debug, Clone, Copy, PartialEq, Eq, Structural)]
pub struct SqliteWorkoutTemplateExerciseInsert {
    pub workout_template_id: i64,
    pub exercise_id: i64,
}

/// The name that replaces that of the template row with key `id`.
#[derive(Debug, Clone, PartialEq, Eq)]
pub struct SqliteWorkoutTemplateUpdate {
    pub id: i64,
    pub name: String,
}

/// The mathematical content of a [`SqliteWorkoutTemplateUpdate`].
pub struct SqliteWorkoutTemplateUpdateView {
    pub id: i64,
    pub name: Seq<char>,
}

impl View for SqliteWorkoutTemplateUpdate {
    type V = SqliteWorkoutTemplateUpdateView;

    open spec fn view(&self) -> SqliteWorkoutTemplateUpdateView {
        SqliteWorkoutTemplateUpdateView { id: self.id, name: self.name@ }
    }
}

/// The inserts that link a template to its exercises: one for each
/// exercise, in order.
pub open spec fn link_inserts(template_id: u64, exercise_ids: Seq<u64>) -> Seq<
    SqliteWorkoutTemplateExerciseInsert,
> {
    Seq::new(
        exercise_ids.len(),
        |i: int|
            SqliteWorkoutTemplateExerciseInsert {
                workout_template_id: key_of(template_id),
                exercise_id: key_of(exercise_ids[i]),
            },
    )
}

/// Plans the one statement that links a template to its exercises: the
/// rows to insert together, or nothing where the template has no
/// exercise, in which case no statement is sent.
pub fn template_link_rows(template_id: u64, exercise_ids: &Vec<u64>) -> (rows: Option<
    Vec<SqliteWorkoutTemplateExerciseInsert>,
>)
    ensures
        exercise_ids@.len() == 0 ==> rows is None,
        exercise_ids@.len() > 0 ==> rows is Some && rows->Some_0@ == link_inserts(
            template_id,
            exercise_ids@,
        ),
{
    if exercise_ids.len() == 0 {
        return None;
    }
    let mut rows: Vec<SqliteWorkoutTemplateExerciseInsert> = Vec::new();
    let mut i: usize = 0;
    while i < exercise_ids.len()
        invariant
            i <= exercise_ids.len(),
            rows@.len() == i,
            forall|k: int|
                0 <= k < i ==> #[trigger] rows@[k] == (SqliteWorkoutTemplateExerciseInsert {
                    workout_template_id: key_of(template_id),
                    exercise_id: key_of(exercise_ids@[k]),
                }),
        decreases exercise_ids.len() - i,
    {
        rows.push(
            SqliteWorkoutTemplateExerciseInsert {
                workout_template_id: key(template_id),
                exercise_id: key(exercise_ids[i]),
            },
        );
        i += 1;
    }
    assert(rows@ =~= link_inserts(template_id, exercise_ids@));
    Some(rows)
}

/// Plans the statement that replaces the name of a stored template.
pub fn template_update(template: &WorkoutTemplate) -> (row: SqliteWorkoutTemplateUpdate)
    ensures
        row@ == (SqliteWorkoutTemplateUpdateView {
            id: key_of(template.id),
            name: template@.name,
        }),
{
    SqliteWorkoutTemplateUpdate { id: key(template.id), name: template.name.clone() }
}

/// The identifiers of a sequence of exercises, in order.
pub open spec fn ids_of_exercises(exercises: Seq<ExerciseView>) -> Seq<u64> {
    Seq::new(exercises.len(), |i: int| exercises[i].id)
}

/// Lists the exercises of a template by their identifiers, in order.
pub fn template_exercise_ids(exercises: &Vec<Exercise>) -> (ids: Vec<u64>)
    ensures
        ids@ == ids_of_exercises(exercise_views(exercises@)),
{
    let mut ids: Vec<u64> = Vec::new();
    let mut i: usize = 0;
    while i < exercises.len()
        invariant
            i <= exercises.len(),
            ids@.len() == i,
            forall|k: int| 0 <= k < i ==> #[trigger] ids@[k] == exercises@[k].id,
        decreases exercises.len() - i,
    {
        ids.push(exercises[i].id);
        i += 1;
    }
    assert(ids@ =~= ids_of_exercises(exercise_views(exercises@)));
    ids
}

/// The identifiers of the templates that a sequence of rows stands for,
/// in order.
pub open spec fn ids_of_templates(rows: Seq<SqliteWorkoutTemplate>) -> Seq<u64> {
    Seq::new(rows.len(), |i: int| rows[i].id)
}

/// Lists the templates to fetch, one by one and in this order, from the
/// rows of all templates.
pub fn template_ids(rows: &Vec<SqliteWorkoutTemplate>) -> (ids: Vec<u64>)
    ensures
        ids@ == ids_of_templates(rows@),
{
    let mut ids: Vec<u64> = Vec::new();
    let mut i: usize = 0;
    while i < rows.len()
        invariant
            i <= rows.len(),
            ids@.len() == i,
            forall|k: int| 0 <= k < i ==> #[trigger] ids@[k] == rows@[k].id,
        decreases rows.len() - i,
    {
        ids.push(rows[i].id);
        i += 1;
    }
    assert(ids@ =~= ids_of_templates(rows@));
    ids
}

/// A template that is being put together from its rows: the template
/// row, the rows that link it to its exercises, and the exercises
/// resolved so far, one for each of the first links.
#[derive(Debug, Clone, PartialEq, Eq)]
pub struct TemplateAssembly {
    pub header: SqliteWorkoutTemplate,
    pub links: Vec<SqliteWorkoutTemplateExercise>,
    pub exercises: Vec<Exercise>,
}

/// The mathematical content of a [`TemplateAssembly`].
pub struct TemplateAssemblyView {
    pub header: SqliteWorkoutTemplateView,
    pub links: Seq<SqliteWorkoutTemplateExercise>,
    pub exercises: Seq<ExerciseView>,
}

impl View for TemplateAssembly {
    type V = TemplateAssemblyView;

    open spec fn view(&self) -> TemplateAssemblyView {
        TemplateAssemblyView {
            header: self.header@,
            links: self.links@,
            exercises: exercise_views(self.exercises@),
        }
    }
}

impl TemplateAssemblyView {
    /// The assembly of a template from its row and its links, before any
    /// exercise is resolved.
    pub open spec fn begin(
        header: SqliteWorkoutTemplateView,
        links: Seq<SqliteWorkoutTemplateExercise>,
    ) -> Self {
        TemplateAssemblyView { header, links, exercises: Seq::empty() }
    }

    /// The exercise to resolve next: that of the first link without an
    /// exercise, or none where every link has its exercise.
    pub open spec fn pending(self) -> Option<u64> {
        if self.exercises.len() < self.links.len() {
            Some(self.links[self.exercises.len() as int].exercise_id)
        } else {
            None
        }
    }

    /// The assembly once `exercise` has come back for the pending link.
    /// Where nothing is pending, nothing changes.
    pub open spec fn resolve(self, exercise: ExerciseView) -> Self {
        if self.exercises.len() < self.links.len() {
            TemplateAssemblyView {
                header: self.header,
                links: self.links,
                exercises: self.exercises.push(exercise),
            }
        } else {
            self
        }
    }

    /// The assembly once the exercises `resolved` have come back, one
    /// after the other.
    pub open spec fn resolve_all(self, resolved: Seq<ExerciseView>) -> Self
        decreases resolved.len(),
    {
        if resolved.len() == 0 {
            self
        } else {
            self.resolve_all(resolved.drop_last()).resolve(resolved.last())
        }
    }

    /// The template of the row with the exercises resolved so far.
    pub open spec fn template(self) -> WorkoutTemplateView {
        WorkoutTemplateView {
            id: self.header.id,
            name: self.header.name,
            exercises: self.exercises,
        }
    }
}

impl TemplateAssembly {
    /// Starts to put a template together from its row and its links.
    pub fn begin(
        header: SqliteWorkoutTemplate,
        links: Vec<SqliteWorkoutTemplateExercise>,
    ) -> (assembly: TemplateAssembly)
        ensures
            assembly@ == TemplateAssemblyView::begin(header@, links@),
    {
        let assembly = TemplateAssembly { header, links, exercises: Vec::new() };
        assert(assembly@.exercises =~= Seq::empty());
        assembly
    }

    /// The exercise that has to be looked up next, or none where the
    /// template is complete.
    pub fn next_exercise_id(&self) -> (next: Option<u64>)
        ensures
            next == self@.pending(),
    {
        let done = self.exercises.len();
        if done < self.links.len() {
            Some(self.links[done].exercise_id)
        } else {
            None
        }
    }

    /// Takes in the reply to the lookup of the pending exercise. An
    /// exercise joins the resolved ones. A failure of the exercise model,
    /// of either kind, ends the assembly with a database error whose text
    /// is the failure as `{:?}` formats it.
    pub fn resolved(self, reply: Result<Exercise, ExerciseModelError>) -> (r: Result<
        TemplateAssembly,
        WorkoutTemplateModelError,
    >)
        ensures
            reply matches Ok(exercise) ==> r is Ok && r->Ok_0@ == self@.resolve(exercise@),
            reply matches Err(e) ==> r is Err && r->Err_0@ == ModelErrorView::DatabaseError(
                exercise_error_debug(e@),
            ),
    {
        match reply {
            Ok(exercise) => {
                let mut assembly = self;
                if assembly.exercises.len() < assembly.links.len() {
                    let ghost before = assembly@;
                    assembly.exercises.push(exercise);
                    assert(assembly@.exercises =~= before.resolve(exercise@).exercises);
                }
                Ok(assembly)
            },
            Err(e) => Err(WorkoutTemplateModelError::database_error(debug_text(&e))),
        }
    }

    /// The template of the row with the exercises resolved so far.
    pub fn finish(self) -> (template: WorkoutTemplate)
        ensures
            template@ == self@.template(),
    {
        WorkoutTemplate { id: self.header.id, name: self.header.name, exercises: self.exercises }
    }
}

/// A statement that changes the tables of templates and of their links.
#[derive(Debug, Clone, PartialEq, Eq)]
pub enum TemplateStatement {
    /// Replace the name of the template row with the key of the update.
    UpdateTemplate(SqliteWorkoutTemplateUpdate),
    /// Delete every link row of the template with the key
    /// `workout_template_id`.
    DeleteLinks { workout_template_id: i64 },
    /// Insert several link rows at once; there is at least one.
    InsertLinks(Vec<SqliteWorkoutTemplateExerciseInsert>),
    /// Delete the template row with the key `id`. Its link rows stay.
    DeleteTemplate { id: i64 },
}

/// The mathematical content of a [`TemplateStatement`].
pub enum TemplateStatementView {
    UpdateTemplate(SqliteWorkoutTemplateUpdateView),
    DeleteLinks { workout_template_id: i64 },
    InsertLinks(Seq<SqliteWorkoutTemplateExerciseInsert>),
    DeleteTemplate { id: i64 },
}

impl View for TemplateStatement {
    type V = TemplateStatementView;

    open spec fn view(&self) -> TemplateStatementView {
        match self {
            TemplateStatement::UpdateTemplate(row) => TemplateStatementView::UpdateTemplate(row@),
            TemplateStatement::DeleteLinks { workout_template_id } => {
                TemplateStatementView::DeleteLinks { workout_template_id: *workout_template_id }
            },
            TemplateStatement::InsertLinks(rows) => TemplateStatementView::InsertLinks(rows@),
            TemplateStatement::DeleteTemplate { id } => TemplateStatementView::DeleteTemplate {
                id: *id,
            },
        }
    }
}

/// The views of a sequence of statements, in order.
pub open spec fn template_statement_views(statements: Seq<TemplateStatement>) -> Seq<
    TemplateStatementView,
> {
    Seq::new(statements.len(), |i: int| statements[i]@)
}

impl TemplateStatementView {
    /// The update and the delete of a template row address a row that
    /// they expect to exist. The statements on link rows do not.
    pub open spec fn must_change(self) -> bool {
        self is UpdateTemplate || self is DeleteTemplate
    }
}

impl Statement for TemplateStatement {
    open spec fn must_change(&self) -> bool {
        self@.must_change()
    }

    fn expects_change(&self) -> (b: bool) {
        match self {
            TemplateStatement::UpdateTemplate(_) => true,
            TemplateStatement::DeleteTemplate { .. } => true,
            _ => false,
        }
    }
}

/// The statements that link a template to its exercises: one insert of
/// all the links together, or nothing where there is no exercise.
pub open spec fn link_statements(template_id: u64, exercise_ids: Seq<u64>) -> Seq<
    TemplateStatementView,
> {
    if exercise_ids.len() == 0 {
        Seq::empty()
    } else {
        seq![TemplateStatementView::InsertLinks(link_inserts(template_id, exercise_ids))]
    }
}

/// The statements that update a template: the name first, then the
/// removal of all its links, then the links to the exercises of the
/// update.
pub open spec fn update_statements(template: WorkoutTemplateView) -> Seq<TemplateStatementView> {
    seq![
        TemplateStatementView::UpdateTemplate(
            SqliteWorkoutTemplateUpdateView { id: key_of(template.id), name: template.name },
        ),
        TemplateStatementView::DeleteLinks { workout_template_id: key_of(template.id) },
    ] + link_statements(template.id, ids_of_exercises(template.exercises))
}

/// Plans the linking of a template to its exercises: one insert of all
/// the links together, in the order of the exercises; nothing where
/// there is no exercise.
pub fn insert_template_exercises_statements(
    template_id: u64,
    exercise_ids: &Vec<u64>,
) -> (statements: Vec<TemplateStatement>)
    ensures
        template_statement_views(statements@) == link_statements(template_id, exercise_ids@),
        exercise_ids@.len() == 0 ==> statements@.len() == 0,
        exercise_ids@.len() > 0 ==> statements@.len() == 1 && statements@[0]@
            == TemplateStatementView::InsertLinks(link_inserts(template_id, exercise_ids@)),
{
    let mut statements: Vec<TemplateStatement> = Vec::new();
    match template_link_rows(template_id, exercise_ids) {
        None => {},
        Some(rows) => {
            statements.push(TemplateStatement::InsertLinks(rows));
        },
    }
    assert(template_statement_views(statements@) =~= link_statements(template_id, exercise_ids@));
    statements
}

/// Plans the update of a template: the update of its name, which fails
/// with not-found where the store has no such template; then the removal
/// of all its links; then the links to the exercises of the update. The
/// links that the store held are dropped, not compared.
pub fn update_workout_template_statements(template: &WorkoutTemplate) -> (statements: Vec<
    TemplateStatement,
>)
    ensures
        template_statement_views(statements@) == update_statements(template@),
        statements@.len() >= 2,
        statements@[0]@ == TemplateStatementView::UpdateTemplate(
            SqliteWorkoutTemplateUpdateView { id: key_of(template.id), name: template@.name },
        ),
        statements@[1]@ == (TemplateStatementView::DeleteLinks {
            workout_template_id: key_of(template.id),
        }),
{
    let mut statements: Vec<TemplateStatement> = Vec::new();
    statements.push(TemplateStatement::UpdateTemplate(template_update(template)));
    statements.push(TemplateStatement::DeleteLinks { workout_template_id: key(template.id) });
    let exercise_ids = template_exercise_ids(&template.exercises);
    match template_link_rows(template.id, &exercise_ids) {
        None => {},
        Some(rows) => {
            statements.push(TemplateStatement::InsertLinks(rows));
        },
    }
    assert(template_statement_views(statements@) =~= update_statements(template@));
    statements
}

/// Plans the deletion of a template: one delete of its row by key, that
/// fails with not-found where the store has no such template.
pub fn delete_workout_template_statements(template_id: u64) -> (statements: Vec<
    TemplateStatement,
>)
    ensures
        statements@.len() == 1,
        statements@[0]@ == (TemplateStatementView::DeleteTemplate { id: key_of(template_id) }),
{
    let mut statements: Vec<TemplateStatement> = Vec::new();
    statements.push(TemplateStatement::DeleteTemplate { id: key(template_id) });
    statements
}

} // verus!
