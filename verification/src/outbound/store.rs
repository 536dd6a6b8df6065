use crate::domain::traits::model_error::{ModelError, ModelErrorView};
use vstd::prelude::*;

verus! {

/// What the store said when it failed a statement.
#[derive(Debug, Clone, PartialEq, Eq)]
pub struct StoreError {
    /// The statement asked for one row and the store had none.
    pub row_not_found: bool,
    /// The store's own account of the failure.
    pub message: String,
}

/// The mathematical content of a [`StoreError`].
pub struct StoreErrorView {
    pub row_not_found: bool,
    pub message: Seq<char>,
}

impl View for StoreError {
    type V = StoreErrorView;

    open spec fn view(&self) -> StoreErrorView {
        StoreErrorView { row_not_found: self.row_not_found, message: self.message@ }
    }
}

/// What the store said when it ran a statement that returns no rows.
#[derive(Debug, Clone, Copy, PartialEq, Eq, Structural)]
pub struct StatementOutcome {
    /// How many rows the statement changed, inserted or deleted.
    pub rows_affected: u64,
    /// The key of the row that the statement inserted last.
    pub last_insert_rowid: i64,
}

/// The key under which the store holds the identifier `id`: the same
/// sixty-four bits, read as a signed number.
pub open spec fn key_of(id: u64) -> i64 {
    id as i64
}

/// The identifier that the store holds under `key`: the same sixty-four
/// bits, read as an unsigned number.
pub open spec fn id_of(key: i64) -> u64 {
    key as u64
}

/// The identifier is one that the store can hold: the store numbers its
/// rows with signed sixty-four-bit numbers from one up.
pub open spec fn fits_key(id: u64) -> bool {
    id <= i64::MAX
}

/// Computes [`key_of`].
pub fn key(id: u64) -> (k: i64)
    ensures
        k == key_of(id),
        id <= i64::MAX ==> k == id,
{
    #[verifier::truncate]
    (id as i64)
}

/// Computes [`id_of`].
pub fn id(key: i64) -> (i: u64)
    ensures
        i == id_of(key),
        key >= 0 ==> i == key,
{
    #[verifier::truncate]
    (key as u64)
}

/// An identifier comes back unchanged from the key that holds it, and
/// the key of an identifier that the store can hold is the identifier.
pub proof fn lemma_key_holds_id(id: u64)
    ensures
        id_of(key_of(id)) == id,
        fits_key(id) ==> key_of(id) == id,
{
    assert((id as i64) as u64 == id) by (bit_vector);
}

/// The error of a model for a statement that asked for exactly one row.
pub open spec fn one_row_failure(e: StoreErrorView) -> ModelErrorView {
    if e.row_not_found {
        ModelErrorView::NotFound
    } else {
        ModelErrorView::DatabaseError(e.message)
    }
}

/// A lookup by key that finds no row is reported as not-found, never as
/// a database error; any other failure of the store is reported as a
/// database error with the store's text.
pub proof fn lemma_missing_row_is_not_found(e: StoreErrorView)
    ensures
        e.row_not_found ==> one_row_failure(e) == ModelErrorView::NotFound,
        !e.row_not_found ==> one_row_failure(e) == ModelErrorView::DatabaseError(e.message),
{
}

/// Interprets the reply to a statement that asks for exactly one row: the
/// row where the store had it, not-found where the store had none, and the
/// store's text in a database error for any other failure.
pub fn fetched_one<T, E: ModelError>(reply: Result<T, StoreError>) -> (r: Result<T, E>)
    ensures
        reply matches Ok(row) ==> r == Ok::<T, E>(row),
        reply matches Err(e) ==> r is Err && r->Err_0.kind() == one_row_failure(e@),
{
    match reply {
        Ok(row) => Ok(row),
        Err(e) => {
            if e.row_not_found {
                Err(E::not_found())
            } else {
                Err(E::database_error(e.message))
            }
        },
    }
}

/// Interprets the reply to a statement that asks for any number of rows,
/// or for none: what the store returned, or the store's text in a database
/// error.
pub fn completed<T, E: ModelError>(reply: Result<T, StoreError>) -> (r: Result<T, E>)
    ensures
        reply matches Ok(rows) ==> r == Ok::<T, E>(rows),
        reply matches Err(e) ==> r is Err && r->Err_0.kind() == ModelErrorView::DatabaseError(
            e@.message,
        ),
{
    match reply {
        Ok(rows) => Ok(rows),
        Err(e) => Err(E::database_error(e.message)),
    }
}

/// Interprets the reply to an insert of one row: the identifier that the
/// store gave the row, or the store's text in a database error.
pub fn inserted<E: ModelError>(reply: Result<StatementOutcome, StoreError>) -> (r: Result<u64, E>)
    ensures
        reply matches Ok(outcome) ==> r == Ok::<u64, E>(id_of(outcome.last_insert_rowid)),
        reply matches Err(e) ==> r is Err && r->Err_0.kind() == ModelErrorView::DatabaseError(
            e@.message,
        ),
{
    match reply {
        Ok(outcome) => Ok(id(outcome.last_insert_rowid)),
        Err(e) => Err(E::database_error(e.message)),
    }
}

/// The keys of `rows` never fall from one row to the next.
pub open spec fn ascending_by<T>(rows: Seq<T>, key: spec_fn(T) -> int) -> bool {
    forall|i: int, j: int| 0 <= i < j < rows.len() ==> key(rows[i]) <= key(rows[j])
}

/// The keys of `rows` rise from each row to the next.
pub open spec fn strictly_ascending_by<T>(rows: Seq<T>, key: spec_fn(T) -> int) -> bool {
    forall|i: int, j: int| 0 <= i < j < rows.len() ==> key(rows[i]) < key(rows[j])
}

/// Rows that were stored with rising keys come back in the order in which
/// they were stored, whenever the store returns the same rows ordered by
/// that key.
pub proof fn lemma_ordered_rows_unique<T>(stored: Seq<T>, fetched: Seq<T>, key: spec_fn(T) -> int)
    requires
        strictly_ascending_by(stored, key),
        ascending_by(fetched, key),
        fetched.to_multiset() == stored.to_multiset(),
    ensures
        fetched == stored,
    decreases stored.len(),
{
    stored.to_multiset_ensures();
    fetched.to_multiset_ensures();
    assert(fetched.len() == stored.len());
    if stored.len() == 0 {
        assert(fetched =~= stored);
    } else {
        let n = stored.len() as int;
        let last_stored = stored[n - 1];
        let last_fetched = fetched[n - 1];
        assert(fetched.contains(last_fetched));
        assert(fetched.to_multiset().count(last_fetched) > 0);
        assert(stored.to_multiset().count(last_fetched) > 0);
        assert(stored.contains(last_fetched));
        let k = choose|k: int| 0 <= k < n && stored[k] == last_fetched;
        assert(stored.contains(last_stored));
        assert(stored.to_multiset().count(last_stored) > 0);
        assert(fetched.to_multiset().count(last_stored) > 0);
        assert(fetched.contains(last_stored));
        let m = choose|m: int| 0 <= m < n && fetched[m] == last_stored;
        assert(key(fetched[m]) <= key(last_fetched));
        assert(k == n - 1) by {
            if k < n - 1 {
                assert(key(stored[k]) < key(stored[n - 1]));
            }
        }
        assert(stored.remove(n - 1) =~= stored.drop_last());
        assert(fetched.remove(n - 1) =~= fetched.drop_last());
        assert(stored.drop_last().to_multiset() =~= fetched.drop_last().to_multiset());
        lemma_ordered_rows_unique(stored.drop_last(), fetched.drop_last(), key);
        assert(fetched =~= fetched.drop_last().push(last_fetched));
        assert(stored =~= stored.drop_last().push(last_stored));
    }
}

/// A statement that returns no rows.
pub trait Statement {
    /// The statement addresses a row by its key, or rows by their name,
    /// and has found nothing where the store reports that it changed no
    /// row.
    spec fn must_change(&self) -> bool;

    /// Computes [`Statement::must_change`].
    fn expects_change(&self) -> (b: bool)
        ensures
            b == self.must_change(),
    ;
}

/// How a reply fails the statement that it answers, if it does: with the
/// store's text in a database error where the store failed, with
/// not-found where the statement had to change a row and changed none.
pub open spec fn failure_of<S: Statement>(
    statement: S,
    reply: Result<StatementOutcome, StoreError>,
) -> Option<ModelErrorView> {
    match reply {
        Err(e) => Some(ModelErrorView::DatabaseError(e@.message)),
        Ok(outcome) => if statement.must_change() && outcome.rows_affected == 0 {
            Some(ModelErrorView::NotFound)
        } else {
            None
        },
    }
}

/// Statements that are sent to the store one after the other, until all
/// are sent or one fails: those before `sent` have succeeded, the one at
/// `sent` is to be sent next.
#[derive(Debug, Clone, PartialEq, Eq)]
pub struct Batch<S> {
    pub statements: Vec<S>,
    pub sent: usize,
}

impl<S: Statement> Batch<S> {
    /// The statement to send next, or none where all are sent.
    pub open spec fn pending_statement(&self) -> Option<S> {
        if self.sent < self.statements@.len() {
            Some(self.statements@[self.sent as int])
        } else {
            None
        }
    }

    /// What becomes of the batch when `reply` answers its pending
    /// statement. A reply that fails the statement, as [`failure_of`]
    /// says, ends the batch with that failure. After any other reply the
    /// next statement is the pending one. Where nothing is pending, the
    /// reply changes nothing.
    pub open spec fn after(&self, reply: Result<StatementOutcome, StoreError>) -> Result<
        Batch<S>,
        ModelErrorView,
    > {
        match self.pending_statement() {
            None => Ok(*self),
            Some(statement) => match failure_of(statement, reply) {
                Some(failure) => Err(failure),
                None => Ok(
                    Batch { statements: self.statements, sent: (self.sent + 1) as usize },
                ),
            },
        }
    }

    /// What becomes of the batch when `replies` answer its statements, one
    /// after the other, up to the first failure.
    pub open spec fn run(&self, replies: Seq<Result<StatementOutcome, StoreError>>) -> Result<
        Batch<S>,
        ModelErrorView,
    >
        decreases replies.len(),
    {
        if replies.len() == 0 {
            Ok(*self)
        } else {
            match self.run(replies.drop_last()) {
                Err(failure) => Err(failure),
                Ok(batch) => batch.after(replies.last()),
            }
        }
    }

    /// A batch of which nothing is sent yet.
    pub fn begin(statements: Vec<S>) -> (batch: Batch<S>)
        ensures
            batch.statements == statements,
            batch.sent == 0,
    {
        Batch { statements, sent: 0 }
    }

    /// The statement to send next, or none where all are sent.
    pub fn pending(&self) -> (next: Option<&S>)
        ensures
            next matches Some(statement) ==> self.pending_statement() == Some(*statement),
            next is None ==> self.pending_statement() is None,
    {
        if self.sent < self.statements.len() {
            Some(&self.statements[self.sent])
        } else {
            None
        }
    }

    /// Takes in the reply to the pending statement, as [`Batch::after`]
    /// says. A batch that ends with a failure is gone: nothing more of it
    /// can be sent.
    pub fn replied<E: ModelError>(self, reply: Result<StatementOutcome, StoreError>) -> (r: Result<
        Batch<S>,
        E,
    >)
        ensures
            match self.after(reply) {
                Ok(next) => r == Ok::<Batch<S>, E>(next),
                Err(failure) => r is Err && r->Err_0.kind() == failure,
            },
    {
        if self.sent >= self.statements.len() {
            return Ok(self);
        }
        match reply {
            Err(e) => Err(E::database_error(e.message)),
            Ok(outcome) => {
                if self.statements[self.sent].expects_change() && outcome.rows_affected == 0 {
                    Err(E::not_found())
                } else {
                    Ok(Batch { statements: self.statements, sent: self.sent + 1 })
                }
            },
        }
    }
}

/// A batch whose statements are answered one by one goes on exactly as
/// long as no reply fails its statement: it ends with all statements sent
/// where none fails, and otherwise with the failure of the first
/// statement that fails, whatever the replies after it.
pub proof fn lemma_batch_ends_on_the_first_failure<S: Statement>(
    batch: Batch<S>,
    replies: Seq<Result<StatementOutcome, StoreError>>,
)
    requires
        batch.sent == 0,
        replies.len() <= batch.statements@.len(),
    ensures
        match batch.run(replies) {
            Ok(end) => {
                &&& end.statements == batch.statements
                &&& end.sent == replies.len()
                &&& forall|k: int|
                    0 <= k < replies.len() ==> failure_of(
                        batch.statements@[k],
                        #[trigger] replies[k],
                    ) is None
            },
            Err(failure) => exists|first: int|
                {
                    &&& 0 <= first < replies.len()
                    &&& failure_of(batch.statements@[first], #[trigger] replies[first]) == Some(
                        failure,
                    )
                    &&& forall|k: int|
                        0 <= k < first ==> failure_of(
                            batch.statements@[k],
                            #[trigger] replies[k],
                        ) is None
                },
        },
    decreases replies.len(),
{
    if replies.len() > 0 {
        let earlier = replies.drop_last();
        lemma_batch_ends_on_the_first_failure(batch, earlier);
        match batch.run(earlier) {
            Err(failure) => {
                let first = choose|first: int|
                    {
                        &&& 0 <= first < earlier.len()
                        &&& failure_of(batch.statements@[first], #[trigger] earlier[first])
                            == Some(failure)
                        &&& forall|k: int|
                            0 <= k < first ==> failure_of(
                                batch.statements@[k],
                                #[trigger] earlier[k],
                            ) is None
                    };
                assert(replies[first] == earlier[first]);
                assert forall|k: int| 0 <= k < first implies failure_of(
                    batch.statements@[k],
                    #[trigger] replies[k],
                ) is None by {
                    assert(replies[k] == earlier[k]);
                }
            },
            Ok(middle) => {
                let last = replies.len() - 1;
                assert(replies.last() == replies[last]);
                assert forall|k: int| 0 <= k < last implies failure_of(
                    batch.statements@[k],
                    #[trigger] replies[k],
                ) is None by {
                    assert(replies[k] == earlier[k]);
                }
                assert(middle.sent == last);
                assert(middle.pending_statement() == Some(batch.statements@[last]));
                assert(batch.run(replies) == middle.after(replies[last]));
                match failure_of(batch.statements@[last], replies[last]) {
                    Some(failure) => {
                        assert(batch.run(replies) == Err::<Batch<S>, ModelErrorView>(failure));
                    },
                    None => {
                        assert(batch.statements.len() == batch.statements@.len());
                        assert(batch.run(replies) is Ok);
                        assert(batch.run(replies)->Ok_0.sent == replies.len());
                    },
                }
            },
        }
    }
}

} // verus!
