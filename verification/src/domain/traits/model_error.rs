use vstd::prelude::*;

verus! {

/// The two ways in which an operation of a model fails, as mathematics.
pub enum ModelErrorView {
    /// No row answered to the key.
    NotFound,
    /// The store refused the statement; the text is the store's own.
    DatabaseError(Seq<char>),
}

/// An error type that has exactly the two kinds of [`ModelErrorView`].
pub trait ModelError: Sized {
    /// Which of the two kinds the error is, with the store's text.
    spec fn kind(&self) -> ModelErrorView;

    /// The error that reports a missing row.
    fn not_found() -> (e: Self)
        ensures
            e.kind() == ModelErrorView::NotFound,
    ;

    /// The error that reports a refusal by the store, with its text.
    fn database_error(message: String) -> (e: Self)
        ensures
            e.kind() == ModelErrorView::DatabaseError(message@),
    ;
}

} // verus!
