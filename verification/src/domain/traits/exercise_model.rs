use crate::domain::traits::model_error::{ModelError, ModelErrorView};
use vstd::prelude::*;

verus! {

/// Why an operation of the exercise model failed.
#[derive(Debug, Clone, PartialEq, Eq)]
pub enum ExerciseModelError {
    /// No row answered to the key.
    NotFound,
    /// The store refused the statement; the text is the store's own.
    DatabaseError(String),
}

impl View for ExerciseModelError {
    type V = ModelErrorView;

    open spec fn view(&self) -> ModelErrorView {
        match self {
            ExerciseModelError::NotFound => ModelErrorView::NotFound,
            ExerciseModelError::DatabaseError(message) => ModelErrorView::DatabaseError(
                message@,
            ),
        }
    }
}

impl ModelError for ExerciseModelError {
    open spec fn kind(&self) -> ModelErrorView {
        self@
    }

    fn not_found() -> (e: Self) {
        ExerciseModelError::NotFound
    }

    fn database_error(message: String) -> (e: Self) {
        ExerciseModelError::DatabaseError(message)
    }
}

/// The text that `{:?}` formatting gives for an error of the exercise
/// model.
pub uninterp spec fn exercise_error_debug(error: ModelErrorView) -> Seq<char>;

/// Formats an error of the exercise model with `format!("{:?}", ..)`,
/// through the `Debug` that the standard library derives for the enum.
/// Trusted: that the text depends on nothing but the kind of the error
/// and the text that it carries.
#[verifier::external_body]
pub(crate) fn debug_text(error: &ExerciseModelError) -> (text: String)
    ensures
        text@ == exercise_error_debug(error@),
{
    format!("{:?}", error)
}

} // verus!
