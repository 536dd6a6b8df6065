use crate::domain::traits::model_error::{ModelError, ModelErrorView};
use vstd::prelude::*;

verus! {

/// Why an operation of the workout template model failed.
#[derive(Debug, Clone, PartialEq, Eq)]
pub enum WorkoutTemplateModelError {
    /// No row answered to the key.
    NotFound,
    /// The store refused the statement; the text is the store's own.
    DatabaseError(String),
}

impl View for WorkoutTemplateModelError {
    type V = ModelErrorView;

    open spec fn view(&self) -> ModelErrorView {
        match self {
            WorkoutTemplateModelError::NotFound => ModelErrorView::NotFound,
            WorkoutTemplateModelError::DatabaseError(message) => ModelErrorView::DatabaseError(
                message@,
            ),
        }
    }
}

impl ModelError for WorkoutTemplateModelError {
    open spec fn kind(&self) -> ModelErrorView {
        self@
    }

    fn not_found() -> (e: Self) {
        WorkoutTemplateModelError::NotFound
    }

    fn database_error(message: String) -> (e: Self) {
        WorkoutTemplateModelError::DatabaseError(message)
    }
}

} // verus!
