use crate::domain::traits::model_error::{ModelError, ModelErrorView};
use vstd::prelude::*;

verus! {

/// Why an operation of the workout model failed.
#[derive(Debug, Clone, PartialEq, Eq)]
pub enum WorkoutModelError {
    /// No row answered to the key.
    NotFound,
    /// The store refused the statement; the text is the store's own.
    DatabaseError(String),
}

impl View for WorkoutModelError {
    type V = ModelErrorView;

    open spec fn view(&self) -> ModelErrorView {
        match self {
            WorkoutModelError::NotFound => ModelErrorView::NotFound,
            WorkoutModelError::DatabaseError(message) => ModelErrorView::DatabaseError(
                message@,
            ),
        }
    }
}

impl ModelError for WorkoutModelError {
    open spec fn kind(&self) -> ModelErrorView {
        self@
    }

    fn not_found() -> (e: Self) {
        WorkoutModelError::NotFound
    }

    fn database_error(message: String) -> (e: Self) {
        WorkoutModelError::DatabaseError(message)
    }
}

} // verus!
