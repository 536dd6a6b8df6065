//! The error kinds that each model reports.

pub mod exercise_model;
pub mod model_error;
pub mod workout_model;
pub mod workout_template_model;
