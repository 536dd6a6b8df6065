//! The mapping between records and rows, one module for each repository.

pub mod exercise_repository;
pub mod grouping;
pub mod store;
pub mod workout_repository;
pub mod workout_template_repository;
