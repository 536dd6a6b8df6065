//! What arrives from clients, and the checks made on it.

pub mod new_workout;
pub mod workout_create;
