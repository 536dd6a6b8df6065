//! The shapes in which a workout arrives from a client, once checked.

pub mod workout;
pub mod workout_plan;
