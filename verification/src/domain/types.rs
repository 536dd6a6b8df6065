//! Plain records: exercises, workouts, templates, plans and goals.

pub mod date;
pub mod exercise;
pub mod goal;
pub mod weight;
pub mod workout;
pub mod workout_plan;
pub mod workout_template;
