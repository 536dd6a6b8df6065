//! What the pages show before anything is stored.

pub mod new_workout;
