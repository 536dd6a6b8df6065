//! The records of the domain and the errors of its models.

pub mod traits;
pub mod types;
