//! Fitness tracking: workouts, exercises, progressions, templates and goals,
//! with the rules that map these records to and from relational rows.
//!
//! The library performs no input or output. For a write it plans the
//! statements to send, as a [`outbound::store::Batch`] that takes in the
//! reply to each and ends on the first failure. For a read it interprets
//! the rows that came back, and where a record needs further lookups it
//! says which one is next. A driver sends the statements to a store and
//! hands the replies back.
//!
//! - [`domain`] holds the records and the errors of the models.
//! - [`outbound`] holds, for each repository, the rows, the encoding of
//!   records as rows and back, the plans of the writes, the reading of
//!   replies, and what is proved of rows that were stored and come back.
//! - [`inbound`] holds what clients report and the checks made on it.
//! - [`pages`] holds what the planning page shows.
//! - [`types`] holds the shapes of a workout that a client has reported.

pub mod domain;
pub mod inbound;
pub mod outbound;
pub mod pages;
pub mod types;
