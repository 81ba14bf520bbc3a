//! The statements the server runs against each table, and the decisions it
//! takes between them.
//!
//! Running a statement is the application's part. Everything else is here:
//! which statement comes first, what a missing row means, when a conflict is
//! someone else's insert, and how a failure is reported. A get-or-create is a
//! small state machine: [`Step::Run`] hands out a statement together with the
//! [`Stage`] it belongs to, and the caller hands the reply back to the table's
//! `advance` function, which answers with the next step.

pub mod airlines;
pub mod airports;
pub mod flights;
pub mod journeys;
pub mod places;
pub mod steps;
pub mod users;
pub mod vehicles;

pub use steps::{Stage, Step};
