//! The logic of the Trace server: request validation, the SQL statements it
//! runs, and the decisions it takes between them.

pub mod text;
pub mod validation;
pub mod time;
pub mod sql_builder;
pub mod error;
pub mod user;
pub mod geo;
pub mod flight;
pub mod journey;
pub mod crypto;
pub mod entities;
pub mod responses;
pub mod store;
