//! A SQL builder for the queries this server actually runs.
//!
//! The column list, the `VALUES` list (or the conditions) and the arguments
//! are all produced by the same calls: [`Params::bind`] is the only thing that
//! writes a `$n`, and it writes one only as it appends the value it names.
//! Everything that becomes SQL text is a `&'static str`; everything that came
//! from outside is a bound [`SqlValue`].
//!
//! Rendering is the library's part; running a [`Query`] against Postgres is
//! the application's.

pub mod insert;
pub mod params;
pub mod query;
pub mod select;
pub mod value;

pub use insert::Insert;
pub use params::Params;
pub use query::Query;
pub use select::Select;
pub use value::{Bind, SqlValue, SqlValueView};
