//! The stages of a read–insert–read get-or-create, and what comes next.

use vstd::prelude::*;

use crate::error::ApiError;
use crate::sql_builder::insert::{insert_sql, InsertView};
use crate::sql_builder::params::placeholder;
use crate::sql_builder::query::Query;
use crate::sql_builder::select::{select_sql, SelectView};
use crate::sql_builder::value::SqlValueView;

verus! {

/// Which statement of a get-or-create a reply answers.
#[derive(Clone, Copy, PartialEq, Eq, Structural, Debug)]
pub enum Stage {
    /// The first read: the common case, and no write.
    Lookup,
    /// Insert-if-absent.
    Insert,
    /// The read again, for the request that lost the race.
    LookupAgain,
}

/// What to do next.
#[derive(Debug)]
pub enum Step<T> {
    /// Run the statement, then hand its reply back with this stage.
    Run(Stage, Query),
    /// Resolved.
    Done(T),
    /// Resolving failed, and this is what the caller is told.
    Failed(ApiError),
}

/// `Text` bound from a string.
pub open spec fn text(s: Seq<char>) -> SqlValueView {
    SqlValueView::Text(Some(s))
}

/// `Text` bound from an optional string: `None` binds a `NULL`.
pub open spec fn opt_text(s: Option<String>) -> SqlValueView {
    SqlValueView::Text(
        match s {
            Some(v) => Some(v@),
            None => None,
        },
    )
}

/// `$1, …, $n`: the `VALUES` of an insert whose columns are all bound plain.
pub open spec fn placeholders(n: nat) -> Seq<Seq<char>>
    decreases n,
{
    if n == 0 {
        Seq::empty()
    } else {
        placeholders((n - 1) as nat).push(placeholder(n))
    }
}

/// `$n::cast`.
pub open spec fn cast(n: nat, to: Seq<char>) -> Seq<char> {
    placeholder(n) + "::"@ + to
}

/// A message as the only entry of a validation failure.
pub open spec fn single_error(e: ApiError, message: Seq<char>) -> bool {
    e matches ApiError::Validation(v) && v@.len() == 1 && v@[0]@ == message
}

/// A conflict carrying `message`.
pub open spec fn conflict_with(e: ApiError, message: Seq<char>) -> bool {
    e matches ApiError::Conflict(m) && m@ == message
}

/// `q` is the select `view` renders, with its arguments.
pub open spec fn runs_select(q: Query, view: SelectView) -> bool {
    q.sql_text() == select_sql(view) && q.arguments() == view.params
}

/// `q` is the insert `view` renders, with its arguments.
pub open spec fn runs_insert(q: Query, view: InsertView) -> bool {
    q.sql_text() == insert_sql(view) && q.arguments() == view.params
}

} // verus!
