//! The error every fallible operation returns, how each kind is reported to a
//! caller, and how database failures are classified into it.

use vstd::prelude::*;
use vstd::string::*;

use crate::text::{concat3, same_text, views};

verus! {

/// A failed database call, as far as the server reads it: the SQLSTATE code
/// and constraint name a Postgres error carries (absent for failures that
/// never reached the database), and the driver's own description for the log.
#[derive(Debug)]
pub struct DbError {
    pub code: Option<String>,
    pub constraint: Option<String>,
    pub message: String,
}

/// Every fallible handler returns this.
#[derive(Debug)]
pub enum ApiError {
    Validation(Vec<String>),
    NotFound,
    Conflict(String),
    Database(DbError),
    Internal(String),
}

/// The status, error code and details a caller is shown for an [`ApiError`].
#[derive(Debug)]
pub struct ErrorResponse {
    pub status: u16,
    pub error: String,
    pub details: Option<Vec<String>>,
}

/// The error carries the given SQLSTATE.
pub open spec fn has_code(err: DbError, code: Seq<char>) -> bool {
    match err.code {
        Some(c) => c@ == code,
        None => false,
    }
}

pub open spec fn unique_violation_code() -> Seq<char> {
    "23505"@
}

pub open spec fn check_violation_code() -> Seq<char> {
    "23514"@
}

pub open spec fn foreign_key_violation_code() -> Seq<char> {
    "23503"@
}

/// Whether the error carries the given SQLSTATE.
pub fn is_code(err: &DbError, code: &str) -> (r: bool)
    ensures
        r == has_code(*err, code@),
{
    match &err.code {
        Some(c) => same_text(c.as_str(), code),
        None => false,
    }
}

pub open spec fn api_key_conflict_message() -> Seq<char> {
    "a user with that api key already exists"@
}

impl ApiError {
    /// Turn a Postgres unique-violation into a 409 and leave everything else alone.
    pub fn from_insert(err: DbError) -> (r: ApiError)
        ensures
            has_code(err, unique_violation_code()) ==> (r matches ApiError::Conflict(m) && m@
                == api_key_conflict_message()),
            !has_code(err, unique_violation_code()) ==> r == ApiError::Database(err),
    {
        if is_code(&err, "23505") {
            return ApiError::Conflict(String::from_str("a user with that api key already exists"));
        }
        ApiError::Database(err)
    }

    /// What the caller is shown. Database and internal failures are reported as
    /// an opaque 500 — no driver messages over the wire.
    pub fn into_response(self) -> (r: ErrorResponse)
        ensures
            match self {
                ApiError::Validation(errors) => r.status == 422 && r.error@ == "validation_failed"@
                    && r.details is Some && views(r.details->0@) == views(errors@),
                ApiError::NotFound => r.status == 404 && r.error@ == "not_found"@ && r.details
                    is None,
                ApiError::Conflict(message) => r.status == 409 && r.error@ == "conflict"@
                    && r.details is Some && views(r.details->0@) == seq![message@],
                ApiError::Database(_) => r.status == 500 && r.error@ == "internal_error"@
                    && r.details is None,
                ApiError::Internal(_) => r.status == 500 && r.error@ == "internal_error"@
                    && r.details is None,
            },
    {
        match self {
            ApiError::Validation(errors) => ErrorResponse {
                status: 422,
                error: String::from_str("validation_failed"),
                details: Some(errors),
            },
            ApiError::NotFound => ErrorResponse {
                status: 404,
                error: String::from_str("not_found"),
                details: None,
            },
            ApiError::Conflict(message) => {
                let ghost m = message@;
                let details = vec![message];
                proof {
                    assert(views(details@) =~= seq![m]);
                }
                ErrorResponse {
                    status: 409,
                    error: String::from_str("conflict"),
                    details: Some(details),
                }
            },
            ApiError::Database(_) => ErrorResponse {
                status: 500,
                error: String::from_str("internal_error"),
                details: None,
            },
            ApiError::Internal(_) => ErrorResponse {
                status: 500,
                error: String::from_str("internal_error"),
                details: None,
            },
        }
    }
}

/// Turn a unique violation into a caller-visible message when `describe`
/// recognises the constraint, and leave every other error alone.
pub fn unique_violation<F: Fn(&str) -> Option<String>>(err: DbError, describe: F) -> (r: ApiError)
    requires
        forall|c: &str| #[trigger] describe.requires((c,)),
    ensures
        r is Conflict ==> has_code(err, unique_violation_code()) && err.constraint is Some && (
        exists|c: &str|
            #[trigger] describe.ensures((c,), Some(r->Conflict_0)) && err.constraint->0@ == c@),
        !(r is Conflict) ==> r == ApiError::Database(err),
        !(r is Conflict) && has_code(err, unique_violation_code()) && err.constraint is Some
            ==> exists|c: &str| #[trigger] describe.ensures((c,), None) && err.constraint->0@ == c@,
{
    if is_code(&err, "23505") {
        match &err.constraint {
            Some(constraint) => {
                let name: &str = constraint.as_str();
                let described = describe(name);
                let ghost d = described;
                proof {
                    assert(describe.ensures((name,), d));
                }
                match described {
                    Some(message) => {
                        proof {
                            assert(describe.ensures((name,), Some(message)));
                            assert(has_code(err, unique_violation_code()));
                            assert(err.constraint is Some);
                            assert(err.constraint->0@ == name@);
                            let rr = ApiError::Conflict(message);
                            assert(describe.ensures((name,), Some(rr->Conflict_0)));
                        }
                        return ApiError::Conflict(message);
                    },
                    None => {
                        proof {
                            assert(describe.ensures((name,), None));
                        }
                    },
                }
            },
            None => {},
        }
    }
    ApiError::Database(err)
}

/// [`unique_violation`] for a single recognised constraint: a unique violation
/// of `constraint` is reported as a conflict carrying `message`, and every
/// other error is left alone.
pub fn unique_violation_on(err: DbError, constraint: &str, message: String) -> (r: ApiError)
    ensures
        (has_code(err, unique_violation_code()) && err.constraint is Some && err.constraint->0@
            == constraint@) ==> (r matches ApiError::Conflict(m) && m@ == message@),
        !(has_code(err, unique_violation_code()) && err.constraint is Some && err.constraint->0@
            == constraint@) ==> r == ApiError::Database(err),
{
    let describe = |name: &str| -> (o: Option<String>)
        ensures
            name@ == constraint@ ==> (o matches Some(m) && m@ == message@),
            name@ != constraint@ ==> o is None,
        {
            if same_text(name, constraint) {
                Some(message.clone())
            } else {
                None
            }
        };
    let r = unique_violation(err, describe);
    r
}

/// Report a check-constraint violation as a validation failure, naming the
/// constraint rather than swallowing it into a 500.
pub fn check_violation(err: DbError) -> (r: ApiError)
    ensures
        (has_code(err, check_violation_code()) && err.constraint is Some) ==> (r matches ApiError::Validation(v)
            && views(v@) == seq!["the flight violates "@ + err.constraint->0@]),
        !(has_code(err, check_violation_code()) && err.constraint is Some) ==> r
            == ApiError::Database(err),
{
    if is_code(&err, "23514") {
        match &err.constraint {
            Some(constraint) => {
                let message = concat3("the flight violates ", constraint.as_str(), "");
                let ghost m = message@;
                let list = vec![message];
                proof {
                    reveal_strlit("");
                    assert(m =~= "the flight violates "@ + err.constraint->0@);
                    assert(views(list@) =~= seq![m]);
                }
                return ApiError::Validation(list);
            },
            None => {},
        }
    }
    ApiError::Database(err)
}

/// Name the segment when a segment constraint (a check or a foreign key)
/// rejects the row, so the caller learns which leg was wrong rather than just
/// which constraint fired.
pub fn segment_constraint_error(err: DbError, prefix: &str) -> (r: ApiError)
    ensures
        ((has_code(err, check_violation_code()) || has_code(err, foreign_key_violation_code()))
            && err.constraint is Some) ==> (r matches ApiError::Validation(v) && views(v@) == seq![
            prefix@ + " violates "@ + err.constraint->0@]),
        !((has_code(err, check_violation_code()) || has_code(err, foreign_key_violation_code()))
            && err.constraint is Some) ==> r == ApiError::Database(err),
{
    if is_code(&err, "23514") || is_code(&err, "23503") {
        match &err.constraint {
            Some(constraint) => {
                let message = concat3(prefix, " violates ", constraint.as_str());
                let ghost m = message@;
                let list = vec![message];
                proof {
                    assert(views(list@) =~= seq![m]);
                }
                return ApiError::Validation(list);
            },
            None => {},
        }
    }
    ApiError::Database(err)
}

} // verus!
