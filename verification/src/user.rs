//! The user a caller posts, and its validated form.

use vstd::prelude::*;
use vstd::string::*;

use crate::error::ApiError;
use crate::text::{trim, trimmed, views};
use crate::validation::{report, trimmed_nonblank, trimmed_opt};

verus! {

pub const MAX_NAME_LEN: usize = 100;

pub const MAX_ROLE_LEN: usize = 50;

pub const MIN_PASSWORD_LEN: usize = 8;

/// Argon2 is deliberately slow; cap the input so a huge body can't be used to
/// tie up a blocking thread.
pub const MAX_PASSWORD_LEN: usize = 1024;

/// Body of `POST /api/v1/users`.
#[derive(Debug)]
pub struct InsertUserRequest {
    pub first_name: String,
    pub last_name: String,
    /// Optional; the column defaults to `user`.
    pub role: Option<String>,
    pub password: String,
}

/// The body of `POST /api/v1/users`, by the name its handler uses.
pub type CreateUserRequest = InsertUserRequest;

/// An `InsertUserRequest` that has been trimmed and checked.
pub struct ValidatedUser {
    pub first_name: String,
    pub last_name: String,
    pub role: String,
    pub password: String,
}

/// The role a user gets: the trimmed one sent, or `user` when none (or a blank
/// one) was.
pub open spec fn user_role(role: Option<String>) -> Seq<char> {
    match trimmed_opt(role) {
        Some(r) => r,
        None => "user"@,
    }
}

/// The messages for one required name field.
pub open spec fn name_errors(name: Seq<char>, empty: Seq<char>, too_long: Seq<char>) -> Seq<
    Seq<char>,
> {
    if trim(name).len() == 0 {
        seq![empty]
    } else if trim(name).len() > 100 {
        seq![too_long]
    } else {
        Seq::empty()
    }
}

/// Everything `validate` finds wrong with a request, in the order it looks.
pub open spec fn user_errors(request: InsertUserRequest) -> Seq<Seq<char>> {
    let first = name_errors(
        request.first_name@,
        "first_name must not be empty"@,
        "first_name must be at most 100 characters"@,
    );
    let last = name_errors(
        request.last_name@,
        "last_name must not be empty"@,
        "last_name must be at most 100 characters"@,
    );
    let role = if user_role(request.role).len() > 50 {
        seq!["role must be at most 50 characters"@]
    } else {
        Seq::empty()
    };
    let password = if request.password@.len() < 8 {
        seq!["password must be at least 8 characters"@]
    } else if vstd::utf8::encode_utf8(request.password@).len() > 1024 {
        seq!["password must be at most 1024 bytes"@]
    } else {
        Seq::empty()
    };
    first + last + role + password
}

/// The error list `validate` fails with, when it fails.
pub open spec fn validation_errors(e: ApiError) -> Seq<Seq<char>> {
    match e {
        ApiError::Validation(v) => views(v@),
        _ => Seq::empty(),
    }
}

fn check_name(
    name: &String,
    empty: &str,
    too_long: &str,
    errors: &mut Vec<String>,
)
    ensures
        views(final(errors)@) == views(old(errors)@) + name_errors(name@, empty@, too_long@),
{
    let t = trimmed(name.as_str());
    if t.unicode_len() == 0 {
        report(errors, String::from_str(empty));
    } else if t.unicode_len() > MAX_NAME_LEN {
        report(errors, String::from_str(too_long));
    }
    proof {
        assert(views(final(errors)@) =~= views(old(errors)@) + name_errors(
            name@,
            empty@,
            too_long@,
        ));
    }
}

impl InsertUserRequest {
    /// Trim the names, default the role, and check every field, reporting all
    /// problems at once.
    pub fn validate(self) -> (r: Result<ValidatedUser, ApiError>)
        ensures
            r is Err <==> user_errors(self).len() > 0,
            r is Err ==> (r->Err_0 is Validation && validation_errors(r->Err_0) == user_errors(
                self,
            )),
            r is Ok ==> ({
                let u = r->Ok_0;
                &&& u.first_name@ == trim(self.first_name@)
                &&& u.last_name@ == trim(self.last_name@)
                &&& u.role@ == user_role(self.role)
                &&& u.password@ == self.password@
            }),
    {
        let mut errors: Vec<String> = Vec::new();
        let first_name = trimmed(self.first_name.as_str());
        let last_name = trimmed(self.last_name.as_str());
        let role = match trimmed_nonblank(self.role) {
            Some(r) => r,
            None => String::from_str("user"),
        };
        proof {
            assert(views(errors@) =~= Seq::<Seq<char>>::empty());
        }
        check_name(
            &self.first_name,
            "first_name must not be empty",
            "first_name must be at most 100 characters",
            &mut errors,
        );
        check_name(
            &self.last_name,
            "last_name must not be empty",
            "last_name must be at most 100 characters",
            &mut errors,
        );
        let ghost names = views(errors@);
        if role.unicode_len() > MAX_ROLE_LEN {
            report(&mut errors, String::from_str("role must be at most 50 characters"));
        }
        let ghost with_role = views(errors@);
        if self.password.unicode_len() < MIN_PASSWORD_LEN {
            report(&mut errors, String::from_str("password must be at least 8 characters"));
        } else if self.password.as_str().as_bytes().len() > MAX_PASSWORD_LEN {
            report(&mut errors, String::from_str("password must be at most 1024 bytes"));
        }
        proof {
            let req = self;
            let first = name_errors(
                req.first_name@,
                "first_name must not be empty"@,
                "first_name must be at most 100 characters"@,
            );
            let last = name_errors(
                req.last_name@,
                "last_name must not be empty"@,
                "last_name must be at most 100 characters"@,
            );
            assert(names =~= first + last);
            if user_role(req.role).len() > 50 {
                assert(with_role =~= first + last + seq!["role must be at most 50 characters"@]);
            } else {
                assert(with_role =~= first + last + Seq::<Seq<char>>::empty());
            }
            let password = if req.password@.len() < 8 {
                seq!["password must be at least 8 characters"@]
            } else if vstd::utf8::encode_utf8(req.password@).len() > 1024 {
                seq!["password must be at most 1024 bytes"@]
            } else {
                Seq::empty()
            };
            assert(views(errors@) =~= with_role + password);
            assert(views(errors@) =~= user_errors(req));
        }
        if errors.len() > 0 {
            return Err(ApiError::Validation(errors));
        }
        Ok(ValidatedUser { first_name, last_name, role, password: self.password })
    }
}

} // verus!
