//! Validation helpers shared by every request type.
//!
//! They all collect into a caller-owned error list rather than returning on
//! the first problem, which is what lets one response name every fault in a
//! request at once — across every segment of a journey, not just the first.

use vstd::prelude::*;
use vstd::string::*;

use crate::text::{
    all_alnum, concat, concat3, decimal, decimal_string, is_all_ascii_alphanumeric, is_one_of, join,
    joined, lemma_views_push, lower, str_views, to_lower, to_upper, trim, trimmed, upper, views,
};

verus! {

/// What a JSON text turns out to hold, as far as validation cares.
#[derive(Clone, Copy, PartialEq, Eq, Structural, Debug)]
pub enum JsonShape {
    Null,
    Object,
    /// An array, a string, a number or a boolean.
    Other,
    /// Not JSON at all.
    Malformed,
}

/// The shape `serde_json` reads in a JSON text.
pub uninterp spec fn json_shape_of(text: Seq<char>) -> JsonShape;

/// Parses `text` with `serde_json::from_str::<serde_json::Value>` and tells the
/// resulting value's variant apart. The contract only names the outcome: which
/// texts `serde_json` accepts, and as what, is left to that crate.
#[verifier::external_body]
pub(crate) fn json_shape(text: &str) -> (r: JsonShape)
    ensures
        r == json_shape_of(text@),
{
    match serde_json::from_str::<serde_json::Value>(text) {
        Ok(serde_json::Value::Null) => JsonShape::Null,
        Ok(serde_json::Value::Object(_)) => JsonShape::Object,
        Ok(_) => JsonShape::Other,
        Err(_) => JsonShape::Malformed,
    }
}

/// The views of an optional string.
pub open spec fn opt_view(o: Option<String>) -> Option<Seq<char>> {
    match o {
        Some(s) => Some(s@),
        None => None,
    }
}

/// Append one message to an error list.
pub fn report(errors: &mut Vec<String>, message: String)
    ensures
        views(final(errors)@) == views(old(errors)@).push(message@),
{
    errors.push(message);
    proof {
        lemma_views_push(old(errors)@, message);
    }
}

/// `prefix.name`, or just `name` when there is no prefix.
pub open spec fn field_path(prefix: Seq<char>, name: Seq<char>) -> Seq<char> {
    if prefix.len() == 0 {
        name
    } else {
        prefix + seq!['.'] + name
    }
}

/// Join a nesting prefix to a field name. A flight now arrives inside a journey
/// segment, so its errors have to say *which* segment: `segments[2].flight.origin`
/// rather than a bare `origin`.
pub fn field(prefix: &str, name: &str) -> (r: String)
    ensures
        r@ == field_path(prefix@, name@),
{
    if prefix.unicode_len() == 0 {
        String::from_str(name)
    } else {
        let out = concat3(prefix, ".", name);
        proof {
            reveal_strlit(".");
            assert(out@ =~= prefix@ + seq!['.'] + name@);
        }
        out
    }
}

/// The normalised form of a fixed-width code: trimmed and upper-cased.
pub open spec fn code_value(value: Seq<char>) -> Seq<char> {
    upper(trim(value))
}

pub open spec fn code_is_valid(value: Seq<char>, len: nat) -> bool {
    code_value(value).len() == len && all_alnum(code_value(value))
}

pub open spec fn code_message(field: Seq<char>, len: nat) -> Seq<char> {
    field + " must be "@ + decimal(len) + " alphanumeric characters"@
}

/// What `fixed_code` reports about `value`.
#[verifier::opaque]
pub open spec fn code_errors(value: Seq<char>, field: Seq<char>, len: nat) -> Seq<Seq<char>> {
    if code_is_valid(value, len) {
        Seq::empty()
    } else {
        seq![code_message(field, len)]
    }
}

/// Normalise a fixed-width alphanumeric code (IATA, ICAO, ISO country) and
/// record a message if it is the wrong shape. Returns the normalised value
/// either way so validation can carry on and report every problem at once.
pub fn fixed_code(value: &str, field: &str, len: usize, errors: &mut Vec<String>) -> (r: String)
    ensures
        r@ == code_value(value@),
        views(final(errors)@) == views(old(errors)@) + code_errors(value@, field@, len as nat),
{
    proof {
        reveal(code_errors);
    }
    let t = trimmed(value);
    let code = to_upper(t.as_str());
    if code.unicode_len() != len || !is_all_ascii_alphanumeric(code.as_str()) {
        let mut message = concat(field, " must be ");
        let digits = decimal_string(len as u64);
        message.append(digits.as_str());
        message.append(" alphanumeric characters");
        report(errors, message);
        proof {
            assert(views(final(errors)@) =~= views(old(errors)@) + code_errors(
                value@,
                field@,
                len as nat,
            ));
        }
    } else {
        proof {
            assert(views(errors@) =~= views(old(errors)@) + code_errors(value@, field@, len as nat));
        }
    }
    code
}

/// An optional string trimmed, with blank treated as absent.
pub open spec fn trimmed_opt(value: Option<String>) -> Option<Seq<char>> {
    match value {
        Some(s) => if trim(s@).len() == 0 {
            None
        } else {
            Some(trim(s@))
        },
        None => None,
    }
}

pub open spec fn too_long_message(field: Seq<char>, max: nat) -> Seq<char> {
    field + " must be at most "@ + decimal(max) + " characters"@
}

/// What `optional_text` reports about `value`.
#[verifier::opaque]
pub open spec fn text_errors(value: Option<String>, field: Seq<char>, max: nat) -> Seq<
    Seq<char>,
> {
    match trimmed_opt(value) {
        Some(t) => if t.len() > max {
            seq![too_long_message(field, max)]
        } else {
            Seq::empty()
        },
        None => Seq::empty(),
    }
}

/// Trim an optional string and keep it only if something is left.
pub fn trimmed_nonblank(value: Option<String>) -> (r: Option<String>)
    ensures
        opt_view(r) == trimmed_opt(value),
{
    match value {
        Some(s) => {
            let t = trimmed(s.as_str());
            if t.unicode_len() == 0 {
                None
            } else {
                Some(t)
            }
        },
        None => None,
    }
}

/// Trim an optional string, treat blank as absent, and length-check the rest.
pub fn optional_text(value: Option<String>, field: &str, max: usize, errors: &mut Vec<String>) -> (r:
    Option<String>)
    ensures
        opt_view(r) == trimmed_opt(value),
        views(final(errors)@) == views(old(errors)@) + text_errors(value, field@, max as nat),
{
    proof {
        reveal(text_errors);
    }
    let value_copy = trimmed_nonblank(value);
    match value_copy {
        Some(t) => {
            if t.unicode_len() > max {
                let mut message = concat(field, " must be at most ");
                let digits = decimal_string(max as u64);
                message.append(digits.as_str());
                message.append(" characters");
                report(errors, message);
                proof {
                    assert(views(final(errors)@) =~= views(old(errors)@) + text_errors(
                        value,
                        field@,
                        max as nat,
                    ));
                }
            } else {
                proof {
                    assert(views(errors@) =~= views(old(errors)@) + text_errors(
                        value,
                        field@,
                        max as nat,
                    ));
                }
            }
            Some(t)
        },
        None => {
            proof {
                assert(views(errors@) =~= views(old(errors)@) + text_errors(
                    value,
                    field@,
                    max as nat,
                ));
            }
            None
        },
    }
}

/// The value `one_of` settles on: the caller's, trimmed and lower-cased, or
/// `default` when the caller's is absent or blank.
pub open spec fn chosen_value(value: Option<String>, default: Seq<char>) -> Seq<char> {
    match value {
        Some(s) => if trim(s@).len() == 0 {
            default
        } else {
            lower(trim(s@))
        },
        None => default,
    }
}

pub open spec fn one_of_message(field: Seq<char>, allowed: Seq<Seq<char>>) -> Seq<char> {
    field + " must be one of: "@ + joined(allowed, ", "@)
}

/// What `one_of` reports.
#[verifier::opaque]
pub open spec fn one_of_errors(
    value: Option<String>,
    field: Seq<char>,
    allowed: Seq<Seq<char>>,
    default: Seq<char>,
) -> Seq<Seq<char>> {
    if allowed.contains(chosen_value(value, default)) {
        Seq::empty()
    } else {
        seq![one_of_message(field, allowed)]
    }
}

/// The message listing the values a field allows.
pub fn allowed_message(field: &str, allowed: &[&str]) -> (r: String)
    ensures
        r@ == one_of_message(field@, str_views(allowed@)),
{
    let mut message = concat(field, " must be one of: ");
    let list = join(allowed, ", ");
    message.append(list.as_str());
    message
}

/// Normalise an optional enum-ish string against its allowed set, falling back
/// to `default` when absent.
pub fn one_of(
    value: Option<String>,
    field: &str,
    allowed: &[&str],
    default: &str,
    errors: &mut Vec<String>,
) -> (r: String)
    ensures
        r@ == chosen_value(value, default@),
        views(final(errors)@) == views(old(errors)@) + one_of_errors(
            value,
            field@,
            str_views(allowed@),
            default@,
        ),
{
    proof {
        reveal(one_of_errors);
    }
    let chosen = match &value {
        Some(s) => {
            let t = trimmed(s.as_str());
            if t.unicode_len() == 0 {
                String::from_str(default)
            } else {
                to_lower(t.as_str())
            }
        },
        None => String::from_str(default),
    };
    proof {
        if let Some(s) = value {
            if trim(s@).len() != 0 {
                assert(lower(trim(s@)).len() == trim(s@).len());
            }
        }
    }
    if !is_one_of(allowed, chosen.as_str()) {
        report(errors, allowed_message(field, allowed));
        proof {
            assert(views(final(errors)@) =~= views(old(errors)@) + one_of_errors(
                value,
                field@,
                str_views(allowed@),
                default@,
            ));
        }
    } else {
        proof {
            assert(views(errors@) =~= views(old(errors)@) + one_of_errors(
                value,
                field@,
                str_views(allowed@),
                default@,
            ));
        }
    }
    chosen
}

/// The JSON text `object_or_default` keeps.
pub open spec fn object_value(value: Option<String>) -> Seq<char> {
    match value {
        Some(t) => if json_shape_of(t@) == JsonShape::Object {
            t@
        } else {
            "{}"@
        },
        None => "{}"@,
    }
}

/// What `object_or_default` reports: anything but an object or `null`.
#[verifier::opaque]
pub open spec fn object_errors(value: Option<String>, field: Seq<char>) -> Seq<Seq<char>> {
    match value {
        Some(t) => if json_shape_of(t@) == JsonShape::Object || json_shape_of(t@)
            == JsonShape::Null {
            Seq::empty()
        } else {
            seq![field + " must be a JSON object"@]
        },
        None => Seq::empty(),
    }
}

/// What a metadata text becomes once `serde_json` has read its shape: an
/// object is kept as sent, and anything else becomes `{}`; anything but an
/// object or `null` is reported.
pub fn keep_object(text: String, shape: JsonShape, field: &str, errors: &mut Vec<String>) -> (r:
    String)
    ensures
        r@ == (if shape == JsonShape::Object {
            text@
        } else {
            "{}"@
        }),
        views(final(errors)@) == views(old(errors)@) + (if shape == JsonShape::Object || shape
            == JsonShape::Null {
            Seq::<Seq<char>>::empty()
        } else {
            seq![field@ + " must be a JSON object"@]
        }),
{
    match shape {
        JsonShape::Object => {
            proof {
                assert(views(errors@) =~= views(old(errors)@) + Seq::<Seq<char>>::empty());
            }
            text
        },
        JsonShape::Null => {
            proof {
                assert(views(errors@) =~= views(old(errors)@) + Seq::<Seq<char>>::empty());
            }
            String::from_str("{}")
        },
        _ => {
            let message = concat(field, " must be a JSON object");
            let ghost m = message@;
            report(errors, message);
            proof {
                assert(views(final(errors)@) =~= views(old(errors)@) + seq![m]);
            }
            String::from_str("{}")
        },
    }
}

/// Metadata has to be a JSON object — an array or a bare scalar in a column
/// meant for key/value extras is almost always a client bug.
///
/// The value travels as JSON text; absent and `null` both become `{}`.
pub fn object_or_default(value: Option<String>, field: &str, errors: &mut Vec<String>) -> (r:
    String)
    ensures
        r@ == object_value(value),
        views(final(errors)@) == views(old(errors)@) + object_errors(value, field@),
{
    proof {
        reveal(object_errors);
    }
    match value {
        None => {
            proof {
                assert(views(errors@) =~= views(old(errors)@) + object_errors(value, field@));
            }
            String::from_str("{}")
        },
        Some(text) => {
            let shape = json_shape(text.as_str());
            keep_object(text, shape, field, errors)
        },
    }
}

} // verus!
