use trace_server::crypto::{api_key_from, API_KEY_PREFIX};
use trace_server::error::ApiError;
use trace_server::store::journeys::unknown_user;
use trace_server::text::{join, signed_decimal_string, to_upper, trimmed};
use trace_server::validation::{
    allowed_message, field, fixed_code, keep_object, object_or_default, one_of, optional_text,
    JsonShape,
};

#[test]
fn a_field_is_named_under_its_prefix() {
    assert_eq!(field("segments[2].flight", "origin"), "segments[2].flight.origin");
    assert_eq!(field("", "origin"), "origin");
}

#[test]
fn a_code_is_trimmed_and_upper_cased_and_checked() {
    let mut errors = Vec::new();
    assert_eq!(fixed_code(" jfk ", "origin.iata_code", 3, &mut errors), "JFK");
    assert!(errors.is_empty());

    assert_eq!(fixed_code("J-K", "origin.iata_code", 3, &mut errors), "J-K");
    assert_eq!(errors, vec!["origin.iata_code must be 3 alphanumeric characters".to_string()]);
}

#[test]
fn optional_text_drops_blanks_and_reports_what_is_too_long() {
    let mut errors = Vec::new();
    assert_eq!(optional_text(Some("   ".to_string()), "notes", 5, &mut errors), None);
    assert_eq!(optional_text(None, "notes", 5, &mut errors), None);
    assert_eq!(
        optional_text(Some(" gate 4 ".to_string()), "gate", 10, &mut errors),
        Some("gate 4".to_string())
    );
    assert!(errors.is_empty());

    assert_eq!(
        optional_text(Some("terminal 12".to_string()), "gate", 5, &mut errors),
        Some("terminal 12".to_string())
    );
    assert_eq!(errors, vec!["gate must be at most 5 characters".to_string()]);
}

#[test]
fn one_of_defaults_and_lists_what_is_allowed() {
    let allowed = ["planned", "active"];
    let mut errors = Vec::new();
    assert_eq!(one_of(None, "status", &allowed, "planned", &mut errors), "planned");
    assert_eq!(
        one_of(Some(" Active ".to_string()), "status", &allowed, "planned", &mut errors),
        "active"
    );
    assert!(errors.is_empty());

    one_of(Some("paused".to_string()), "status", &allowed, "planned", &mut errors);
    assert_eq!(errors, vec!["status must be one of: planned, active".to_string()]);
    assert_eq!(allowed_message("mode", &["walk", "bike"]), "mode must be one of: walk, bike");
}

#[test]
fn metadata_is_kept_only_when_it_is_an_object() {
    let mut errors = Vec::new();
    assert_eq!(object_or_default(None, "metadata", &mut errors), "{}");
    assert_eq!(object_or_default(Some("null".to_string()), "metadata", &mut errors), "{}");
    assert_eq!(
        object_or_default(Some("{\"a\":1}".to_string()), "metadata", &mut errors),
        "{\"a\":1}"
    );
    assert!(errors.is_empty());

    assert_eq!(object_or_default(Some("[1]".to_string()), "metadata", &mut errors), "{}");
    assert_eq!(object_or_default(Some("{nope".to_string()), "metadata", &mut errors), "{}");
    assert_eq!(
        errors,
        vec![
            "metadata must be a JSON object".to_string(),
            "metadata must be a JSON object".to_string(),
        ]
    );
}

#[test]
fn a_shape_decides_what_metadata_becomes() {
    let mut errors = Vec::new();
    assert_eq!(keep_object("{}".to_string(), JsonShape::Object, "m", &mut errors), "{}");
    assert_eq!(keep_object("null".to_string(), JsonShape::Null, "m", &mut errors), "{}");
    assert!(errors.is_empty());
    assert_eq!(keep_object("3".to_string(), JsonShape::Other, "m", &mut errors), "{}");
    assert_eq!(keep_object("{".to_string(), JsonShape::Malformed, "m", &mut errors), "{}");
    assert_eq!(errors.len(), 2);
}

#[test]
fn text_helpers_do_what_their_names_say() {
    assert_eq!(trimmed("\t Ada \n"), "Ada");
    assert_eq!(to_upper("jfk1"), "JFK1");
    assert_eq!(join(&["a", "b", "c"], ", "), "a, b, c");
    assert_eq!(signed_decimal_string(-42), "-42");
    assert_eq!(signed_decimal_string(i64::MIN), "-9223372036854775808");
}

#[test]
fn a_key_is_the_prefix_then_the_encoding() {
    assert_eq!(api_key_from("abc"), format!("{API_KEY_PREFIX}abc"));
}

#[test]
fn an_unknown_user_is_a_validation_failure() {
    match unknown_user("0000") {
        ApiError::Validation(errors) => {
            assert_eq!(errors, vec!["user_id 0000 does not exist".to_string()])
        }
        other => panic!("expected validation errors, got {other:?}"),
    }
}
