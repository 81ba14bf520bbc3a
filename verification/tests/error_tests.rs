use trace_server::error::{
    check_violation, is_code, segment_constraint_error, unique_violation, ApiError, DbError,
};

fn db(code: Option<&str>, constraint: Option<&str>) -> DbError {
    DbError {
        code: code.map(|c| c.to_string()),
        constraint: constraint.map(|c| c.to_string()),
        message: "driver says no".to_string(),
    }
}

#[test]
fn each_error_kind_has_its_status_and_code() {
    let validation = ApiError::Validation(vec!["a".to_string(), "b".to_string()]).into_response();
    assert_eq!(validation.status, 422);
    assert_eq!(validation.error, "validation_failed");
    assert_eq!(validation.details, Some(vec!["a".to_string(), "b".to_string()]));

    let missing = ApiError::NotFound.into_response();
    assert_eq!(missing.status, 404);
    assert_eq!(missing.error, "not_found");
    assert_eq!(missing.details, None);

    let conflict = ApiError::Conflict("taken".to_string()).into_response();
    assert_eq!(conflict.status, 409);
    assert_eq!(conflict.error, "conflict");
    assert_eq!(conflict.details, Some(vec!["taken".to_string()]));
}

#[test]
fn database_and_internal_failures_are_an_opaque_500() {
    let database = ApiError::Database(db(Some("XX000"), None)).into_response();
    assert_eq!(database.status, 500);
    assert_eq!(database.error, "internal_error");
    assert_eq!(database.details, None);

    let internal = ApiError::Internal("boom".to_string()).into_response();
    assert_eq!(internal.status, 500);
    assert_eq!(internal.error, "internal_error");
    assert_eq!(internal.details, None);
}

#[test]
fn a_unique_violation_on_insert_is_a_conflict() {
    match ApiError::from_insert(db(Some("23505"), Some("users_api_key_key"))) {
        ApiError::Conflict(message) => {
            assert_eq!(message, "a user with that api key already exists")
        }
        other => panic!("expected a conflict, got {other:?}"),
    }
    assert!(matches!(
        ApiError::from_insert(db(Some("23503"), None)),
        ApiError::Database(_)
    ));
}

#[test]
fn a_recognised_unique_violation_is_described() {
    let describe = |constraint: &str| match constraint {
        "airlines_icao_code_key" => {
            Some("airline.icao_code already belongs to a different airline".to_string())
        }
        _ => None,
    };

    match unique_violation(db(Some("23505"), Some("airlines_icao_code_key")), describe) {
        ApiError::Conflict(message) => {
            assert_eq!(message, "airline.icao_code already belongs to a different airline")
        }
        other => panic!("expected a conflict, got {other:?}"),
    }
    assert!(matches!(
        unique_violation(db(Some("23505"), Some("something_else")), describe),
        ApiError::Database(_)
    ));
    assert!(matches!(
        unique_violation(db(Some("23514"), Some("airlines_icao_code_key")), describe),
        ApiError::Database(_)
    ));
}

#[test]
fn a_check_violation_names_the_constraint() {
    match check_violation(db(Some("23514"), Some("flights_arrival_after_departure"))) {
        ApiError::Validation(errors) => assert_eq!(
            errors,
            vec!["the flight violates flights_arrival_after_departure".to_string()]
        ),
        other => panic!("expected validation errors, got {other:?}"),
    }
    assert!(matches!(
        check_violation(db(Some("23514"), None)),
        ApiError::Database(_)
    ));
}

#[test]
fn a_segment_constraint_names_the_segment() {
    match segment_constraint_error(db(Some("23503"), Some("legs_origin_fkey")), "segments[2]") {
        ApiError::Validation(errors) => {
            assert_eq!(errors, vec!["segments[2] violates legs_origin_fkey".to_string()])
        }
        other => panic!("expected validation errors, got {other:?}"),
    }
    assert!(matches!(
        segment_constraint_error(db(Some("23505"), Some("x")), "segments[0]"),
        ApiError::Database(_)
    ));
}

#[test]
fn codes_compare_exactly() {
    assert!(is_code(&db(Some("23505"), None), "23505"));
    assert!(!is_code(&db(Some("2350"), None), "23505"));
    assert!(!is_code(&db(None, None), "23505"));
}
