use trace_server::error::ApiError;
use trace_server::user::{CreateUserRequest, InsertUserRequest};

fn request(first: &str, last: &str, password: &str) -> InsertUserRequest {
    InsertUserRequest {
        first_name: first.to_string(),
        last_name: last.to_string(),
        role: None,
        password: password.to_string(),
    }
}

fn create_request(first: &str, last: &str, password: &str) -> CreateUserRequest {
    CreateUserRequest {
        first_name: first.to_string(),
        last_name: last.to_string(),
        role: None,
        password: password.to_string(),
    }
}

#[test]
fn user_tests_trims_names_and_defaults_the_role() {
    let validated = match request("  Ada  ", " Lovelace ", "correct horse").validate() {
        Ok(v) => v,
        Err(_) => panic!("should be valid"),
    };

    assert_eq!(validated.first_name, "Ada");
    assert_eq!(validated.last_name, "Lovelace");
    assert_eq!(validated.role, "user");
}

#[test]
fn user_tests_rejects_blank_names_and_short_passwords_together() {
    let errors = match request("   ", "Lovelace", "short").validate() {
        Err(ApiError::Validation(errors)) => errors,
        Err(other) => panic!("expected validation errors, got {other:?}"),
        Ok(_) => panic!("expected validation to fail"),
    };

    assert_eq!(errors.len(), 2);
    assert!(errors.iter().any(|e| e.contains("first_name")));
    assert!(errors.iter().any(|e| e.contains("password")));
}

#[test]
fn user_tests_blank_role_falls_back_to_the_default() {
    let mut req = request("Ada", "Lovelace", "correct horse");
    req.role = Some("   ".to_string());

    match req.validate() {
        Ok(v) => assert_eq!(v.role, "user"),
        Err(_) => panic!("should be valid"),
    }
}

#[test]
fn models_trims_names_and_defaults_the_role() {
    let validated = match create_request("  Ada  ", " Lovelace ", "correct horse").validate() {
        Ok(v) => v,
        Err(_) => panic!("should be valid"),
    };

    assert_eq!(validated.first_name, "Ada");
    assert_eq!(validated.last_name, "Lovelace");
    assert_eq!(validated.role, "user");
}

#[test]
fn models_rejects_blank_names_and_short_passwords_together() {
    let errors = match create_request("   ", "Lovelace", "short").validate() {
        Err(ApiError::Validation(errors)) => errors,
        Err(other) => panic!("expected validation errors, got {other:?}"),
        Ok(_) => panic!("expected validation to fail"),
    };

    assert_eq!(errors.len(), 2);
    assert!(errors.iter().any(|e| e.contains("first_name")));
    assert!(errors.iter().any(|e| e.contains("password")));
}

#[test]
fn models_blank_role_falls_back_to_the_default() {
    let mut req = create_request("Ada", "Lovelace", "correct horse");
    req.role = Some("   ".to_string());

    match req.validate() {
        Ok(v) => assert_eq!(v.role, "user"),
        Err(_) => panic!("should be valid"),
    }
}

#[test]
fn keeps_a_given_role_trimmed() {
    let mut req = request("Ada", "Lovelace", "correct horse");
    req.role = Some("  admin ".to_string());
    match req.validate() {
        Ok(v) => {
            assert_eq!(v.role, "admin");
            assert_eq!(v.password, "correct horse");
        }
        Err(_) => panic!("should be valid"),
    }
}

#[test]
fn reports_each_length_limit_with_its_message() {
    let mut req = request(&"a".repeat(101), &"b".repeat(101), &"p".repeat(1025));
    req.role = Some("r".repeat(51));
    let errors = match req.validate() {
        Err(ApiError::Validation(errors)) => errors,
        _ => panic!("expected validation to fail"),
    };
    assert_eq!(
        errors,
        vec![
            "first_name must be at most 100 characters".to_string(),
            "last_name must be at most 100 characters".to_string(),
            "role must be at most 50 characters".to_string(),
            "password must be at most 1024 bytes".to_string(),
        ]
    );
}

#[test]
fn counts_password_characters_but_caps_its_bytes() {
    // Eight characters of two bytes each: long enough, and well under the cap.
    let req = request("Ada", "Lovelace", "éééééééé");
    assert!(req.validate().is_ok());

    // Seven characters, however many bytes, is too short.
    let errors = match request("Ada", "Lovelace", "ééééééé").validate() {
        Err(ApiError::Validation(errors)) => errors,
        _ => panic!("expected validation to fail"),
    };
    assert_eq!(errors, vec!["password must be at least 8 characters".to_string()]);

    // 600 two-byte characters are 1200 bytes: over the byte cap.
    let errors = match request("Ada", "Lovelace", &"é".repeat(600)).validate() {
        Err(ApiError::Validation(errors)) => errors,
        _ => panic!("expected validation to fail"),
    };
    assert_eq!(errors, vec!["password must be at most 1024 bytes".to_string()]);
}

#[test]
fn trims_unicode_white_space_too() {
    let validated = match request("\u{3000}Ada\u{a0}", "\tLovelace\n", "correct horse").validate() {
        Ok(v) => v,
        Err(_) => panic!("should be valid"),
    };
    assert_eq!(validated.first_name, "Ada");
    assert_eq!(validated.last_name, "Lovelace");
}
