use venue_flow::error::{DomainCoreError, UserError};
use venue_flow::user::user_update::UserUpdate;
use venue_flow::user::UserGender;

// --- State and Constructor Tests ---

#[test]
fn test_new_is_empty_by_default() {
    let update = UserUpdate::new();
    assert!(update.is_empty(), "A new UserUpdate should be empty");
}

#[test]
fn test_is_empty_is_false_if_any_field_is_set() {
    let mut update = UserUpdate::new();
    update.username = Some("test".to_string());
    assert!(!update.is_empty(), "Should not be empty if username is set");

    let mut update = UserUpdate::new();
    update.gender = Some(UserGender::Male);
    assert!(!update.is_empty(), "Should not be empty if gender is set");
}

// --- `valid_update` Method Tests ---

#[test]
fn test_valid_update_fails_on_empty_struct() {
    let update = UserUpdate::new();
    let result = update.valid_update();

    assert!(matches!(
        result,
        Err(DomainCoreError::MustIncludeFieldForUpdate)
    ));
}

#[test]
fn test_valid_update_succeeds_with_valid_data() {
    let update = UserUpdate {
        username: Some("a_valid_username".to_string()),
        email: Some("valid@example.com".to_string()),
        ..Default::default()
    };
    assert!(update.valid_update().is_ok());
}

#[test]
fn test_valid_update_succeeds_with_only_gender() {
    // Gender is not validated, so it should pass on its own
    let update = UserUpdate {
        gender: Some(UserGender::Nonbinary),
        ..Default::default()
    };
    assert!(update.valid_update().is_ok());
}

// --- Individual Field Validation Failure Tests ---

#[test]
fn test_valid_update_fails_on_short_username() {
    let update = UserUpdate {
        username: Some("shor".to_string()),
        ..Default::default()
    };
    let result = update.valid_update();
    assert!(matches!(
        result,
        Err(DomainCoreError::UserError(UserError::FieldValidatedFail(_)))
    ));
}

#[test]
fn test_valid_update_fails_on_invalid_email() {
    let update = UserUpdate {
        email: Some("not-an-email".to_string()),
        ..Default::default()
    };
    let result = update.valid_update();
    assert!(matches!(
        result,
        Err(DomainCoreError::UserError(UserError::FieldValidatedFail(_)))
    ));
}

#[test]
fn test_valid_update_fails_on_short_password() {
    let update = UserUpdate {
        password: Some("short".to_string()),
        ..Default::default()
    };
    let result = update.valid_update();
    assert!(matches!(
        result,
        Err(DomainCoreError::UserError(UserError::FieldValidatedFail(_)))
    ));
}

#[test]
fn test_valid_update_fails_on_invalid_avatar_url() {
    let update = UserUpdate {
        avatar: Some("not a url".to_string()),
        ..Default::default()
    };
    let result = update.valid_update();
    assert!(matches!(
        result,
        Err(DomainCoreError::UserError(UserError::FieldValidatedFail(_)))
    ));
}

#[test]
fn test_valid_update_fails_on_short_introduce() {
    let update = UserUpdate {
        introduce: Some("short".to_string()),
        ..Default::default()
    };
    let result = update.valid_update();
    assert!(matches!(
        result,
        Err(DomainCoreError::UserError(UserError::FieldValidatedFail(_)))
    ));
}

#[test]
fn test_error_message_contains_path_and_message() {
    let update = UserUpdate {
        email: Some("invalid-email".to_string()),
        ..Default::default()
    };
    let result = update.valid_update();

    if let Err(DomainCoreError::UserError(UserError::FieldValidatedFail(msg))) = result {
        assert!(
            msg.contains("email:"),
            "Error message should contain the field path 'email'"
        );
        assert!(
            msg.contains("not a valid email"),
            "Error message should contain the validation error"
        );
    } else {
        panic!("Expected FieldValidatedFail error");
    }
}

// --- Exact report texts ---

#[test]
fn user_update_report_lists_every_failed_field_in_order() {
    let update = UserUpdate {
        username: Some("shor".to_string()),
        password: Some("short".to_string()),
        introduce: Some("x".repeat(201)),
        ..Default::default()
    };
    match update.valid_update() {
        Err(DomainCoreError::UserError(UserError::FieldValidatedFail(msg))) => assert_eq!(
            msg,
            "username:length is lower than 5;password:length is lower than 8;introduce:length is greater than 200;"
        ),
        other => panic!("unexpected {:?}", other),
    }
}

#[test]
fn user_update_email_report_has_reason() {
    let update = UserUpdate {
        email: Some("invalid-email".to_string()),
        ..Default::default()
    };
    match update.valid_update() {
        Err(DomainCoreError::UserError(UserError::FieldValidatedFail(msg))) => {
            assert_eq!(msg, "email:not a valid email: value is missing `@`;")
        },
        other => panic!("unexpected {:?}", other),
    }
}

#[test]
fn user_update_length_counts_bytes() {
    // Five characters but ten bytes: long enough for the username rule.
    let update = UserUpdate {
        username: Some("ééééé".to_string()),
        ..Default::default()
    };
    assert!(update.valid_update().is_ok());
    // Three characters, six bytes: still long enough.
    let update = UserUpdate {
        username: Some("ééé".to_string()),
        ..Default::default()
    };
    assert!(update.valid_update().is_ok());
    // Four ASCII characters: too short.
    let update = UserUpdate {
        username: Some("abcd".to_string()),
        ..Default::default()
    };
    assert!(update.valid_update().is_err());
}

#[test]
fn user_update_bounds_are_inclusive() {
    let update = UserUpdate {
        username: Some("abcde".to_string()),
        password: Some("12345678".to_string()),
        introduce: Some("x".repeat(200)),
        ..Default::default()
    };
    assert!(update.valid_update().is_ok());
    let update = UserUpdate {
        password: Some("x".repeat(51)),
        ..Default::default()
    };
    match update.valid_update() {
        Err(DomainCoreError::UserError(UserError::FieldValidatedFail(msg))) => {
            assert_eq!(msg, "password:length is greater than 50;")
        },
        other => panic!("unexpected {:?}", other),
    }
}

#[test]
fn user_update_avatar_url_message() {
    let update = UserUpdate {
        avatar: Some("not a url".to_string()),
        ..Default::default()
    };
    match update.valid_update() {
        Err(DomainCoreError::UserError(UserError::FieldValidatedFail(msg))) => {
            assert!(msg.starts_with("avatar:not a valid url: "));
            assert!(msg.ends_with(';'));
        },
        other => panic!("unexpected {:?}", other),
    }
    let update = UserUpdate {
        avatar: Some("https://example.com/a.png".to_string()),
        ..Default::default()
    };
    assert!(update.valid_update().is_ok());
}
