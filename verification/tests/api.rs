use venue_flow::api::middleware::{
    auth_request_from_claims, get_activity_type, identity_of_token, token_of_request, AuthHeader,
    TokenClaims, get_lessor_and_user_id, get_lessor_id,
    get_organizer_id, get_user_id, option_string2i64, rental_lessor_gate, rental_organizer_gate,
    venue_gate, AuthRejection, GateDecision, UserAuthRequest,
};
use venue_flow::api::response_code::{get_code, CodeEnum};
use venue_flow::api::{default_service_handle_error, CustomResponse, CustomResponseError};
use venue_flow::rental::ActivityType;
use venue_flow::api::commands::{
    get_command, get_login_command, CreateRentalData, LoginData, LoginType, UserLoginType,
};
use venue_flow::time::Timestamp;

fn who(lessor: Option<i64>, organizer: Option<i64>) -> Option<UserAuthRequest> {
    Some(UserAuthRequest { user_id: 11, lessor_id: lessor, organizer_id: organizer })
}

#[test]
fn response_codes() {
    assert_eq!(get_code(CodeEnum::Success), 0);
    assert_eq!(get_code(CodeEnum::Other), 1);
    assert_eq!(get_code(CodeEnum::ServiceError), 2);
    assert_eq!(get_code(CodeEnum::NotFound), 3);
    assert_eq!(get_code(CodeEnum::FileInvaild), 1000);
    assert_eq!(get_code(CodeEnum::Ban), 2000);
    assert_eq!(get_code(CodeEnum::Unauthorized), 2001);
    assert_eq!(get_code(CodeEnum::BadRequest), 400);
    assert_eq!(get_code(CodeEnum::Forbidden), 403);
    assert_eq!(get_code(CodeEnum::MethodNotAllowed), 405);
}

#[test]
fn custom_responses() {
    let r = CustomResponse::new("hi", CodeEnum::Ban, Some(5));
    assert_eq!(r.message, "hi");
    assert_eq!(r.code, 2000);
    assert_eq!(r.body, Some(5));
    let s = CustomResponse::<u8>::success(None);
    assert_eq!(s.message, "Success");
    assert_eq!(s.code, 0);
    assert_eq!(s.body, None);
}

#[test]
fn errors_map_to_status_code_and_message() {
    let cases = vec![
        (CustomResponseError::ServiceError, 500, 2, "Server Error"),
        (CustomResponseError::Forbidden("f".to_string()), 403, 403, "f"),
        (CustomResponseError::Unauthorized("u".to_string()), 401, 2001, "u"),
        (CustomResponseError::NotFound("n".to_string()), 404, 3, "n"),
        (CustomResponseError::BadRequest("b".to_string()), 400, 400, "b"),
        (CustomResponseError::MethodNotAllowed("m".to_string()), 405, 405, "m"),
        (CustomResponseError::Other("o".to_string(), CodeEnum::Ban), 200, 2000, "o"),
    ];
    for (e, status, code, msg) in cases {
        let (s, body) = e.error_response();
        assert_eq!(s, status);
        assert_eq!(body.code, code);
        assert_eq!(body.message, msg);
        assert_eq!(body.body, None);
    }
    assert_eq!(CustomResponseError::ServiceError.to_string(), "Server error");
    assert_eq!(CustomResponseError::BadRequest("x".to_string()).to_string(), "x");
}

#[test]
fn unknown_path_is_not_found() {
    let (s, body) = default_service_handle_error();
    assert_eq!(s, 404);
    assert_eq!(body.code, 3);
    assert_eq!(body.message, "Request path is not found");
}

#[test]
fn claims_are_read_as_numbers() {
    assert_eq!(option_string2i64(None), Ok(None));
    assert_eq!(option_string2i64(Some("-42".to_string())), Ok(Some(-42)));
    assert_eq!(option_string2i64(Some("4x".to_string())), Err(AuthRejection::IllegalToken));
    assert_eq!(
        auth_request_from_claims("7", Some("3".to_string()), None),
        Ok(UserAuthRequest { user_id: 7, lessor_id: Some(3), organizer_id: None })
    );
    assert_eq!(auth_request_from_claims("x", None, None), Err(AuthRejection::IllegalToken));
    assert_eq!(
        auth_request_from_claims("7", None, Some("".to_string())),
        Err(AuthRejection::IllegalToken)
    );
}

#[test]
fn rejections_are_answered() {
    let (s, c, m) = AuthRejection::MissingToken.reply();
    assert_eq!((s, c, m.as_str()), (403, CodeEnum::Forbidden, "Access denied."));
    let (s, c, m) = AuthRejection::IllegalToken.reply();
    assert_eq!((s, c, m.as_str()), (401, CodeEnum::Unauthorized, "Token format is illegal."));
    let (s, c, m) = AuthRejection::MissingAppState.reply();
    assert_eq!((s, c, m.as_str()), (500, CodeEnum::ServiceError, "500 Server Error"));
}

#[test]
fn gates() {
    assert_eq!(
        rental_organizer_gate(None),
        GateDecision::Fail(403, CodeEnum::Forbidden, "Access denied.".to_string())
    );
    assert_eq!(
        rental_organizer_gate(who(Some(1), None)),
        GateDecision::Answer(400, CodeEnum::BadRequest, "Bad request".to_string())
    );
    assert_eq!(rental_organizer_gate(who(None, Some(2))), GateDecision::Continue);
    assert_eq!(
        rental_lessor_gate(who(None, Some(2))),
        GateDecision::Answer(403, CodeEnum::Forbidden, "Bad request".to_string())
    );
    assert_eq!(rental_lessor_gate(who(Some(1), None)), GateDecision::Continue);
    assert_eq!(
        venue_gate(who(None, None)),
        GateDecision::Answer(403, CodeEnum::Forbidden, "Forbidden".to_string())
    );
    assert_eq!(venue_gate(who(Some(1), None)), GateDecision::Continue);
}

#[test]
fn identities_from_the_request() {
    assert_eq!(get_user_id(who(None, None)), Ok(11));
    assert_eq!(
        get_user_id(None),
        Err(CustomResponseError::Unauthorized("Access denied".to_string()))
    );
    assert_eq!(get_organizer_id(who(None, Some(5))), Ok(5));
    assert_eq!(
        get_organizer_id(who(Some(1), None)),
        Err(CustomResponseError::Forbidden("Access denied".to_string()))
    );
    assert_eq!(get_lessor_id(who(Some(6), None)), Ok(6));
    assert_eq!(
        get_lessor_id(None),
        Err(CustomResponseError::Unauthorized("Access denied".to_string()))
    );
    assert_eq!(get_lessor_and_user_id(who(Some(6), None)), Ok((11, 6)));
    assert_eq!(
        get_lessor_and_user_id(who(None, Some(1))),
        Err(CustomResponseError::Forbidden("Access denied".to_string()))
    );
}

#[test]
fn activity_types_by_name() {
    assert_eq!(get_activity_type("all"), Ok(ActivityType::All));
    assert_eq!(get_activity_type("exhibition"), Ok(ActivityType::Exhibition));
    assert_eq!(get_activity_type("seminar"), Ok(ActivityType::Seminar));
    assert_eq!(
        get_activity_type("party"),
        Err(CustomResponseError::BadRequest("The activity type is wrong".to_string()))
    );
}

#[test]
fn rental_request_becomes_a_command() {
    let start = Timestamp::from_unix(1_000, 0).unwrap();
    let end = Timestamp::from_unix(2_000, 0).unwrap();
    let data = CreateRentalData {
        venue_id: 3,
        start_time: start,
        end_time: end,
        activity_type: "seminar".to_string(),
        request_comments: Some("quiet".to_string()),
    };
    let c = get_command(data.clone(), 8).unwrap();
    assert_eq!(c.venue_id, 3);
    assert_eq!(c.organizer_id, 8);
    assert_eq!(c.start_time, start);
    assert_eq!(c.end_time, end);
    assert_eq!(c.activity_type, ActivityType::Seminar);
    assert_eq!(c.request_comments, Some("quiet".to_string()));
    let bad = CreateRentalData { activity_type: "gala".to_string(), ..data };
    assert_eq!(
        get_command(bad, 8),
        Err(CustomResponseError::BadRequest("The activity type is wrong".to_string()))
    );
}

#[test]
fn login_requests_become_commands() {
    let by_name = LoginData {
        identifier: "olivia".to_string(),
        password: "pw".to_string(),
        login_type: LoginType::Username,
    };
    let c = get_login_command(by_name).unwrap();
    assert_eq!(c.login_type, UserLoginType::UserName("olivia".to_string()));
    assert_eq!(c.password, "pw");
    let by_mail = LoginData {
        identifier: "olivia@example.com".to_string(),
        password: "pw".to_string(),
        login_type: LoginType::Email,
    };
    let c = get_login_command(by_mail).unwrap();
    assert_eq!(c.login_type, UserLoginType::Email("olivia@example.com".to_string()));
    let bad_mail = LoginData {
        identifier: "not-a-mail".to_string(),
        password: "pw".to_string(),
        login_type: LoginType::Email,
    };
    match get_login_command(bad_mail) {
        Err(CustomResponseError::BadRequest(m)) => {
            assert!(m.starts_with("address: "));
            assert!(m.ends_with('\n'));
            assert!(m.len() > "address: \n".len());
        },
        other => panic!("unexpected {:?}", other),
    }
}

#[test]
fn request_checks_run_in_order() {
    assert_eq!(
        token_of_request(false, AuthHeader::Absent),
        Err(AuthRejection::MissingAppState)
    );
    assert_eq!(token_of_request(true, AuthHeader::Absent), Err(AuthRejection::MissingToken));
    assert_eq!(token_of_request(true, AuthHeader::NotText), Err(AuthRejection::IllegalToken));
    assert_eq!(token_of_request(true, AuthHeader::Token("t".to_string())), Ok("t".to_string()));
    assert_eq!(identity_of_token(Err("bad signature".to_string())), Err(AuthRejection::AccessDenied));
    let claims = TokenClaims { sub: "4".to_string(), lessor_id: None, organizer_id: Some("9".to_string()) };
    assert_eq!(
        identity_of_token(Ok(claims)),
        Ok(UserAuthRequest { user_id: 4, lessor_id: None, organizer_id: Some(9) })
    );
    let bad = TokenClaims { sub: "4".to_string(), lessor_id: Some("x".to_string()), organizer_id: None };
    assert_eq!(identity_of_token(Ok(bad)), Err(AuthRejection::IllegalToken));
}
