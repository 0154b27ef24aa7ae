use register_user::handler::HandlerAction;
use register_user::handler::ProviderStep;
use register_user::handler::after_create_user;
use register_user::handler::after_set_password;
use register_user::handler::handle_parsed_request;
use register_user::json::error_body_text;
use register_user::json::json_quoted_text;
use register_user::json::success_body_text;
use register_user::provision::ProvisioningPlan;
use register_user::request::RegistrationRequest;
use register_user::response::HttpResponse;

/// Parses a request body the way the surrounding service does: a JSON
/// object with string fields `email`, `password`, `tenant_id` and an
/// optional `user_role`.
fn parse_body(body: &[u8]) -> Option<RegistrationRequest> {
    let v: serde_json::Value = serde_json::from_slice(body).ok()?;
    let obj = v.as_object()?;
    let email = obj.get("email")?.as_str()?.to_string();
    let password = obj.get("password")?.as_str()?.to_string();
    let tenant_id = obj.get("tenant_id")?.as_str()?.to_string();
    let user_role = match obj.get("user_role") {
        None => None,
        Some(serde_json::Value::Null) => None,
        Some(r) => Some(r.as_str()?.to_string()),
    };
    Some(RegistrationRequest { email, password, tenant_id, user_role })
}

fn respond_status(action: &HandlerAction) -> u16 {
    match action {
        HandlerAction::Respond(resp) => resp.status,
        _ => panic!("expected an immediate response"),
    }
}

fn pool() -> Option<String> {
    Some("us-east-1_TestPool".to_string())
}

#[test]
fn test_invalid_request_body() {
    let action = handle_parsed_request(parse_body(b""), None);
    assert_eq!(respond_status(&action), 400);
}

#[test]
fn test_missing_required_fields() {
    let body = r#"{"email": "", "password": "", "tenant_id": ""}"#;
    let action = handle_parsed_request(parse_body(body.as_bytes()), None);
    assert_eq!(respond_status(&action), 400);
}

#[test]
fn test_invalid_email_format() {
    let body = r#"{"email": "invalid-email", "password": "password123", "tenant_id": "tenant1"}"#;
    let action = handle_parsed_request(parse_body(body.as_bytes()), None);
    assert_eq!(respond_status(&action), 400);
}

#[test]
fn test_password_too_short() {
    let body = r#"{"email": "test@example.com", "password": "short", "tenant_id": "tenant1"}"#;
    let action = handle_parsed_request(parse_body(body.as_bytes()), None);
    assert_eq!(respond_status(&action), 400);
}

fn expect_response(action: HandlerAction) -> HttpResponse {
    match action {
        HandlerAction::Respond(resp) => resp,
        _ => panic!("expected an immediate response"),
    }
}

#[test]
fn empty_body_reports_invalid_request() {
    let resp = expect_response(handle_parsed_request(parse_body(b""), pool()));
    assert_eq!(resp.status, 400);
    assert_eq!(resp.content_type, "application/json");
    assert_eq!(
        resp.body,
        r#"{"error":"INVALID_REQUEST","message":"Invalid request body"}"#
    );
}

#[test]
fn non_object_body_reports_invalid_request() {
    let resp = expect_response(handle_parsed_request(parse_body(b"[1,2,3]"), pool()));
    assert_eq!(resp.status, 400);
    assert_eq!(
        resp.body,
        r#"{"error":"INVALID_REQUEST","message":"Invalid request body"}"#
    );
}

fn request(email: &str, password: &str, tenant_id: &str) -> RegistrationRequest {
    RegistrationRequest {
        email: email.to_string(),
        password: password.to_string(),
        tenant_id: tenant_id.to_string(),
        user_role: None,
    }
}

#[test]
fn each_empty_required_field_reports_validation_error() {
    let cases = vec![
        request("", "password123", "tenant1"),
        request("test@example.com", "", "tenant1"),
        request("test@example.com", "password123", ""),
    ];
    for req in cases {
        let resp = expect_response(handle_parsed_request(Some(req), pool()));
        assert_eq!(resp.status, 400);
        assert_eq!(
            resp.body,
            r#"{"error":"VALIDATION_ERROR","message":"Email, password, and tenant_id are required"}"#
        );
    }
}

#[test]
fn email_without_at_sign_reports_validation_error() {
    let resp = expect_response(handle_parsed_request(
        Some(request("invalid-email", "password123", "tenant1")),
        pool(),
    ));
    assert_eq!(resp.status, 400);
    assert_eq!(
        resp.body,
        r#"{"error":"VALIDATION_ERROR","message":"Invalid email format"}"#
    );
}

#[test]
fn short_password_reports_validation_error() {
    let resp = expect_response(handle_parsed_request(
        Some(request("test@example.com", "1234567", "tenant1")),
        pool(),
    ));
    assert_eq!(resp.status, 400);
    assert_eq!(
        resp.body,
        r#"{"error":"VALIDATION_ERROR","message":"Password must be at least 8 characters long"}"#
    );
}

#[test]
fn eight_character_password_passes_validation() {
    let action = handle_parsed_request(
        Some(request("test@example.com", "12345678", "tenant1")),
        pool(),
    );
    assert!(matches!(action, HandlerAction::Provision(_)));
}

#[test]
fn missing_field_check_wins_over_email_and_password_checks() {
    let resp = expect_response(handle_parsed_request(
        Some(request("", "short", "tenant1")),
        pool(),
    ));
    assert_eq!(
        resp.body,
        r#"{"error":"VALIDATION_ERROR","message":"Email, password, and tenant_id are required"}"#
    );
}

#[test]
fn missing_pool_configuration_aborts_the_invocation() {
    let action = handle_parsed_request(
        Some(request("test@example.com", "password123", "tenant1")),
        None,
    );
    match action {
        HandlerAction::ConfigFailure(m) => {
            assert_eq!(m, "USER_POOL_ID environment variable not set")
        }
        _ => panic!("expected a configuration failure"),
    }
}

fn expect_plan(action: HandlerAction) -> ProvisioningPlan {
    match action {
        HandlerAction::Provision(plan) => plan,
        _ => panic!("expected a provisioning plan"),
    }
}

fn assert_uuid_v4_text(s: &str) {
    let chars: Vec<char> = s.chars().collect();
    assert_eq!(chars.len(), 36);
    for (i, c) in chars.iter().enumerate() {
        if i == 8 || i == 13 || i == 18 || i == 23 {
            assert_eq!(*c, '-');
        } else {
            assert!(c.is_ascii_hexdigit() && !c.is_ascii_uppercase());
        }
    }
    assert_eq!(chars[14], '4');
    assert!(matches!(chars[19], '8' | '9' | 'a' | 'b'));
}

#[test]
fn valid_input_yields_the_planned_provider_calls() {
    let body =
        r#"{"email": "test@example.com", "password": "password123", "tenant_id": "tenant1"}"#;
    let plan = expect_plan(handle_parsed_request(parse_body(body.as_bytes()), pool()));
    assert_uuid_v4_text(&plan.user_id);

    let create = &plan.create_user;
    assert_eq!(create.user_pool_id, "us-east-1_TestPool");
    assert_eq!(create.username, plan.user_id);
    assert_eq!(create.temporary_password, "password123");
    assert!(create.email_delivery);
    assert!(create.suppress_message);
    assert_eq!(create.attributes.len(), 4);
    let pairs: Vec<(&str, &str)> = create
        .attributes
        .iter()
        .map(|a| (a.name.as_str(), a.value.as_str()))
        .collect();
    assert_eq!(
        pairs,
        vec![
            ("email", "test@example.com"),
            ("email_verified", "false"),
            ("custom:tenant_id", "tenant1"),
            ("custom:user_role", "User"),
        ]
    );

    let set = &plan.set_password;
    assert_eq!(set.user_pool_id, "us-east-1_TestPool");
    assert_eq!(set.username, plan.user_id);
    assert_eq!(set.password, "password123");
    assert!(set.permanent);
}

#[test]
fn explicit_role_is_kept_in_the_plan() {
    let body = r#"{"email": "test@example.com", "password": "password123", "tenant_id": "tenant1", "user_role": "Admin"}"#;
    let plan = expect_plan(handle_parsed_request(parse_body(body.as_bytes()), pool()));
    assert_eq!(plan.create_user.attributes[3].value, "Admin");
}

#[test]
fn user_ids_are_unique_across_registrations() {
    let a = expect_plan(handle_parsed_request(
        Some(request("test@example.com", "password123", "tenant1")),
        pool(),
    ));
    let b = expect_plan(handle_parsed_request(
        Some(request("test@example.com", "password123", "tenant1")),
        pool(),
    ));
    assert_ne!(a.user_id, b.user_id);
}

#[test]
fn successful_provisioning_yields_created_reply() {
    let plan = expect_plan(handle_parsed_request(
        Some(request("test@example.com", "password123", "tenant1")),
        pool(),
    ));
    let step = after_create_user(Ok(()));
    assert!(matches!(step, ProviderStep::CallSetPassword));
    let resp = after_set_password(&plan.user_id, Ok(()));
    assert_eq!(resp.status, 201);
    assert_eq!(resp.content_type, "application/json");
    assert_eq!(
        resp.body,
        format!(
            r#"{{"user_id":"{}","message":"User registered successfully. Please check your email for verification."}}"#,
            plan.user_id
        )
    );
}

#[test]
fn create_user_failure_stops_the_flow_with_500() {
    let step = after_create_user(Err("service error: user pool quota exceeded".to_string()));
    assert!(!matches!(step, ProviderStep::CallSetPassword));
    match step {
        ProviderStep::Respond(resp) => {
            assert_eq!(resp.status, 500);
            assert_eq!(
                resp.body,
                r#"{"error":"REGISTRATION_FAILED","message":"service error: user pool quota exceeded"}"#
            );
        }
        _ => panic!("expected a response"),
    }
}

#[test]
fn set_password_failure_yields_500() {
    let resp = after_set_password(
        "0f8fad5b-d9cb-469f-a165-70867728950e",
        Err("invalid password".to_string()),
    );
    assert_eq!(resp.status, 500);
    assert_eq!(
        resp.body,
        r#"{"error":"REGISTRATION_FAILED","message":"invalid password"}"#
    );
}

#[test]
fn string_values_are_escaped_as_serde_json_writes_them() {
    let cases = vec![
        "plain",
        "",
        "with \"quotes\" and \\backslash\\",
        "line\nbreak\ttab\rreturn",
        "control \u{1} \u{8} \u{c} \u{1f} chars",
        "caf\u{e9} \u{2603}",
    ];
    for s in cases {
        assert_eq!(json_quoted_text(s), serde_json::to_string(s).unwrap());
    }
}

#[test]
fn error_body_matches_expected_json() {
    assert_eq!(
        error_body_text("SOME_CODE", "a \"message\""),
        r#"{"error":"SOME_CODE","message":"a \"message\""}"#
    );
}

#[test]
fn success_body_matches_expected_json() {
    assert_eq!(
        success_body_text("abc", "done"),
        r#"{"user_id":"abc","message":"done"}"#
    );
}
