//! The registration flow, one decision at a time: what to answer for a
//! payload, which provider call to make next, and how each provider
//! outcome maps to the final reply.  The caller performs the calls and
//! feeds their outcomes back in.

use crate::provision::ProvisioningPlan;
use crate::provision::generate_user_id;
use crate::provision::is_uuid_v4_text;
use crate::provision::plan_matches;
use crate::provision::plan_provisioning;
use crate::request::RegistrationRequest;
use crate::request::ValidationFailure;
use crate::request::effective_role;
use crate::request::first_failure;
use crate::request::request_valid;
use crate::request::validate_request;
use crate::response::HttpResponse;
use crate::response::RegistrationResult;
use crate::response::bad_email_message;
use crate::response::create_error_response;
use crate::response::create_success_response;
use crate::response::invalid_request_code;
use crate::response::invalid_request_message;
use crate::response::is_error_response;
use crate::response::is_success_response;
use crate::response::missing_fields_message;
use crate::response::missing_pool_message;
use crate::response::registration_failed_code;
use crate::response::short_password_message;
use crate::response::success_message;
use crate::response::validation_error_code;
use vstd::prelude::*;

verus! {

/// What the handler decides for a payload: answer at once, give up on a
/// missing pool configuration, or provision through the planned calls.
pub enum HandlerAction {
    Respond(HttpResponse),
    ConfigFailure(String),
    Provision(ProvisioningPlan),
}

/// What follows the create-user outcome: make the plan's set-password
/// call, or answer at once.
pub enum ProviderStep {
    CallSetPassword,
    Respond(HttpResponse),
}

/// The validation error text for each failing check.
pub open spec fn validation_failure_message(f: ValidationFailure) -> Seq<char> {
    match f {
        ValidationFailure::MissingField => missing_fields_message(),
        ValidationFailure::BadEmailFormat => bad_email_message(),
        ValidationFailure::PasswordTooShort => short_password_message(),
    }
}

fn validation_failure_text(f: &ValidationFailure) -> (r: &'static str)
    ensures
        r@ == validation_failure_message(*f),
{
    match f {
        ValidationFailure::MissingField => "Email, password, and tenant_id are required",
        ValidationFailure::BadEmailFormat => "Invalid email format",
        ValidationFailure::PasswordTooShort => "Password must be at least 8 characters long",
    }
}

/// Decides a request that either failed to parse (`None`) or parsed into
/// a payload: an unparseable body gets 400 INVALID_REQUEST; a payload
/// failing a validation check gets 400 VALIDATION_ERROR with that check's
/// message; a valid payload without a configured pool aborts the
/// invocation; and a valid payload with a pool yields the provisioning
/// plan, keyed on a freshly drawn user identifier.
pub fn handle_parsed_request(parsed: Option<RegistrationRequest>, user_pool_id: Option<String>) -> (r:
    HandlerAction)
    ensures
        match parsed {
            None => r matches HandlerAction::Respond(resp) && is_error_response(
                &resp,
                400,
                invalid_request_code(),
                invalid_request_message(),
            ),
            Some(req) => if !request_valid(&req) {
                r matches HandlerAction::Respond(resp) && is_error_response(
                    &resp,
                    400,
                    validation_error_code(),
                    validation_failure_message(first_failure(&req)),
                )
            } else {
                match user_pool_id {
                    None => r matches HandlerAction::ConfigFailure(m) && m@
                        == missing_pool_message(),
                    Some(pool) => r matches HandlerAction::Provision(plan) && is_uuid_v4_text(
                        plan.user_id@,
                    ) && plan_matches(
                        &plan,
                        pool@,
                        plan.user_id@,
                        req.email@,
                        req.password@,
                        req.tenant_id@,
                        effective_role(&req.user_role),
                    ),
                }
            },
        },
{
    let req = match parsed {
        Some(req) => req,
        None => {
            return HandlerAction::Respond(
                create_error_response(400, "INVALID_REQUEST", "Invalid request body"),
            );
        },
    };
    let valid = match validate_request(req) {
        Ok(v) => v,
        Err(f) => {
            return HandlerAction::Respond(
                create_error_response(400, "VALIDATION_ERROR", validation_failure_text(&f)),
            );
        },
    };
    let pool = match user_pool_id {
        Some(pool) => pool,
        None => {
            return HandlerAction::ConfigFailure(
                String::from_str("USER_POOL_ID environment variable not set"),
            );
        },
    };
    let user_id = generate_user_id();
    let plan = plan_provisioning(pool.as_str(), user_id.as_str(), &valid);
    HandlerAction::Provision(plan)
}

/// Decides what follows the create-user outcome: on success the plan's
/// set-password call is made next; on failure the provider's message is
/// passed through as a 500 REGISTRATION_FAILED reply, and set-password is
/// not attempted.
pub fn after_create_user(outcome: Result<(), String>) -> (r: ProviderStep)
    ensures
        match outcome {
            Ok(_) => r is CallSetPassword,
            Err(m) => r matches ProviderStep::Respond(resp) && is_error_response(
                &resp,
                500,
                registration_failed_code(),
                m@,
            ),
        },
{
    match outcome {
        Ok(_) => ProviderStep::CallSetPassword,
        Err(m) => ProviderStep::Respond(
            create_error_response(500, "REGISTRATION_FAILED", m.as_str()),
        ),
    }
}

/// Decides the final reply once set-password came back: success yields
/// 201 with the user identifier and the status message; failure passes
/// the provider's message through as 500 REGISTRATION_FAILED, the
/// created-but-unfinalized account notwithstanding.
pub fn after_set_password(user_id: &str, outcome: Result<(), String>) -> (r: HttpResponse)
    ensures
        match outcome {
            Ok(_) => is_success_response(&r, user_id@, success_message()),
            Err(m) => is_error_response(&r, 500, registration_failed_code(), m@),
        },
{
    match outcome {
        Ok(_) => {
            let data = RegistrationResult {
                user_id: String::from_str(user_id),
                message: String::from_str(
                    "User registered successfully. Please check your email for verification.",
                ),
            };
            create_success_response(&data)
        },
        Err(m) => create_error_response(500, "REGISTRATION_FAILED", m.as_str()),
    }
}

} // verus!
