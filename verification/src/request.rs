//! The registration payload and its validation: required fields, the weak
//! email-format check, and the minimum password length, applied in order
//! with the first failure winning.

use vstd::prelude::*;

verus! {

/// A registration payload as the caller sent it: the three required
/// fields and the optional role.
pub struct RegistrationRequest {
    pub email: String,
    pub password: String,
    pub tenant_id: String,
    pub user_role: Option<String>,
}

/// A payload that passed validation, with the role defaulted.
pub struct ValidRegistration {
    pub email: String,
    pub password: String,
    pub tenant_id: String,
    pub user_role: String,
}

/// Why a payload was rejected, in the order the checks run.
pub enum ValidationFailure {
    MissingField,
    BadEmailFormat,
    PasswordTooShort,
}

/// Email, password and tenant_id must all be non-empty.
pub open spec fn required_fields_present(r: &RegistrationRequest) -> bool {
    r.email@.len() > 0 && r.password@.len() > 0 && r.tenant_id@.len() > 0
}

pub open spec fn contains_at_sign(s: Seq<char>) -> bool {
    exists|i: int| 0 <= i < s.len() && s[i] == '@'
}

pub open spec fn password_long_enough(s: Seq<char>) -> bool {
    s.len() >= 8
}

/// A payload is accepted exactly when all three checks pass.
pub open spec fn request_valid(r: &RegistrationRequest) -> bool {
    required_fields_present(r) && contains_at_sign(r.email@) && password_long_enough(r.password@)
}

/// The failure reported for a rejected payload: the checks run in order
/// and the first failing one wins.
pub open spec fn first_failure(r: &RegistrationRequest) -> ValidationFailure {
    if !required_fields_present(r) {
        ValidationFailure::MissingField
    } else if !contains_at_sign(r.email@) {
        ValidationFailure::BadEmailFormat
    } else {
        ValidationFailure::PasswordTooShort
    }
}

/// The role recorded for the account: the one sent, or `User`.
pub open spec fn effective_role(role: &Option<String>) -> Seq<char> {
    match role {
        Some(r) => r@,
        None => "User"@,
    }
}

fn str_contains_char(s: &str, c: char) -> (b: bool)
    ensures
        b == exists|i: int| 0 <= i < s@.len() && s@[i] == c,
{
    let n = s.unicode_len();
    let mut i: usize = 0;
    while i < n
        invariant
            n == s@.len(),
            i <= n,
            forall|j: int| 0 <= j < i ==> s@[j] != c,
        decreases n - i,
    {
        if s.get_char(i) == c {
            assert(s@[i as int] == c);
            return true;
        }
        i = i + 1;
    }
    false
}

/// Checks a payload, consuming it: the valid fields with the role
/// defaulted on success, the first failing check otherwise.
pub fn validate_request(r: RegistrationRequest) -> (res: Result<ValidRegistration, ValidationFailure>)
    ensures
        match res {
            Ok(v) => request_valid(&r) && v.email@ == r.email@ && v.password@ == r.password@
                && v.tenant_id@ == r.tenant_id@ && v.user_role@ == effective_role(&r.user_role),
            Err(f) => !request_valid(&r) && f == first_failure(&r),
        },
{
    if r.email.as_str().is_empty() || r.password.as_str().is_empty()
        || r.tenant_id.as_str().is_empty() {
        return Err(ValidationFailure::MissingField);
    }
    if !str_contains_char(r.email.as_str(), '@') {
        return Err(ValidationFailure::BadEmailFormat);
    }
    if r.password.as_str().unicode_len() < 8 {
        return Err(ValidationFailure::PasswordTooShort);
    }
    let user_role = match r.user_role {
        Some(role) => role,
        None => String::from_str("User"),
    };
    Ok(
        ValidRegistration {
            email: r.email,
            password: r.password,
            tenant_id: r.tenant_id,
            user_role,
        },
    )
}

} // verus!
