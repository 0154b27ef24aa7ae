//! The provisioning plan: the exact create-user and set-password calls
//! the identity provider is asked to make for a validated payload, and
//! the freshly drawn user identifier they are keyed on.

use crate::request::ValidRegistration;
use vstd::prelude::*;

verus! {

/// One name/value attribute attached to the new account.
pub struct UserAttribute {
    pub name: String,
    pub value: String,
}

/// The create-user call: the pool, the username, the account attributes,
/// a temporary password, and the notification settings (delivery by
/// email, with the provider's welcome message suppressed).
pub struct CreateUserCall {
    pub user_pool_id: String,
    pub username: String,
    pub attributes: Vec<UserAttribute>,
    pub temporary_password: String,
    pub email_delivery: bool,
    pub suppress_message: bool,
}

/// The set-password call that finalizes the credential.
pub struct SetPasswordCall {
    pub user_pool_id: String,
    pub username: String,
    pub password: String,
    pub permanent: bool,
}

/// Both provider calls for one registration, in the order they run.
pub struct ProvisioningPlan {
    pub user_id: String,
    pub create_user: CreateUserCall,
    pub set_password: SetPasswordCall,
}

pub open spec fn attribute_is(a: UserAttribute, name: Seq<char>, value: Seq<char>) -> bool {
    a.name@ == name && a.value@ == value
}

/// The create-user call carries exactly the validated fields: the four
/// attributes in order, the password as the temporary one, email
/// delivery, and the welcome message suppressed.
pub open spec fn create_user_call_matches(
    c: &CreateUserCall,
    pool: Seq<char>,
    user_id: Seq<char>,
    email: Seq<char>,
    password: Seq<char>,
    tenant_id: Seq<char>,
    user_role: Seq<char>,
) -> bool {
    &&& c.user_pool_id@ == pool
    &&& c.username@ == user_id
    &&& c.temporary_password@ == password
    &&& c.email_delivery
    &&& c.suppress_message
    &&& c.attributes@.len() == 4
    &&& attribute_is(c.attributes@[0], "email"@, email)
    &&& attribute_is(c.attributes@[1], "email_verified"@, "false"@)
    &&& attribute_is(c.attributes@[2], "custom:tenant_id"@, tenant_id)
    &&& attribute_is(c.attributes@[3], "custom:user_role"@, user_role)
}

/// The set-password call finalizes the same password for the same user,
/// permanently.
pub open spec fn set_password_call_matches(
    c: &SetPasswordCall,
    pool: Seq<char>,
    user_id: Seq<char>,
    password: Seq<char>,
) -> bool {
    c.user_pool_id@ == pool && c.username@ == user_id && c.password@ == password && c.permanent
}

/// Both calls of the plan agree on the pool, the user and the password
/// of the validated payload.
pub open spec fn plan_matches(
    p: &ProvisioningPlan,
    pool: Seq<char>,
    user_id: Seq<char>,
    email: Seq<char>,
    password: Seq<char>,
    tenant_id: Seq<char>,
    user_role: Seq<char>,
) -> bool {
    &&& p.user_id@ == user_id
    &&& create_user_call_matches(&p.create_user, pool, user_id, email, password, tenant_id, user_role)
    &&& set_password_call_matches(&p.set_password, pool, user_id, password)
}

/// Lays out both provider calls for a validated payload.
pub fn plan_provisioning(user_pool_id: &str, user_id: &str, v: &ValidRegistration) -> (p: ProvisioningPlan)
    ensures
        plan_matches(
            &p,
            user_pool_id@,
            user_id@,
            v.email@,
            v.password@,
            v.tenant_id@,
            v.user_role@,
        ),
{
    let mut attributes: Vec<UserAttribute> = Vec::new();
    attributes.push(
        UserAttribute { name: String::from_str("email"), value: v.email.clone() },
    );
    attributes.push(
        UserAttribute {
            name: String::from_str("email_verified"),
            value: String::from_str("false"),
        },
    );
    attributes.push(
        UserAttribute { name: String::from_str("custom:tenant_id"), value: v.tenant_id.clone() },
    );
    attributes.push(
        UserAttribute { name: String::from_str("custom:user_role"), value: v.user_role.clone() },
    );
    let create_user = CreateUserCall {
        user_pool_id: String::from_str(user_pool_id),
        username: String::from_str(user_id),
        attributes,
        temporary_password: v.password.clone(),
        email_delivery: true,
        suppress_message: true,
    };
    let set_password = SetPasswordCall {
        user_pool_id: String::from_str(user_pool_id),
        username: String::from_str(user_id),
        password: v.password.clone(),
        permanent: true,
    };
    ProvisioningPlan { user_id: String::from_str(user_id), create_user, set_password }
}

pub open spec fn is_lower_hex_digit(c: char) -> bool {
    ('0' as u32) <= (c as u32) <= ('9' as u32) || ('a' as u32) <= (c as u32) <= ('f' as u32)
}

pub open spec fn uuid_hyphen_position(i: int) -> bool {
    i == 8 || i == 13 || i == 18 || i == 23
}

/// The text of a version-4 UUID: 36 characters, hyphens at the four fixed
/// positions, lowercase hex everywhere else, the version nibble `4` and a
/// variant nibble of `8`, `9`, `a` or `b`.
pub open spec fn is_uuid_v4_text(s: Seq<char>) -> bool {
    &&& s.len() == 36
    &&& forall|i: int| 0 <= i < 36 && uuid_hyphen_position(i) ==> #[trigger] s[i] == '-'
    &&& forall|i: int|
        0 <= i < 36 && !uuid_hyphen_position(i) ==> is_lower_hex_digit(#[trigger] s[i])
    &&& s[14] == '4'
    &&& (s[19] == '8' || s[19] == '9' || s[19] == 'a' || s[19] == 'b')
}

/// Relies on `uuid::Uuid::new_v4` and its `Display` form: a randomly
/// drawn version-4 identifier, rendered as 36 characters of lowercase
/// hex with hyphens at positions 8, 13, 18 and 23; the draw fixes the
/// version nibble to `4` and the variant nibble to `8`..`b`.  Which
/// identifier comes out is random, so nothing more is stated.
#[verifier::external_body]
pub(crate) fn generate_user_id() -> (r: String)
    ensures
        is_uuid_v4_text(r@),
{
    uuid::Uuid::new_v4().to_string()
}

} // verus!
