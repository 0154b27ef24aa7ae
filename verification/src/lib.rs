//! A verified registration handler: it validates a registration payload,
//! plans the two identity-provider calls that provision the account, and
//! renders the JSON responses, with the behaviour of every step stated in
//! contracts.

pub mod handler;
pub mod json;
pub mod provision;
pub mod request;
pub mod response;
