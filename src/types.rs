//! The records that a registration reads and returns.
use vstd::prelude::*;
use vstd::string::*;

verus! {

/// Status of a successful registration.
pub const STATUS_CREATED: u16 = 201;

/// Status when the password could not be hashed.
pub const STATUS_BAD_REQUEST: u16 = 400;

/// Status when the email is already registered.
pub const STATUS_FORBIDDEN: u16 = 403;

/// Status when token issuance or the store failed.
pub const STATUS_INTERNAL_SERVER_ERROR: u16 = 500;

/// What a client submits to register.
#[derive(Debug, Clone, PartialEq, Eq)]
pub struct RegisterRequest {
    pub first_name: String,
    pub last_name: String,
    pub email: String,
    pub password: String,
}

/// The public projection of a stored user: it has no password field, so
/// neither the plaintext nor the hashed password can be returned.
#[derive(Debug, Clone, PartialEq, Eq)]
pub struct UserProfile {
    pub user_id: i64,
    pub full_name: String,
    pub email: String,
    pub profile_image_url: Option<String>,
}

/// The payload of a successful registration.
#[derive(Debug, Clone, PartialEq, Eq)]
pub struct ResponseCore {
    pub user_profile: UserProfile,
}

/// The body of every answer to a registration.
#[derive(Debug, Clone, PartialEq, Eq)]
pub struct RegisterResponse {
    pub response_message: String,
    pub response: Option<ResponseCore>,
    pub error: Option<String>,
}

impl RegisterRequest {
    pub fn new(first_name: String, last_name: String, email: String, password: String) -> (r: Self)
        ensures
            r.first_name == first_name,
            r.last_name == last_name,
            r.email == email,
            r.password == password,
    {
        RegisterRequest { first_name, last_name, email, password }
    }
}

impl RegisterResponse {
    /// Exactly one of the payload and the error is present.
    pub open spec fn is_well_formed(&self) -> bool {
        self.response.is_some() != self.error.is_some()
    }

    /// A failed registration: a message and an error, no payload.
    pub fn failure(message: &str, error: String) -> (r: Self)
        ensures
            r.response_message@ == message@,
            r.response.is_none(),
            r.error == Some(error),
            r.is_well_formed(),
    {
        RegisterResponse {
            response_message: String::from_str(message),
            response: None,
            error: Some(error),
        }
    }

    /// A successful registration: a message and the new user's profile, no error.
    pub fn success(message: String, user_profile: UserProfile) -> (r: Self)
        ensures
            r.response_message == message,
            r.response == Some(ResponseCore { user_profile }),
            r.error.is_none(),
            r.is_well_formed(),
    {
        RegisterResponse {
            response_message: message,
            response: Some(ResponseCore { user_profile }),
            error: None,
        }
    }
}

} // verus!
