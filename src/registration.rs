//! The registration flow as a state machine.
//!
//! The outside work of a registration (issuing tokens, hashing the password,
//! counting and inserting rows in the user store) is performed by the caller.
//! The machine decides: from its stage and the outcome of the last piece of
//! work it computes the next stage and the next action, which is either more
//! outside work or the final answer.
use vstd::prelude::*;
use vstd::string::*;
use crate::text::{
    full_name, insert_error, prefixed, spec_full_name, spec_insert_error, spec_success_message,
    success_message,
};
use crate::types::{
    RegisterRequest, RegisterResponse, ResponseCore, UserProfile, STATUS_BAD_REQUEST,
    STATUS_CREATED, STATUS_FORBIDDEN, STATUS_INTERNAL_SERVER_ERROR,
};

verus! {

/// The identity id handed to the token issuer: the user's row does not exist
/// yet when tokens are issued, so a fixed placeholder stands in for it.
pub const PLACEHOLDER_SUBJECT_ID: i64 = 3;

/// Where a registration stands.
#[derive(Debug, Clone, PartialEq, Eq)]
pub enum Stage {
    IssuingTokens,
    Hashing,
    CheckingEmail { password_hash: String },
    Inserting,
    Finished,
}

/// A registration in progress: the request and the stage it has reached.
#[derive(Debug, Clone, PartialEq, Eq)]
pub struct Registration {
    pub request: RegisterRequest,
    pub stage: Stage,
}

/// The outcome of the last piece of outside work.
#[derive(Debug, Clone, PartialEq, Eq)]
pub enum Event {
    TokensIssued,
    TokensFailed { detail: String },
    PasswordHashed { hash: String },
    HashingFailed { detail: String },
    /// The number of stored users with the email; `None` when the query failed.
    EmailCounted { count: Option<i64> },
    UserInserted { profile: UserProfile },
    InsertFailed { detail: String },
}

/// What the caller is to do next.
#[derive(Debug, Clone, PartialEq, Eq)]
pub enum Action {
    IssueTokens { realm: String, subject_id: i64, email: String },
    HashPassword { password: String },
    CountByEmail { email: String },
    /// Insert a user with no profile image and return its profile.
    InsertUser { email: String, password_hash: String, full_name: String },
    Respond { status: u16, body: RegisterResponse },
}

/// The events that a stage waits for; a finished registration waits for none.
pub open spec fn stage_accepts(stage: Stage, event: Event) -> bool {
    match stage {
        Stage::IssuingTokens => event is TokensIssued || event is TokensFailed,
        Stage::Hashing => event is PasswordHashed || event is HashingFailed,
        Stage::CheckingEmail { .. } => event is EmailCounted,
        Stage::Inserting => event is UserInserted || event is InsertFailed,
        Stage::Finished => false,
    }
}

/// Whether a count of stored users means that the email is taken. A failed
/// count query counts as no existing user: the check fails open, and the
/// store's own uniqueness constraint is the second line of defence.
pub open spec fn email_taken(count: Option<i64>) -> bool {
    match count {
        Some(n) => n > 0,
        None => false,
    }
}

/// `action` answers with `status`, `message` and `error`, and no payload.
pub open spec fn is_failure(action: Action, status: u16, message: Seq<char>, error: Seq<char>) -> bool {
    match action {
        Action::Respond { status: s, body } => {
            &&& s == status
            &&& body.response_message@ == message
            &&& body.response.is_none()
            &&& body.error.is_some()
            &&& body.error.unwrap()@ == error
        },
        _ => false,
    }
}

/// `action` answers that `email` was registered, with `profile` as payload.
pub open spec fn is_created(action: Action, email: Seq<char>, profile: UserProfile) -> bool {
    match action {
        Action::Respond { status, body } => {
            &&& status == STATUS_CREATED
            &&& body.response_message@ == spec_success_message(email)
            &&& body.response == Some(ResponseCore { user_profile: profile })
            &&& body.error.is_none()
        },
        _ => false,
    }
}

/// A registration of `request` starts by asking for tokens for its email.
pub open spec fn starts(request: RegisterRequest, reg: Registration, action: Action) -> bool {
    &&& reg.request == request
    &&& reg.stage is IssuingTokens
    &&& match action {
        Action::IssueTokens { realm, subject_id, email } => {
            &&& realm@ == "auth"@
            &&& subject_id == PLACEHOLDER_SUBJECT_ID
            &&& email == request.email
        },
        _ => false,
    }
}

/// One step of the flow: on `event`, `reg` becomes `next` and asks for `action`.
pub open spec fn steps_to(reg: Registration, event: Event, next: Registration, action: Action) -> bool {
    let req = reg.request;
    &&& next.request == req
    &&& match event {
        Event::TokensIssued => {
            &&& next.stage is Hashing
            &&& action == (Action::HashPassword { password: req.password })
        },
        Event::TokensFailed { detail } => {
            &&& next.stage is Finished
            &&& is_failure(
                action,
                STATUS_INTERNAL_SERVER_ERROR,
                "Failed to generate tokens"@,
                "Token generation error: "@ + detail@,
            )
        },
        Event::PasswordHashed { hash } => {
            &&& next.stage == (Stage::CheckingEmail { password_hash: hash })
            &&& action == (Action::CountByEmail { email: req.email })
        },
        Event::HashingFailed { detail } => {
            &&& next.stage is Finished
            &&& is_failure(
                action,
                STATUS_BAD_REQUEST,
                "Failed to hash password"@,
                "Password hashing error: "@ + detail@,
            )
        },
        Event::EmailCounted { count } => {
            if email_taken(count) {
                &&& next.stage is Finished
                &&& is_failure(action, STATUS_FORBIDDEN, "Registration failed"@, "Email already exists"@)
            } else {
                &&& next.stage is Inserting
                &&& match (reg.stage, action) {
                    (
                        Stage::CheckingEmail { password_hash: h },
                        Action::InsertUser { email, password_hash, full_name },
                    ) => {
                        &&& email == req.email
                        &&& password_hash == h
                        &&& full_name@ == spec_full_name(req.first_name@, req.last_name@)
                    },
                    _ => false,
                }
            }
        },
        Event::UserInserted { profile } => {
            &&& next.stage is Finished
            &&& is_created(action, req.email@, profile)
        },
        Event::InsertFailed { detail } => {
            &&& next.stage is Finished
            &&& is_failure(
                action,
                STATUS_INTERNAL_SERVER_ERROR,
                "Failed to register user"@,
                spec_insert_error(detail@),
            )
        },
    }
}

/// Every answer carries exactly one of a payload and an error.
pub open spec fn answer_well_formed(action: Action) -> bool {
    match action {
        Action::Respond { body, .. } => body.is_well_formed(),
        _ => true,
    }
}

impl Registration {
    /// Begins the registration of `request`.
    pub fn start(request: RegisterRequest) -> (r: (Registration, Action))
        ensures
            starts(request, r.0, r.1),
    {
        let action = Action::IssueTokens {
            realm: String::from_str("auth"),
            subject_id: PLACEHOLDER_SUBJECT_ID,
            email: request.email.clone(),
        };
        (Registration { request, stage: Stage::IssuingTokens }, action)
    }

    /// Whether the registration waits for `event`.
    pub fn accepts(&self, event: &Event) -> (r: bool)
        ensures
            r == stage_accepts(self.stage, *event),
    {
        match self.stage {
            Stage::IssuingTokens => matches!(event, Event::TokensIssued | Event::TokensFailed { .. }),
            Stage::Hashing => matches!(event, Event::PasswordHashed { .. } | Event::HashingFailed { .. }),
            Stage::CheckingEmail { .. } => matches!(event, Event::EmailCounted { .. }),
            Stage::Inserting => matches!(event, Event::UserInserted { .. } | Event::InsertFailed { .. }),
            Stage::Finished => false,
        }
    }

    /// Whether the registration has answered.
    pub fn is_finished(&self) -> (r: bool)
        ensures
            r == self.stage is Finished,
    {
        matches!(self.stage, Stage::Finished)
    }

    /// Takes the outcome of the last piece of outside work and decides the next
    /// stage and action.
    pub fn step(self, event: Event) -> (r: (Registration, Action))
        requires
            stage_accepts(self.stage, event),
        ensures
            steps_to(self, event, r.0, r.1),
            answer_well_formed(r.1),
    {
        let Registration { request, stage } = self;
        match event {
            Event::TokensIssued => {
                let action = Action::HashPassword { password: request.password.clone() };
                (Registration { request, stage: Stage::Hashing }, action)
            },
            Event::TokensFailed { detail } => {
                let body = RegisterResponse::failure(
                    "Failed to generate tokens",
                    prefixed("Token generation error: ", detail.as_str()),
                );
                let action = Action::Respond { status: STATUS_INTERNAL_SERVER_ERROR, body };
                (Registration { request, stage: Stage::Finished }, action)
            },
            Event::PasswordHashed { hash } => {
                let action = Action::CountByEmail { email: request.email.clone() };
                (Registration { request, stage: Stage::CheckingEmail { password_hash: hash } }, action)
            },
            Event::HashingFailed { detail } => {
                let body = RegisterResponse::failure(
                    "Failed to hash password",
                    prefixed("Password hashing error: ", detail.as_str()),
                );
                let action = Action::Respond { status: STATUS_BAD_REQUEST, body };
                (Registration { request, stage: Stage::Finished }, action)
            },
            Event::EmailCounted { count } => {
                let taken = match count {
                    Some(n) => n > 0,
                    None => false,
                };
                if taken {
                    let body = RegisterResponse::failure(
                        "Registration failed",
                        String::from_str("Email already exists"),
                    );
                    let action = Action::Respond { status: STATUS_FORBIDDEN, body };
                    (Registration { request, stage: Stage::Finished }, action)
                } else {
                    let password_hash = match stage {
                        Stage::CheckingEmail { password_hash } => password_hash,
                        _ => String::new(),
                    };
                    let name = full_name(request.first_name.as_str(), request.last_name.as_str());
                    let action = Action::InsertUser {
                        email: request.email.clone(),
                        password_hash,
                        full_name: name,
                    };
                    (Registration { request, stage: Stage::Inserting }, action)
                }
            },
            Event::UserInserted { profile } => {
                let message = success_message(request.email.as_str());
                let body = RegisterResponse::success(message, profile);
                let action = Action::Respond { status: STATUS_CREATED, body };
                (Registration { request, stage: Stage::Finished }, action)
            },
            Event::InsertFailed { detail } => {
                let body = RegisterResponse::failure(
                    "Failed to register user",
                    insert_error(detail.as_str()),
                );
                let action = Action::Respond { status: STATUS_INTERNAL_SERVER_ERROR, body };
                (Registration { request, stage: Stage::Finished }, action)
            },
        }
    }
}

} // verus!
