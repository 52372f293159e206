use auth_register::registration::{Action, Event, Registration, Stage, PLACEHOLDER_SUBJECT_ID};
use auth_register::types::{
    RegisterRequest, RegisterResponse, UserProfile, STATUS_BAD_REQUEST, STATUS_CREATED,
    STATUS_FORBIDDEN, STATUS_INTERNAL_SERVER_ERROR,
};

/// How the outside work turns out in a simulated run.
struct World {
    rows: Vec<UserProfile>,
    tokens_fail: Option<String>,
    hashing_fails: Option<String>,
    count_fails: bool,
    insert_fails: Option<String>,
}

impl World {
    fn new() -> World {
        World { rows: Vec::new(), tokens_fail: None, hashing_fails: None, count_fails: false, insert_fails: None }
    }

    fn perform(&mut self, action: &Action) -> Event {
        match action {
            Action::IssueTokens { .. } => match &self.tokens_fail {
                Some(d) => Event::TokensFailed { detail: d.clone() },
                None => Event::TokensIssued,
            },
            Action::HashPassword { password } => match &self.hashing_fails {
                Some(d) => Event::HashingFailed { detail: d.clone() },
                None => Event::PasswordHashed { hash: format!("hashed:{}", password) },
            },
            Action::CountByEmail { email } => {
                if self.count_fails {
                    Event::EmailCounted { count: None }
                } else {
                    let n = self.rows.iter().filter(|r| &r.email == email).count() as i64;
                    Event::EmailCounted { count: Some(n) }
                }
            }
            Action::InsertUser { email, full_name, .. } => {
                if let Some(d) = &self.insert_fails {
                    return Event::InsertFailed { detail: d.clone() };
                }
                if self.rows.iter().any(|r| &r.email == email) {
                    return Event::InsertFailed {
                        detail: "duplicate key value violates unique constraint \"users_email_key\"".to_string(),
                    };
                }
                let profile = UserProfile {
                    user_id: self.rows.len() as i64 + 1,
                    full_name: full_name.clone(),
                    email: email.clone(),
                    profile_image_url: None,
                };
                self.rows.push(profile.clone());
                Event::UserInserted { profile }
            }
            Action::Respond { .. } => panic!("a response is not outside work"),
        }
    }

    fn register(&mut self, request: RegisterRequest) -> (u16, RegisterResponse) {
        let (mut reg, mut action) = Registration::start(request);
        loop {
            if let Action::Respond { status, body } = action {
                assert!(reg.is_finished());
                return (status, body);
            }
            let event = self.perform(&action);
            assert!(reg.accepts(&event));
            let (next, next_action) = reg.step(event);
            reg = next;
            action = next_action;
        }
    }
}

fn ada() -> RegisterRequest {
    RegisterRequest::new(
        "Ada".to_string(),
        "Lovelace".to_string(),
        "ada@example.com".to_string(),
        "secret".to_string(),
    )
}

fn well_formed(body: &RegisterResponse) -> bool {
    body.response.is_some() != body.error.is_some()
}

#[test]
fn ada_registers_on_empty_store() {
    let mut world = World::new();
    let (status, body) = world.register(ada());
    assert_eq!(status, STATUS_CREATED);
    assert_eq!(status, 201);
    assert_eq!(body.response_message, "User with email 'ada@example.com' registered successfully!");
    assert!(body.error.is_none());
    let profile = body.response.expect("payload").user_profile;
    assert_eq!(profile.email, "ada@example.com");
    assert_eq!(profile.full_name, "Ada Lovelace");
    assert_eq!(profile.profile_image_url, None);
    assert_eq!(world.rows.len(), 1);
}

#[test]
fn same_payload_twice_is_refused_the_second_time() {
    let mut world = World::new();
    let (first, _) = world.register(ada());
    assert_eq!(first, 201);
    let (second, body) = world.register(ada());
    assert_eq!(second, STATUS_FORBIDDEN);
    assert_eq!(second, 403);
    assert_eq!(body.error.as_deref(), Some("Email already exists"));
    assert_eq!(body.response_message, "Registration failed");
    assert!(body.response.is_none());
    assert_eq!(world.rows.len(), 1);
}

#[test]
fn repeated_hashing_failures_create_no_row() {
    let mut world = World::new();
    world.hashing_fails = Some("bad cost".to_string());
    for _ in 0..3 {
        let (status, body) = world.register(ada());
        assert_eq!(status, STATUS_BAD_REQUEST);
        assert_eq!(body.response_message, "Failed to hash password");
        assert_eq!(body.error.as_deref(), Some("Password hashing error: bad cost"));
        assert!(body.response.is_none());
    }
    assert!(world.rows.is_empty());
}

#[test]
fn token_failure_answers_internal_error() {
    let mut world = World::new();
    world.tokens_fail = Some("no signing key".to_string());
    let (status, body) = world.register(ada());
    assert_eq!(status, STATUS_INTERNAL_SERVER_ERROR);
    assert_eq!(body.response_message, "Failed to generate tokens");
    assert_eq!(body.error.as_deref(), Some("Token generation error: no signing key"));
    assert!(world.rows.is_empty());
}

#[test]
fn failed_count_query_fails_open() {
    let mut world = World::new();
    world.count_fails = true;
    let (status, _) = world.register(ada());
    assert_eq!(status, 201);
    // the store's uniqueness constraint still refuses the second insert
    let (second, body) = world.register(ada());
    assert_eq!(second, 500);
    assert_eq!(body.response_message, "Failed to register user");
    assert_eq!(body.error.as_deref(), Some("Email already exists"));
    assert_eq!(world.rows.len(), 1);
}

#[test]
fn other_insert_failure_is_a_database_error() {
    let mut world = World::new();
    world.insert_fails = Some("connection reset".to_string());
    let (status, body) = world.register(ada());
    assert_eq!(status, 500);
    assert_eq!(body.error.as_deref(), Some("Database error: connection reset"));
    assert!(world.rows.is_empty());
}

#[test]
fn insert_failure_naming_unique_reads_as_existing_email() {
    let mut world = World::new();
    world.insert_fails = Some("violates unique constraint".to_string());
    let (status, body) = world.register(ada());
    assert_eq!(status, 500);
    assert_eq!(body.error.as_deref(), Some("Email already exists"));
}

#[test]
fn every_path_answers_with_exactly_one_of_payload_and_error() {
    let mut worlds = Vec::new();
    worlds.push(World::new());
    let mut w = World::new();
    w.tokens_fail = Some("t".to_string());
    worlds.push(w);
    let mut w = World::new();
    w.hashing_fails = Some("h".to_string());
    worlds.push(w);
    let mut w = World::new();
    w.insert_fails = Some("d".to_string());
    worlds.push(w);
    for mut world in worlds {
        let (_, body) = world.register(ada());
        assert!(well_formed(&body));
        let (_, body) = world.register(ada());
        assert!(well_formed(&body));
    }
}

#[test]
fn start_asks_for_tokens_for_the_email() {
    let (reg, action) = Registration::start(ada());
    assert_eq!(reg.stage, Stage::IssuingTokens);
    assert_eq!(
        action,
        Action::IssueTokens {
            realm: "auth".to_string(),
            subject_id: PLACEHOLDER_SUBJECT_ID,
            email: "ada@example.com".to_string(),
        }
    );
    assert_eq!(PLACEHOLDER_SUBJECT_ID, 3);
}

#[test]
fn steps_hand_out_the_right_work() {
    let (reg, _) = Registration::start(ada());
    let (reg, action) = reg.step(Event::TokensIssued);
    assert_eq!(action, Action::HashPassword { password: "secret".to_string() });
    let (reg, action) = reg.step(Event::PasswordHashed { hash: "h$1".to_string() });
    assert_eq!(action, Action::CountByEmail { email: "ada@example.com".to_string() });
    let (reg, action) = reg.step(Event::EmailCounted { count: Some(0) });
    assert_eq!(
        action,
        Action::InsertUser {
            email: "ada@example.com".to_string(),
            password_hash: "h$1".to_string(),
            full_name: "Ada Lovelace".to_string(),
        }
    );
    assert_eq!(reg.stage, Stage::Inserting);
}

#[test]
fn finished_registration_accepts_nothing() {
    let (reg, _) = Registration::start(ada());
    let (reg, _) = reg.step(Event::HashingFailed { detail: "x".to_string() });
    assert!(reg.is_finished());
    assert!(!reg.accepts(&Event::TokensIssued));
    assert!(!reg.accepts(&Event::EmailCounted { count: Some(0) }));
    assert!(!reg.accepts(&Event::UserInserted {
        profile: UserProfile {
            user_id: 1,
            full_name: "A B".to_string(),
            email: "a@b".to_string(),
            profile_image_url: None,
        }
    }));
}

#[test]
fn stage_waits_only_for_its_own_events() {
    let (reg, _) = Registration::start(ada());
    assert!(reg.accepts(&Event::TokensIssued));
    assert!(reg.accepts(&Event::TokensFailed { detail: "x".to_string() }));
    assert!(!reg.accepts(&Event::PasswordHashed { hash: "h".to_string() }));
    assert!(!reg.accepts(&Event::EmailCounted { count: None }));
}
