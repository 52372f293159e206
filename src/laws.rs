//! What holds of every registration: proved over the contracts of the flow.
use vstd::prelude::*;
use crate::registration::{
    email_taken, is_created, starts, stage_accepts, steps_to, answer_well_formed, Action, Event,
    Registration, Stage,
};
use crate::text::spec_full_name;
use crate::types::{RegisterRequest, UserProfile, STATUS_CREATED};

verus! {

/// How far a stage is along the flow; every step moves strictly forward.
pub open spec fn rank(stage: Stage) -> int {
    match stage {
        Stage::IssuingTokens => 0,
        Stage::Hashing => 1,
        Stage::CheckingEmail { .. } => 2,
        Stage::Inserting => 3,
        Stage::Finished => 4,
    }
}

/// Step `i` of a run: stage `i` waits for event `i`, and the step leads to
/// stage `i + 1` and action `i`.
pub open spec fn step_at(regs: Seq<Registration>, events: Seq<Event>, actions: Seq<Action>, i: int) -> bool {
    &&& stage_accepts(regs[i].stage, events[i])
    &&& steps_to(regs[i], events[i], regs[i + 1], actions[i])
}

/// A run of one registration: the stages it went through, the events it was
/// given and the actions it asked for.
pub open spec fn is_run(regs: Seq<Registration>, events: Seq<Event>, actions: Seq<Action>) -> bool {
    &&& regs.len() == events.len() + 1
    &&& actions.len() == events.len()
    &&& forall|i: int| 0 <= i < events.len() ==> #[trigger] step_at(regs, events, actions, i)
}

/// The profile that the store returns for an insert: the values inserted, and
/// no profile image.
pub open spec fn returns_inserted(action: Action, profile: UserProfile) -> bool {
    match action {
        Action::InsertUser { email, full_name, .. } => {
            &&& profile.email == email
            &&& profile.full_name == full_name
            &&& profile.profile_image_url.is_none()
        },
        _ => false,
    }
}

/// Every step moves the registration strictly forward.
pub proof fn lemma_step_advances(reg: Registration, event: Event, next: Registration, action: Action)
    requires
        stage_accepts(reg.stage, event),
        steps_to(reg, event, next, action),
    ensures
        rank(reg.stage) < rank(next.stage),
{
}

/// Along a run, the stage moves forward by at least one rank per step.
pub proof fn lemma_run_advances(regs: Seq<Registration>, events: Seq<Event>, actions: Seq<Action>, j: int, i: int)
    requires
        is_run(regs, events, actions),
        0 <= j <= i <= events.len(),
    ensures
        rank(regs[j].stage) + (i - j) <= rank(regs[i].stage),
    decreases i - j,
{
    if j < i {
        lemma_run_advances(regs, events, actions, j, i - 1);
        assert(step_at(regs, events, actions, i - 1));
        lemma_step_advances(regs[i - 1], events[i - 1], regs[i], actions[i - 1]);
    }
}

/// A user is inserted only right after the email check found no stored user
/// with the email.
pub proof fn lemma_insert_only_after_check(reg: Registration, event: Event, next: Registration, action: Action)
    requires
        stage_accepts(reg.stage, event),
        steps_to(reg, event, next, action),
        action is InsertUser,
    ensures
        reg.stage is CheckingEmail,
        match event {
            Event::EmailCounted { count } => !email_taken(count),
            _ => false,
        },
{
}

/// An insert in a run comes from a stage that checks the email.
proof fn lemma_insert_stage(regs: Seq<Registration>, events: Seq<Event>, actions: Seq<Action>, j: int)
    requires
        is_run(regs, events, actions),
        0 <= j < events.len(),
        actions[j] is InsertUser,
    ensures
        rank(regs[j].stage) == 2,
{
    assert(step_at(regs, events, actions, j));
    lemma_insert_only_after_check(regs[j], events[j], regs[j + 1], actions[j]);
}

/// Whatever was given before or after, a registration whose password could not
/// be hashed never asks for a user to be inserted, so failed attempts create
/// no row, however often they are repeated.
pub proof fn lemma_failed_hashing_never_inserts(
    regs: Seq<Registration>,
    events: Seq<Event>,
    actions: Seq<Action>,
    i: int,
)
    requires
        is_run(regs, events, actions),
        0 <= i < events.len(),
        events[i] is HashingFailed,
    ensures
        forall|j: int| 0 <= j < actions.len() ==> !(#[trigger] actions[j] is InsertUser),
{
    assert(step_at(regs, events, actions, i));
    assert forall|j: int| 0 <= j < actions.len() implies !(#[trigger] actions[j] is InsertUser) by {
        if actions[j] is InsertUser {
            lemma_insert_stage(regs, events, actions, j);
            if j < i {
                lemma_run_advances(regs, events, actions, j, i);
            } else if j > i {
                lemma_run_advances(regs, events, actions, i + 1, j);
            }
        }
    }
}

/// A registration whose email check finds the email already stored answers
/// 403 with "Email already exists", and never asks for a user to be inserted.
pub proof fn lemma_taken_email_never_inserts(
    regs: Seq<Registration>,
    events: Seq<Event>,
    actions: Seq<Action>,
    i: int,
    n: i64,
)
    requires
        is_run(regs, events, actions),
        0 <= i < events.len(),
        events[i] == (Event::EmailCounted { count: Some(n) }),
        n > 0,
    ensures
        regs[i + 1].stage is Finished,
        crate::registration::is_failure(
            actions[i],
            crate::types::STATUS_FORBIDDEN,
            "Registration failed"@,
            "Email already exists"@,
        ),
        forall|j: int| 0 <= j < actions.len() ==> !(#[trigger] actions[j] is InsertUser),
{
    assert(step_at(regs, events, actions, i));
    assert forall|j: int| 0 <= j < actions.len() implies !(#[trigger] actions[j] is InsertUser) by {
        if actions[j] is InsertUser {
            lemma_insert_stage(regs, events, actions, j);
            if j < i {
                lemma_run_advances(regs, events, actions, j, i);
            } else if j > i {
                lemma_run_advances(regs, events, actions, i + 1, j);
            }
        }
    }
}

/// A registration with an unused email, whose tokens are issued, whose
/// password is hashed and whose insert succeeds, answers 201 with a profile
/// that carries the submitted email and the full name "first last".
pub proof fn lemma_unused_email_registers(
    request: RegisterRequest,
    hash: String,
    profile: UserProfile,
    r0: Registration,
    r1: Registration,
    r2: Registration,
    r3: Registration,
    r4: Registration,
    a0: Action,
    a1: Action,
    a2: Action,
    a3: Action,
    a4: Action,
)
    requires
        starts(request, r0, a0),
        steps_to(r0, Event::TokensIssued, r1, a1),
        steps_to(r1, Event::PasswordHashed { hash }, r2, a2),
        steps_to(r2, Event::EmailCounted { count: Some(0) }, r3, a3),
        returns_inserted(a3, profile),
        steps_to(r3, Event::UserInserted { profile }, r4, a4),
    ensures
        is_created(a4, request.email@, profile),
        match a4 {
            Action::Respond { status, body } => {
                &&& status == STATUS_CREATED
                &&& body.error.is_none()
                &&& body.response.is_some()
                &&& body.response.unwrap().user_profile.email == request.email
                &&& body.response.unwrap().user_profile.full_name@ == spec_full_name(
                    request.first_name@,
                    request.last_name@,
                )
            },
            _ => false,
        },
{
}

/// Every answer, on every path, carries exactly one of a payload and an error.
pub proof fn lemma_answer_well_formed(reg: Registration, event: Event, next: Registration, action: Action)
    requires
        steps_to(reg, event, next, action),
    ensures
        answer_well_formed(action),
{
}

/// The credential handed to the store is the one that the hasher returned
/// earlier in the run; the profile that is returned has no password field.
pub proof fn lemma_stored_credential_is_hash(
    regs: Seq<Registration>,
    events: Seq<Event>,
    actions: Seq<Action>,
    j: int,
)
    requires
        is_run(regs, events, actions),
        regs[0].stage is IssuingTokens,
        0 <= j < events.len(),
        actions[j] is InsertUser,
    ensures
        exists|i: int|
            0 <= i < j && #[trigger] events[i] == (Event::PasswordHashed {
                hash: actions[j]->InsertUser_password_hash,
            }),
    decreases j,
{
    assert(step_at(regs, events, actions, j));
    lemma_insert_only_after_check(regs[j], events[j], regs[j + 1], actions[j]);
    // stage j checks the email, so j > 0 and step j - 1 hashed the password
    if j == 0 {
    } else {
        assert(step_at(regs, events, actions, j - 1));
        let e = events[j - 1];
        let h = regs[j].stage->CheckingEmail_password_hash;
        lemma_step_to_check(regs[j - 1], e, regs[j], actions[j - 1]);
        assert(events[j - 1] == (Event::PasswordHashed { hash: h }));
    }
}

/// The email check is reached only from a hash that succeeded, and keeps it.
proof fn lemma_step_to_check(reg: Registration, event: Event, next: Registration, action: Action)
    requires
        stage_accepts(reg.stage, event),
        steps_to(reg, event, next, action),
        next.stage is CheckingEmail,
    ensures
        event == (Event::PasswordHashed { hash: next.stage->CheckingEmail_password_hash }),
{
}

} // verus!
