use vstd::prelude::*;

use crate::auth::{bcrypt_verify_outcome, is_auth_error, is_hash_of, verify_password};
use crate::errors::AppError;
use crate::jobs::{job_image_key, spec_job_image_key, spec_uuid_text, JobRecord};
use crate::users::UserRecord;

verus! {

// ---------------------------------------------------------------------------
// Accounts: signup and login.
// The caller performs each requested action (a database query, hashing the
// password with `auth::hash_password`, or issuing a token) and hands its
// outcome back as the next event.
// ---------------------------------------------------------------------------

/// What an account request asks the caller to do next.
pub enum AccountAction {
    /// Look up the account with this e-mail address.
    FindUser { email: String },
    /// Hash this password for storage (`auth::hash_password`).
    HashPassword { password: String },
    /// Store a new account.
    CreateUser { email: String, password_hash: String },
    /// Issue a token for this user.
    IssueToken { user_id: u128 },
    /// Answer the request: a token, or the error.
    Respond(Result<String, AppError>),
}

/// The outcome of the action last performed.
pub enum AccountEvent {
    LookedUp(Result<Option<UserRecord>, AppError>),
    Hashed(Result<String, AppError>),
    Created(Result<u128, AppError>),
    TokenIssued(Result<String, AppError>),
}

/// Progress of a signup.
pub enum SignupState {
    LookingUp { email: String, password: String },
    Hashing { email: String },
    Creating,
    IssuingToken,
    Finished,
}

/// Progress of a login.
pub enum LoginState {
    LookingUp { password: String },
    IssuingToken,
    Finished,
}

/// `e` is a conflict error with message `msg`.
pub open spec fn is_conflict_error(e: AppError, msg: Seq<char>) -> bool {
    e matches AppError::Conflict(m) && m@ == msg
}

/// `a` answers with an error that satisfies nothing more than being `e`.
pub open spec fn responds_with_error(a: AccountAction, e: AppError) -> bool {
    a == AccountAction::Respond(Err(e))
}

/// `a` answers with an authentication error with message `msg`.
pub open spec fn responds_auth_error(a: AccountAction, msg: Seq<char>) -> bool {
    a matches AccountAction::Respond(Err(x)) && is_auth_error(x, msg)
}

/// `a` answers with a conflict error with message `msg`.
pub open spec fn responds_conflict(a: AccountAction, msg: Seq<char>) -> bool {
    a matches AccountAction::Respond(Err(x)) && is_conflict_error(x, msg)
}

/// `a` asks to store the account `email` with password hash `hash`.
pub open spec fn creates_account(a: AccountAction, email: Seq<char>, hash: Seq<char>) -> bool {
    a matches AccountAction::CreateUser { email: em, password_hash: h } && em@ == email && h@
        == hash
}

/// `a` asks to hash `password`.
pub open spec fn hashes(a: AccountAction, password: Seq<char>) -> bool {
    a matches AccountAction::HashPassword { password: p } && p@ == password
}

/// `t` waits for the hash of the password of the account `email`.
pub open spec fn hashing_for(t: SignupState, email: Seq<char>) -> bool {
    t matches SignupState::Hashing { email: em } && em@ == email
}

/// `event` is the kind of outcome that performing `a` produces.
pub open spec fn answers(a: AccountAction, event: AccountEvent) -> bool {
    match a {
        AccountAction::FindUser { .. } => event is LookedUp,
        AccountAction::HashPassword { .. } => event is Hashed,
        AccountAction::CreateUser { .. } => event is Created,
        AccountAction::IssueToken { .. } => event is TokenIssued,
        AccountAction::Respond(_) => false,
    }
}

/// Whether `event` is the outcome that signup state `s` waits for.
pub open spec fn signup_expects(s: SignupState, event: AccountEvent) -> bool {
    match s {
        SignupState::LookingUp { .. } => event is LookedUp,
        SignupState::Hashing { .. } => event is Hashed,
        SignupState::Creating => event is Created,
        SignupState::IssuingToken => event is TokenIssued,
        SignupState::Finished => false,
    }
}

/// One step of signup: from state `s`, outcome `event` leads to state `t` and action `a`.
pub open spec fn signup_transition(
    s: SignupState,
    event: AccountEvent,
    t: SignupState,
    a: AccountAction,
) -> bool {
    match s {
        SignupState::LookingUp { email, password } => match event {
            AccountEvent::LookedUp(Err(e)) => t is Finished && responds_with_error(a, e),
            AccountEvent::LookedUp(Ok(Some(_))) => t is Finished && responds_conflict(
                a,
                "email already registered"@,
            ),
            AccountEvent::LookedUp(Ok(None)) => hashing_for(t, email@) && hashes(a, password@),
            _ => false,
        },
        SignupState::Hashing { email } => match event {
            AccountEvent::Hashed(Ok(h)) => t is Creating && creates_account(a, email@, h@),
            AccountEvent::Hashed(Err(e)) => t is Finished && responds_with_error(a, e),
            _ => false,
        },
        SignupState::Creating => match event {
            AccountEvent::Created(Err(e)) => t is Finished && responds_with_error(a, e),
            AccountEvent::Created(Ok(id)) => t is IssuingToken && a == AccountAction::IssueToken {
                user_id: id,
            },
            _ => false,
        },
        SignupState::IssuingToken => match event {
            AccountEvent::TokenIssued(r) => t is Finished && a == AccountAction::Respond(r),
            _ => false,
        },
        SignupState::Finished => false,
    }
}

/// Starts a signup for `email` with `password`: first look the address up.
pub fn signup_start(email: String, password: String) -> (r: (SignupState, AccountAction))
    ensures
        r.0 matches SignupState::LookingUp { email: em, password: pw } && em@ == email@ && pw@
            == password@,
        r.1 matches AccountAction::FindUser { email: em } && em@ == email@,
        forall|e: AccountEvent| answers(r.1, e) ==> signup_expects(r.0, e),
{
    let lookup = email.clone();
    (SignupState::LookingUp { email, password }, AccountAction::FindUser { email: lookup })
}

/// Advances a signup by the outcome of the action it last requested.
pub fn signup_step(s: SignupState, event: AccountEvent) -> (r: (SignupState, AccountAction))
    requires
        signup_expects(s, event),
    ensures
        signup_transition(s, event, r.0, r.1),
        forall|e: AccountEvent| answers(r.1, e) ==> signup_expects(r.0, e),
{
    match s {
        SignupState::LookingUp { email, password } => match event {
            AccountEvent::LookedUp(Err(e)) => (SignupState::Finished, AccountAction::Respond(Err(e))),
            AccountEvent::LookedUp(Ok(Some(_))) => (
                SignupState::Finished,
                AccountAction::Respond(
                    Err(AppError::Conflict(String::from_str("email already registered"))),
                ),
            ),
            AccountEvent::LookedUp(Ok(None)) => (
                SignupState::Hashing { email },
                AccountAction::HashPassword { password },
            ),
            _ => {
                proof {
                    assert(false);
                }
                (SignupState::Finished, AccountAction::IssueToken { user_id: 0 })
            },
        },
        SignupState::Hashing { email } => match event {
            AccountEvent::Hashed(Ok(h)) => (
                SignupState::Creating,
                AccountAction::CreateUser { email, password_hash: h },
            ),
            AccountEvent::Hashed(Err(e)) => (SignupState::Finished, AccountAction::Respond(Err(e))),
            _ => {
                proof {
                    assert(false);
                }
                (SignupState::Finished, AccountAction::IssueToken { user_id: 0 })
            },
        },
        SignupState::Creating => match event {
            AccountEvent::Created(Err(e)) => (SignupState::Finished, AccountAction::Respond(Err(e))),
            AccountEvent::Created(Ok(id)) => (
                SignupState::IssuingToken,
                AccountAction::IssueToken { user_id: id },
            ),
            _ => {
                proof {
                    assert(false);
                }
                (SignupState::Finished, AccountAction::IssueToken { user_id: 0 })
            },
        },
        SignupState::IssuingToken => match event {
            AccountEvent::TokenIssued(r) => (SignupState::Finished, AccountAction::Respond(r)),
            _ => {
                proof {
                    assert(false);
                }
                (SignupState::Finished, AccountAction::IssueToken { user_id: 0 })
            },
        },
        SignupState::Finished => {
            proof {
                assert(false);
            }
            (SignupState::Finished, AccountAction::IssueToken { user_id: 0 })
        },
    }
}

/// Whether `event` is the outcome that login state `s` waits for.
pub open spec fn login_expects(s: LoginState, event: AccountEvent) -> bool {
    match s {
        LoginState::LookingUp { .. } => event is LookedUp,
        LoginState::IssuingToken => event is TokenIssued,
        LoginState::Finished => false,
    }
}

/// The single message of a refused login, whichever check failed.
pub open spec fn bad_credentials() -> Seq<char> {
    "invalid email or password"@
}

/// One step of login: from state `s`, outcome `event` leads to state `t` and action `a`.
pub open spec fn login_transition(
    s: LoginState,
    event: AccountEvent,
    t: LoginState,
    a: AccountAction,
) -> bool {
    match s {
        LoginState::LookingUp { password } => match event {
            AccountEvent::LookedUp(Err(e)) => t is Finished && responds_with_error(a, e),
            AccountEvent::LookedUp(Ok(None)) => t is Finished && responds_auth_error(
                a,
                bad_credentials(),
            ),
            AccountEvent::LookedUp(Ok(Some(user))) => match bcrypt_verify_outcome(
                password@,
                user.password_hash@,
            ) {
                Ok(true) => t is IssuingToken && a == AccountAction::IssueToken { user_id: user.id },
                Ok(false) => t is Finished && responds_auth_error(a, bad_credentials()),
                Err(d) => t is Finished && responds_auth_error(a, "failed to verify password: "@ + d),
            },
            _ => false,
        },
        LoginState::IssuingToken => match event {
            AccountEvent::TokenIssued(r) => t is Finished && a == AccountAction::Respond(r),
            _ => false,
        },
        LoginState::Finished => false,
    }
}

/// Starts a login for `email` with `password`: first look the address up.
pub fn login_start(email: String, password: String) -> (r: (LoginState, AccountAction))
    ensures
        r.0 matches LoginState::LookingUp { password: pw } && pw@ == password@,
        r.1 matches AccountAction::FindUser { email: em } && em@ == email@,
        forall|e: AccountEvent| answers(r.1, e) ==> login_expects(r.0, e),
{
    (LoginState::LookingUp { password }, AccountAction::FindUser { email })
}

/// Advances a login by the outcome of the action it last requested.
pub fn login_step(s: LoginState, event: AccountEvent) -> (r: (LoginState, AccountAction))
    requires
        login_expects(s, event),
    ensures
        login_transition(s, event, r.0, r.1),
        forall|e: AccountEvent| answers(r.1, e) ==> login_expects(r.0, e),
{
    match s {
        LoginState::LookingUp { password } => match event {
            AccountEvent::LookedUp(Err(e)) => (LoginState::Finished, AccountAction::Respond(Err(e))),
            AccountEvent::LookedUp(Ok(None)) => (
                LoginState::Finished,
                AccountAction::Respond(
                    Err(AppError::Auth(String::from_str("invalid email or password"))),
                ),
            ),
            AccountEvent::LookedUp(Ok(Some(user))) => {
                match verify_password(password.as_str(), user.password_hash.as_str()) {
                    Ok(true) => (LoginState::IssuingToken, AccountAction::IssueToken { user_id: user.id }),
                    Ok(false) => (
                        LoginState::Finished,
                        AccountAction::Respond(
                            Err(AppError::Auth(String::from_str("invalid email or password"))),
                        ),
                    ),
                    Err(e) => (LoginState::Finished, AccountAction::Respond(Err(e))),
                }
            },
            _ => {
                proof {
                    assert(false);
                }
                (LoginState::Finished, AccountAction::IssueToken { user_id: 0 })
            },
        },
        LoginState::IssuingToken => match event {
            AccountEvent::TokenIssued(r) => (LoginState::Finished, AccountAction::Respond(r)),
            _ => {
                proof {
                    assert(false);
                }
                (LoginState::Finished, AccountAction::IssueToken { user_id: 0 })
            },
        },
        LoginState::Finished => {
            proof {
                assert(false);
            }
            (LoginState::Finished, AccountAction::IssueToken { user_id: 0 })
        },
    }
}

/// Signing up and then logging in with the same password succeeds: when a
/// signup for an unknown `email` asked to hash `password`, got a hash that
/// `auth::hash_password` can return for it, and stored the account with it,
/// a login with that password that finds the account issues a token for it.
pub proof fn lemma_signup_then_login(
    email: String,
    password: String,
    hashing: SignupState,
    hash_request: AccountAction,
    hash: String,
    creating: SignupState,
    create: AccountAction,
    login_password: String,
    stored: UserRecord,
    login_next: LoginState,
    login_action: AccountAction,
)
    requires
        signup_transition(
            SignupState::LookingUp { email, password },
            AccountEvent::LookedUp(Ok(None)),
            hashing,
            hash_request,
        ),
        hash_request matches AccountAction::HashPassword { password: p } && is_hash_of(p@, hash@),
        signup_transition(hashing, AccountEvent::Hashed(Ok(hash)), creating, create),
        create matches AccountAction::CreateUser { password_hash: h, .. } && stored.password_hash@
            == h@,
        login_password@ == password@,
        login_transition(
            LoginState::LookingUp { password: login_password },
            AccountEvent::LookedUp(Ok(Some(stored))),
            login_next,
            login_action,
        ),
    ensures
        creating is Creating,
        login_action == (AccountAction::IssueToken { user_id: stored.id }),
        login_next is IssuingToken,
{
}

/// A login that has been issued a token answers with exactly the outcome of
/// issuing it: the token unchanged, or the error.
pub proof fn lemma_login_answers_issued_token(
    issued: Result<String, AppError>,
    t: LoginState,
    a: AccountAction,
)
    requires
        login_transition(LoginState::IssuingToken, AccountEvent::TokenIssued(issued), t, a),
    ensures
        t is Finished,
        a == AccountAction::Respond(issued),
{
}

/// A login whose password verifies against the stored hash asks for a token
/// for the stored user, and then answers with that very token.
pub proof fn lemma_login_success_returns_token(
    password: String,
    user: UserRecord,
    t1: LoginState,
    a1: AccountAction,
    token: String,
    t2: LoginState,
    a2: AccountAction,
)
    requires
        bcrypt_verify_outcome(password@, user.password_hash@) == Ok::<bool, Seq<char>>(true),
        login_transition(
            LoginState::LookingUp { password },
            AccountEvent::LookedUp(Ok(Some(user))),
            t1,
            a1,
        ),
        login_transition(t1, AccountEvent::TokenIssued(Ok(token)), t2, a2),
    ensures
        a1 == (AccountAction::IssueToken { user_id: user.id }),
        t2 is Finished,
        a2 == AccountAction::Respond(Ok::<String, AppError>(token)),
{
}

/// Signup asks to hash exactly the password it was given, and stores the
/// account under exactly the address it was given (as looked up, unchanged)
/// with exactly the hash it got back.
pub proof fn lemma_signup_stores_requested_account(
    email: String,
    password: String,
    start: SignupState,
    t1: SignupState,
    a1: AccountAction,
    hash: String,
    t2: SignupState,
    a2: AccountAction,
)
    requires
        start matches SignupState::LookingUp { email: em, password: pw } && em@ == email@ && pw@
            == password@,
        signup_transition(start, AccountEvent::LookedUp(Ok(None)), t1, a1),
        signup_transition(t1, AccountEvent::Hashed(Ok(hash)), t2, a2),
    ensures
        a1 matches AccountAction::HashPassword { password: p } && p@ == password@,
        t2 is Creating,
        a2 matches AccountAction::CreateUser { email: em, password_hash: h } && em@ == email@ && h@
            == hash@,
{
}

/// A signup that has been issued a token answers with exactly the outcome of
/// issuing it: the token unchanged, or the error.
pub proof fn lemma_signup_answers_issued_token(
    issued: Result<String, AppError>,
    t: SignupState,
    a: AccountAction,
)
    requires
        signup_transition(SignupState::IssuingToken, AccountEvent::TokenIssued(issued), t, a),
    ensures
        t is Finished,
        a == AccountAction::Respond(issued),
{
}

/// A signup whose account was stored asks for a token for exactly the id the
/// store returned.
pub proof fn lemma_signup_token_for_created_id(id: u128, t: SignupState, a: AccountAction)
    requires
        signup_transition(SignupState::Creating, AccountEvent::Created(Ok(id)), t, a),
    ensures
        t is IssuingToken,
        a == (AccountAction::IssueToken { user_id: id }),
{
}

/// A refused login does not tell an unknown address from a wrong password:
/// both are answered with the same error.
pub proof fn lemma_login_refusal_uniform(
    password: String,
    stored: UserRecord,
    next1: LoginState,
    a1: AccountAction,
    next2: LoginState,
    a2: AccountAction,
)
    requires
        bcrypt_verify_outcome(password@, stored.password_hash@) == Ok::<bool, Seq<char>>(false),
        login_transition(
            LoginState::LookingUp { password },
            AccountEvent::LookedUp(Ok(None)),
            next1,
            a1,
        ),
        login_transition(
            LoginState::LookingUp { password },
            AccountEvent::LookedUp(Ok(Some(stored))),
            next2,
            a2,
        ),
    ensures
        responds_auth_error(a1, bad_credentials()),
        responds_auth_error(a2, bad_credentials()),
{
}

/// Signup never stores an account for an address that is already registered.
pub proof fn lemma_signup_refuses_taken_email(
    email: String,
    password: String,
    existing: UserRecord,
    next: SignupState,
    a: AccountAction,
)
    requires
        signup_transition(
            SignupState::LookingUp { email, password },
            AccountEvent::LookedUp(Ok(Some(existing))),
            next,
            a,
        ),
    ensures
        !(a is CreateUser),
        responds_conflict(a, "email already registered"@),
{
}

// ---------------------------------------------------------------------------
// Image generation for a signed-in user.
// ---------------------------------------------------------------------------

/// What an image-generation request asks the caller to do next.
pub enum GenerateAction {
    /// Record a new pending job of `user_id` for `prompt`.
    CreateJob { user_id: u128, prompt: String },
    /// Ask the image service for an image of `prompt`.
    GenerateImage { prompt: String },
    /// Store `content` under `key`.
    Upload { key: String, content: String },
    /// Record that job `job_id` completed with result `url`.
    MarkCompleted { job_id: u128, url: String },
    /// Record that job `job_id` failed with `message`.
    MarkFailed { job_id: u128, message: String },
    /// Answer the request: the image URL, or the error.
    Respond(Result<String, AppError>),
}

/// The outcome of the action last performed.
pub enum GenerateEvent {
    JobCreated(Result<u128, AppError>),
    /// The image (a URL or data URL), or the image service's error message.
    ImageGenerated(Result<String, String>),
    /// The public URL of the stored image, or the storage error together with
    /// its debug rendering, which is what the job records.
    Uploaded(Result<String, (AppError, String)>),
    /// Whether recording the job's outcome succeeded.
    Recorded(Result<(), AppError>),
}

/// Progress of an image-generation request.
pub enum GenerateState {
    CreatingJob { prompt: String },
    Generating { job_id: u128 },
    Uploading { job_id: u128 },
    RecordingCompletion { url: String },
    RecordingFailure { error: AppError },
    Finished,
}

/// `event` is the kind of outcome that performing `a` produces.
pub open spec fn generate_answers(a: GenerateAction, event: GenerateEvent) -> bool {
    match a {
        GenerateAction::CreateJob { .. } => event is JobCreated,
        GenerateAction::GenerateImage { .. } => event is ImageGenerated,
        GenerateAction::Upload { .. } => event is Uploaded,
        GenerateAction::MarkCompleted { .. } => event is Recorded,
        GenerateAction::MarkFailed { .. } => event is Recorded,
        GenerateAction::Respond(_) => false,
    }
}

/// Whether `event` is the outcome that state `s` waits for.
pub open spec fn generate_expects(s: GenerateState, event: GenerateEvent) -> bool {
    match s {
        GenerateState::CreatingJob { .. } => event is JobCreated,
        GenerateState::Generating { .. } => event is ImageGenerated,
        GenerateState::Uploading { .. } => event is Uploaded,
        GenerateState::RecordingCompletion { .. } => event is Recorded,
        GenerateState::RecordingFailure { .. } => event is Recorded,
        GenerateState::Finished => false,
    }
}

/// `a` asks for an image of `prompt`.
pub open spec fn requests_image(a: GenerateAction, prompt: Seq<char>) -> bool {
    a matches GenerateAction::GenerateImage { prompt: p } && p@ == prompt
}

/// `a` asks to store `content` under `key`.
pub open spec fn uploads(a: GenerateAction, key: Seq<char>, content: Seq<char>) -> bool {
    a matches GenerateAction::Upload { key: k, content: c } && k@ == key && c@ == content
}

/// `a` records that job `job_id` failed with `message`.
pub open spec fn marks_failed(a: GenerateAction, job_id: u128, message: Seq<char>) -> bool {
    a matches GenerateAction::MarkFailed { job_id: j, message: m } && j == job_id && m@ == message
}

/// `a` records that job `job_id` completed with `url`.
pub open spec fn marks_completed(a: GenerateAction, job_id: u128, url: Seq<char>) -> bool {
    a matches GenerateAction::MarkCompleted { job_id: j, url: u } && j == job_id && u@ == url
}

/// `t` waits to record a completion with `url`.
pub open spec fn completing_with(t: GenerateState, url: Seq<char>) -> bool {
    t matches GenerateState::RecordingCompletion { url: u } && u@ == url
}

/// `a` answers with the image URL `url`.
pub open spec fn responds_url(a: GenerateAction, url: Seq<char>) -> bool {
    a matches GenerateAction::Respond(Ok(u)) && u@ == url
}

/// One step of image generation: from state `s`, outcome `event` leads to
/// state `t` and action `a`.
pub open spec fn generate_transition(
    s: GenerateState,
    event: GenerateEvent,
    t: GenerateState,
    a: GenerateAction,
) -> bool {
    match s {
        GenerateState::CreatingJob { prompt } => match event {
            GenerateEvent::JobCreated(Err(e)) => t is Finished && a == GenerateAction::Respond(
                Err(e),
            ),
            GenerateEvent::JobCreated(Ok(id)) => t == (GenerateState::Generating { job_id: id })
                && requests_image(a, prompt@),
            _ => false,
        },
        GenerateState::Generating { job_id } => match event {
            GenerateEvent::ImageGenerated(Ok(image)) => t == (GenerateState::Uploading { job_id })
                && uploads(a, spec_job_image_key(job_id), image@),
            GenerateEvent::ImageGenerated(Err(msg)) => t matches GenerateState::RecordingFailure {
                error: AppError::ImageGeneration(m),
            } && m@ == msg@ && marks_failed(a, job_id, msg@),
            _ => false,
        },
        GenerateState::Uploading { job_id } => match event {
            GenerateEvent::Uploaded(Ok(url)) => completing_with(t, url@) && marks_completed(
                a,
                job_id,
                url@,
            ),
            GenerateEvent::Uploaded(Err((e, text))) => t == (GenerateState::RecordingFailure {
                error: e,
            }) && marks_failed(a, job_id, text@),
            _ => false,
        },
        GenerateState::RecordingCompletion { url } => match event {
            GenerateEvent::Recorded(Ok(())) => t is Finished && responds_url(a, url@),
            GenerateEvent::Recorded(Err(e)) => t is Finished && a == GenerateAction::Respond(Err(e)),
            _ => false,
        },
        GenerateState::RecordingFailure { error } => match event {
            GenerateEvent::Recorded(_) => t is Finished && a == GenerateAction::Respond(Err(error)),
            _ => false,
        },
        GenerateState::Finished => false,
    }
}

/// Starts generating an image of `prompt` for `user_id`: first record the job.
pub fn generate_start(user_id: u128, prompt: String) -> (r: (GenerateState, GenerateAction))
    ensures
        r.0 matches GenerateState::CreatingJob { prompt: p } && p@ == prompt@,
        r.1 matches GenerateAction::CreateJob { user_id: u, prompt: p } && u == user_id && p@
            == prompt@,
        forall|e: GenerateEvent| generate_answers(r.1, e) ==> generate_expects(r.0, e),
{
    let recorded = prompt.clone();
    (GenerateState::CreatingJob { prompt }, GenerateAction::CreateJob { user_id, prompt: recorded })
}

/// Advances an image-generation request by the outcome of the action it last requested.
pub fn generate_step(s: GenerateState, event: GenerateEvent) -> (r: (GenerateState, GenerateAction))
    requires
        generate_expects(s, event),
    ensures
        generate_transition(s, event, r.0, r.1),
        forall|e: GenerateEvent| generate_answers(r.1, e) ==> generate_expects(r.0, e),
{
    match s {
        GenerateState::CreatingJob { prompt } => match event {
            GenerateEvent::JobCreated(Err(e)) => (
                GenerateState::Finished,
                GenerateAction::Respond(Err(e)),
            ),
            GenerateEvent::JobCreated(Ok(id)) => (
                GenerateState::Generating { job_id: id },
                GenerateAction::GenerateImage { prompt },
            ),
            _ => {
                proof {
                    assert(false);
                }
                (GenerateState::Finished, GenerateAction::Respond(Ok(String::new())))
            },
        },
        GenerateState::Generating { job_id } => match event {
            GenerateEvent::ImageGenerated(Ok(image)) => (
                GenerateState::Uploading { job_id },
                GenerateAction::Upload { key: job_image_key(job_id), content: image },
            ),
            GenerateEvent::ImageGenerated(Err(msg)) => {
                let recorded = msg.clone();
                (
                    GenerateState::RecordingFailure { error: AppError::ImageGeneration(msg) },
                    GenerateAction::MarkFailed { job_id, message: recorded },
                )
            },
            _ => {
                proof {
                    assert(false);
                }
                (GenerateState::Finished, GenerateAction::Respond(Ok(String::new())))
            },
        },
        GenerateState::Uploading { job_id } => match event {
            GenerateEvent::Uploaded(Ok(url)) => {
                let recorded = url.clone();
                (
                    GenerateState::RecordingCompletion { url },
                    GenerateAction::MarkCompleted { job_id, url: recorded },
                )
            },
            GenerateEvent::Uploaded(Err((e, text))) => (
                GenerateState::RecordingFailure { error: e },
                GenerateAction::MarkFailed { job_id, message: text },
            ),
            _ => {
                proof {
                    assert(false);
                }
                (GenerateState::Finished, GenerateAction::Respond(Ok(String::new())))
            },
        },
        GenerateState::RecordingCompletion { url } => match event {
            GenerateEvent::Recorded(Ok(())) => (
                GenerateState::Finished,
                GenerateAction::Respond(Ok(url)),
            ),
            GenerateEvent::Recorded(Err(e)) => (
                GenerateState::Finished,
                GenerateAction::Respond(Err(e)),
            ),
            _ => {
                proof {
                    assert(false);
                }
                (GenerateState::Finished, GenerateAction::Respond(Ok(String::new())))
            },
        },
        GenerateState::RecordingFailure { error } => match event {
            GenerateEvent::Recorded(_) => (
                GenerateState::Finished,
                GenerateAction::Respond(Err(error)),
            ),
            _ => {
                proof {
                    assert(false);
                }
                (GenerateState::Finished, GenerateAction::Respond(Ok(String::new())))
            },
        },
        GenerateState::Finished => {
            proof {
                assert(false);
            }
            (GenerateState::Finished, GenerateAction::Respond(Ok(String::new())))
        },
    }
}

/// Once its job exists, a request is not answered before the job's outcome
/// is recorded: while generating or uploading, every step asks to upload or to
/// mark the job, never to respond.
pub proof fn lemma_open_job_not_abandoned(
    s: GenerateState,
    event: GenerateEvent,
    t: GenerateState,
    a: GenerateAction,
)
    requires
        s is Generating || s is Uploading,
        generate_transition(s, event, t, a),
    ensures
        !(a is Respond),
        s is Uploading ==> (a is MarkCompleted || a is MarkFailed),
{
}

/// A generated image is uploaded unchanged under `jobs/<id>.png`, where `<id>`
/// is the hyphenated text of the job's id.
pub proof fn lemma_upload_of_generated_image(
    job_id: u128,
    image: String,
    t: GenerateState,
    a: GenerateAction,
)
    requires
        generate_transition(
            GenerateState::Generating { job_id },
            GenerateEvent::ImageGenerated(Ok(image)),
            t,
            a,
        ),
    ensures
        t == (GenerateState::Uploading { job_id }),
        a matches GenerateAction::Upload { key, content } && key@ == "jobs/"@ + spec_uuid_text(
            job_id,
        ) + ".png"@ && content@ == image@,
{
}

/// The URL that answers a request is the URL the job was recorded as
/// completed with.
pub proof fn lemma_answered_url_is_recorded(
    job_id: u128,
    uploaded: GenerateEvent,
    s2: GenerateState,
    a1: GenerateAction,
    recorded: GenerateEvent,
    s3: GenerateState,
    a2: GenerateAction,
    url: Seq<char>,
)
    requires
        generate_transition(GenerateState::Uploading { job_id }, uploaded, s2, a1),
        generate_transition(s2, recorded, s3, a2),
        responds_url(a2, url),
    ensures
        marks_completed(a1, job_id, url),
{
}

/// A failed image request is recorded on its job with the service's message,
/// and the answer is that same failure.
pub proof fn lemma_generation_failure_recorded(
    job_id: u128,
    msg: String,
    s2: GenerateState,
    a1: GenerateAction,
    recorded: GenerateEvent,
    s3: GenerateState,
    a2: GenerateAction,
)
    requires
        generate_transition(
            GenerateState::Generating { job_id },
            GenerateEvent::ImageGenerated(Err(msg)),
            s2,
            a1,
        ),
        generate_transition(s2, recorded, s3, a2),
    ensures
        marks_failed(a1, job_id, msg@),
        a2 matches GenerateAction::Respond(Err(AppError::ImageGeneration(m))) && m@ == msg@,
{
}

// ---------------------------------------------------------------------------
// Reading a job.
// ---------------------------------------------------------------------------

/// The job that a lookup found, or the error that answers a missing one.
pub fn job_or_not_found(found: Option<JobRecord>) -> (r: Result<JobRecord, AppError>)
    ensures
        match found {
            Some(j) => r == Ok::<JobRecord, AppError>(j),
            None => r matches Err(AppError::NotFound(what)) && what@ == "job"@,
        },
{
    match found {
        Some(j) => Ok(j),
        None => Err(AppError::NotFound(String::from_str("job"))),
    }
}

} // verus!
