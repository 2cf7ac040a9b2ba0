use imagegen::errors::AppError;
use imagegen::handlers::{
    generate_start, generate_step, job_or_not_found, login_start, login_step, signup_start,
    signup_step, AccountAction, AccountEvent, GenerateAction, GenerateEvent, GenerateState,
    LoginState, SignupState,
};
use imagegen::jobs::row_to_job;
use imagegen::users::UserRecord;

fn user(id: u128, hash: &str) -> UserRecord {
    UserRecord { id, email: "a@b.c".to_string(), password_hash: hash.to_string() }
}

#[test]
fn signup_of_new_address_creates_account_then_token() {
    let (s, a) = signup_start("a@b.c".to_string(), "pw1".to_string());
    match a {
        AccountAction::FindUser { email } => assert_eq!(email, "a@b.c"),
        _ => panic!("expected a lookup"),
    }
    let (s, a) = signup_step(s, AccountEvent::LookedUp(Ok(None)));
    assert!(matches!(s, SignupState::Hashing { .. }));
    let hashed = match a {
        AccountAction::HashPassword { password } => {
            assert_eq!(password, "pw1");
            imagegen::auth::hash_password(&password)
        }
        _ => panic!("expected hashing"),
    };
    let (s, a) = signup_step(s, AccountEvent::Hashed(hashed));
    let hash = match a {
        AccountAction::CreateUser { email, password_hash } => {
            assert_eq!(email, "a@b.c");
            password_hash
        }
        _ => panic!("expected account creation"),
    };
    assert!(matches!(s, SignupState::Creating));
    assert!(imagegen::auth::verify_password("pw1", &hash).unwrap());
    let (s, a) = signup_step(s, AccountEvent::Created(Ok(77)));
    assert!(matches!(a, AccountAction::IssueToken { user_id: 77 }));
    let (s, a) = signup_step(s, AccountEvent::TokenIssued(Ok("tok".to_string())));
    assert!(matches!(s, SignupState::Finished));
    match a {
        AccountAction::Respond(Ok(t)) => assert_eq!(t, "tok"),
        _ => panic!("expected the token"),
    }
}

#[test]
fn signup_of_taken_address_conflicts() {
    let (s, _) = signup_start("a@b.c".to_string(), "pw".to_string());
    let (s, a) = signup_step(s, AccountEvent::LookedUp(Ok(Some(user(1, "x")))));
    assert!(matches!(s, SignupState::Finished));
    match a {
        AccountAction::Respond(Err(AppError::Conflict(m))) => assert_eq!(m, "email already registered"),
        _ => panic!("expected a conflict"),
    }
}

#[test]
fn signup_lookup_failure_is_answered() {
    let (s, _) = signup_start("a@b.c".to_string(), "pw".to_string());
    let (_, a) = signup_step(s, AccountEvent::LookedUp(Err(AppError::from(sqlx::Error::PoolTimedOut))));
    assert!(matches!(a, AccountAction::Respond(Err(AppError::Database(_)))));
}

#[test]
fn signup_creation_failure_is_answered() {
    let (s, _) = signup_start("a@b.c".to_string(), "pw".to_string());
    let (s, _) = signup_step(s, AccountEvent::LookedUp(Ok(None)));
    let (s, _) = signup_step(s, AccountEvent::Hashed(Ok("h".to_string())));
    let (s, a) = signup_step(s, AccountEvent::Created(Err(AppError::from(sqlx::Error::RowNotFound))));
    assert!(matches!(s, SignupState::Finished));
    assert!(matches!(a, AccountAction::Respond(Err(AppError::Database(_)))));
}

#[test]
fn login_with_right_password_issues_token() {
    let hash = imagegen::auth::hash_password("pw1").unwrap();
    let (s, a) = login_start("a@b.c".to_string(), "pw1".to_string());
    assert!(matches!(a, AccountAction::FindUser { .. }));
    let (s, a) = login_step(s, AccountEvent::LookedUp(Ok(Some(user(5, &hash)))));
    assert!(matches!(s, LoginState::IssuingToken));
    assert!(matches!(a, AccountAction::IssueToken { user_id: 5 }));
    let (_, a) = login_step(s, AccountEvent::TokenIssued(Ok("t".to_string())));
    assert!(matches!(a, AccountAction::Respond(Ok(_))));
}

fn refusal(a: AccountAction) -> String {
    match a {
        AccountAction::Respond(Err(AppError::Auth(m))) => m,
        _ => panic!("expected a refusal"),
    }
}

#[test]
fn login_refusals_look_alike() {
    let hash = imagegen::auth::hash_password("pw1").unwrap();
    let (s, _) = login_start("a@b.c".to_string(), "wrong".to_string());
    let (_, a1) = login_step(s, AccountEvent::LookedUp(Ok(Some(user(5, &hash)))));
    let (s, _) = login_start("nobody@b.c".to_string(), "wrong".to_string());
    let (_, a2) = login_step(s, AccountEvent::LookedUp(Ok(None)));
    assert_eq!(refusal(a1), "invalid email or password");
    assert_eq!(refusal(a2), "invalid email or password");
}

#[test]
fn login_with_corrupt_hash_fails() {
    let (s, _) = login_start("a@b.c".to_string(), "pw".to_string());
    let (_, a) = login_step(s, AccountEvent::LookedUp(Ok(Some(user(5, "garbage")))));
    assert!(refusal(a).starts_with("failed to verify password: "));
}

#[test]
fn generation_success_records_and_returns_url() {
    let (s, a) = generate_start(3, "a fox".to_string());
    match a {
        GenerateAction::CreateJob { user_id, prompt } => {
            assert_eq!(user_id, 3);
            assert_eq!(prompt, "a fox");
        }
        _ => panic!("expected job creation"),
    }
    let job = 0x67e5504410b1426f9247bb680e5fe0c8u128;
    let (s, a) = generate_step(s, GenerateEvent::JobCreated(Ok(job)));
    match a {
        GenerateAction::GenerateImage { prompt } => assert_eq!(prompt, "a fox"),
        _ => panic!("expected an image request"),
    }
    let (s, a) = generate_step(s, GenerateEvent::ImageGenerated(Ok("https://img/1".to_string())));
    match a {
        GenerateAction::Upload { key, content } => {
            assert_eq!(key, "jobs/67e55044-10b1-426f-9247-bb680e5fe0c8.png");
            assert_eq!(content, "https://img/1");
        }
        _ => panic!("expected an upload"),
    }
    let url = "https://cdn/jobs/67e55044-10b1-426f-9247-bb680e5fe0c8.png".to_string();
    let (s, a) = generate_step(s, GenerateEvent::Uploaded(Ok(url.clone())));
    match a {
        GenerateAction::MarkCompleted { job_id, url: u } => {
            assert_eq!(job_id, job);
            assert_eq!(u, url);
        }
        _ => panic!("expected completion"),
    }
    let (s, a) = generate_step(s, GenerateEvent::Recorded(Ok(())));
    assert!(matches!(s, GenerateState::Finished));
    match a {
        GenerateAction::Respond(Ok(u)) => assert_eq!(u, url),
        _ => panic!("expected the url"),
    }
}

#[test]
fn generation_failure_marks_job_failed() {
    let (s, _) = generate_start(3, "a fox".to_string());
    let (s, _) = generate_step(s, GenerateEvent::JobCreated(Ok(9)));
    let (s, a) = generate_step(s, GenerateEvent::ImageGenerated(Err("rate limited".to_string())));
    match a {
        GenerateAction::MarkFailed { job_id, message } => {
            assert_eq!(job_id, 9);
            assert_eq!(message, "rate limited");
        }
        _ => panic!("expected failure record"),
    }
    let (_, a) = generate_step(s, GenerateEvent::Recorded(Err(AppError::from(sqlx::Error::RowNotFound))));
    match a {
        GenerateAction::Respond(Err(AppError::ImageGeneration(m))) => assert_eq!(m, "rate limited"),
        _ => panic!("expected the image error"),
    }
}

#[test]
fn upload_failure_marks_job_failed() {
    let (s, _) = generate_start(3, "p".to_string());
    let (s, _) = generate_step(s, GenerateEvent::JobCreated(Ok(9)));
    let (s, _) = generate_step(s, GenerateEvent::ImageGenerated(Ok("img".to_string())));
    let err = imagegen::r2::upload_failure("dns error");
    let text = format!("{:?}", err);
    let (s, a) = generate_step(s, GenerateEvent::Uploaded(Err((err, text.clone()))));
    match a {
        GenerateAction::MarkFailed { job_id, message } => {
            assert_eq!(job_id, 9);
            assert_eq!(message, "ImageGeneration(\"R2 upload failed: dns error\")");
        }
        _ => panic!("expected failure record"),
    }
    let (_, a) = generate_step(s, GenerateEvent::Recorded(Ok(())));
    match a {
        GenerateAction::Respond(Err(AppError::ImageGeneration(m))) => {
            assert_eq!(m, "R2 upload failed: dns error")
        }
        _ => panic!("expected the upload error"),
    }
}

#[test]
fn job_creation_failure_is_answered() {
    let (s, _) = generate_start(3, "p".to_string());
    let (s, a) = generate_step(s, GenerateEvent::JobCreated(Err(AppError::from(sqlx::Error::PoolClosed))));
    assert!(matches!(s, GenerateState::Finished));
    assert!(matches!(a, GenerateAction::Respond(Err(AppError::Database(_)))));
}

#[test]
fn completion_record_failure_is_answered() {
    let (s, _) = generate_start(3, "p".to_string());
    let (s, _) = generate_step(s, GenerateEvent::JobCreated(Ok(1)));
    let (s, _) = generate_step(s, GenerateEvent::ImageGenerated(Ok("img".to_string())));
    let (s, _) = generate_step(s, GenerateEvent::Uploaded(Ok("u".to_string())));
    let (_, a) = generate_step(s, GenerateEvent::Recorded(Err(AppError::from(sqlx::Error::PoolClosed))));
    assert!(matches!(a, GenerateAction::Respond(Err(AppError::Database(_)))));
}

#[test]
fn missing_job_is_not_found() {
    match job_or_not_found(None) {
        Err(AppError::NotFound(what)) => assert_eq!(what, "job"),
        _ => panic!("expected not found"),
    }
    let job = row_to_job((1, "image".into(), "m".into(), "p".into(), "pending".into(), None, None, 0, 0));
    assert_eq!(job_or_not_found(Some(job)).unwrap().id, 1);
}

#[test]
fn signup_then_login_succeeds() {
    let (s, _) = signup_start("new@b.c".to_string(), "hunter2".to_string());
    let (s, a) = signup_step(s, AccountEvent::LookedUp(Ok(None)));
    let hashed = match a {
        AccountAction::HashPassword { password } => imagegen::auth::hash_password(&password),
        _ => panic!("expected hashing"),
    };
    let (_, a) = signup_step(s, AccountEvent::Hashed(hashed));
    let stored = match a {
        AccountAction::CreateUser { email, password_hash } => UserRecord { id: 11, email, password_hash },
        _ => panic!("expected account creation"),
    };
    let (s, _) = login_start("new@b.c".to_string(), "hunter2".to_string());
    let (s, a) = login_step(s, AccountEvent::LookedUp(Ok(Some(stored))));
    assert!(matches!(s, LoginState::IssuingToken));
    assert!(matches!(a, AccountAction::IssueToken { user_id: 11 }));
}

#[test]
fn signup_hashing_failure_is_answered() {
    let (s, _) = signup_start("a@b.c".to_string(), "pw".to_string());
    let (s, _) = signup_step(s, AccountEvent::LookedUp(Ok(None)));
    let err = AppError::Auth("failed to hash password: no entropy".to_string());
    let (s, a) = signup_step(s, AccountEvent::Hashed(Err(err)));
    assert!(matches!(s, SignupState::Finished));
    match a {
        AccountAction::Respond(Err(AppError::Auth(m))) => {
            assert_eq!(m, "failed to hash password: no entropy")
        }
        _ => panic!("expected the hashing error"),
    }
}
