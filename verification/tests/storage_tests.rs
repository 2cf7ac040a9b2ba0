use imagegen::config::Config;
use imagegen::errors::AppError;
use imagegen::r2::{r2_endpoint, s3_settings, trim_end_slashes, upload_failure, R2Client, IMAGE_CONTENT_TYPE};

fn config(public_url: &str) -> Config {
    Config {
        _openai_api_key: "sk-test".to_string(),
        database_url: "postgres://localhost/db".to_string(),
        jwt_secret: "secret".to_string(),
        r2_account_id: "acct123".to_string(),
        r2_access_key_id: "key-id".to_string(),
        r2_secret_access_key: "SECRET-REDACTED".to_string(),
        r2_bucket_name: "images".to_string(),
        r2_public_url: public_url.to_string(),
    }
}

#[test]
fn endpoint_of_account() {
    assert_eq!(r2_endpoint("acct123"), "https://acct123.r2.cloudflarestorage.com");
}

#[test]
fn trailing_slashes_are_trimmed() {
    assert_eq!(trim_end_slashes("https://cdn.example.com///"), "https://cdn.example.com");
    assert_eq!(trim_end_slashes("https://cdn.example.com"), "https://cdn.example.com");
    assert_eq!(trim_end_slashes("///"), "");
    assert_eq!(trim_end_slashes(""), "");
    assert_eq!(trim_end_slashes("a/b"), "a/b");
}

#[test]
fn object_url_joins_base_and_key() {
    let c = R2Client::new(&config("https://cdn.example.com/"));
    assert_eq!(c.bucket(), "images");
    assert_eq!(c.object_url("jobs/x.png"), "https://cdn.example.com/jobs/x.png");
    let d = R2Client::new(&config("https://cdn.example.com"));
    assert_eq!(d.object_url("jobs/x.png"), "https://cdn.example.com/jobs/x.png");
}

#[test]
fn upload_failure_is_an_image_error() {
    match upload_failure("timeout") {
        AppError::ImageGeneration(m) => assert_eq!(m, "R2 upload failed: timeout"),
        other => panic!("unexpected {:?}", other),
    }
    assert_eq!(IMAGE_CONTENT_TYPE, "image/png");
}

#[test]
fn settings_of_account() {
    let s = s3_settings(&config("https://cdn.example.com"));
    assert_eq!(s.region, "auto");
    assert_eq!(s.endpoint, "https://acct123.r2.cloudflarestorage.com");
    assert_eq!(s.access_key_id, "key-id");
    assert_eq!(s.secret_access_key, "SECRET-REDACTED");
    assert_eq!(s.provider_name, "r2");
}
