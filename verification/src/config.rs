use vstd::prelude::*;

verus! {

/// Settings of the service, as read from its environment.
pub struct Config {
    pub _openai_api_key: String,
    pub database_url: String,
    pub jwt_secret: String,
    pub r2_account_id: String,
    pub r2_access_key_id: String,
    pub r2_secret_access_key: String,
    pub r2_bucket_name: String,
    pub r2_public_url: String,
}

} // verus!
