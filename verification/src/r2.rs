use vstd::prelude::*;

use crate::config::Config;
use crate::errors::AppError;
use crate::s3::{build_s3_handle, S3ClientConfig, S3Handle, S3Settings};

verus! {

/// Content type under which generated images are stored.
pub const IMAGE_CONTENT_TYPE: &'static str = "image/png";

/// `s` without the `/` characters at its end.
pub open spec fn trim_trailing_slashes(s: Seq<char>) -> Seq<char>
    decreases s.len(),
{
    if s.len() > 0 && s.last() == '/' {
        trim_trailing_slashes(s.drop_last())
    } else {
        s
    }
}

/// Public URL of the object stored under `key`, below the public base URL `base`.
pub open spec fn public_object_url(base: Seq<char>, key: Seq<char>) -> Seq<char> {
    trim_trailing_slashes(base) + "/"@ + key
}

/// Trailing slashes on the public base URL do not change the URL of an object.
pub proof fn lemma_object_url_ignores_trailing_slash(base: Seq<char>, key: Seq<char>)
    ensures
        public_object_url(base.push('/'), key) == public_object_url(base, key),
{
    assert(base.push('/').drop_last() =~= base);
}

/// The base part of an object URL is a prefix of the configured base URL and
/// does not end in `/`, so exactly one `/` separates it from the key.
pub proof fn lemma_trimmed_base(base: Seq<char>)
    ensures
        trim_trailing_slashes(base).len() <= base.len(),
        trim_trailing_slashes(base) =~= base.subrange(0, trim_trailing_slashes(base).len() as int),
        trim_trailing_slashes(base).len() == 0 || trim_trailing_slashes(base).last() != '/',
    decreases base.len(),
{
    if base.len() > 0 && base.last() == '/' {
        lemma_trimmed_base(base.drop_last());
        assert(base.drop_last().subrange(0, trim_trailing_slashes(base).len() as int)
            =~= base.subrange(0, trim_trailing_slashes(base).len() as int));
    } else {
        assert(base.subrange(0, base.len() as int) =~= base);
    }
}

/// S3-compatible endpoint of the R2 account `account`.
pub open spec fn spec_r2_endpoint(account: Seq<char>) -> Seq<char> {
    "https://"@ + account + ".r2.cloudflarestorage.com"@
}

/// `s` are the settings of the client for the R2 account that `cfg` names:
/// region `auto`, the account's endpoint, its key id and secret, provider `r2`.
pub open spec fn settings_for(s: S3Settings, cfg: Config) -> bool {
    &&& s.region@ == "auto"@
    &&& s.endpoint@ == spec_r2_endpoint(cfg.r2_account_id@)
    &&& s.access_key_id@ == cfg.r2_access_key_id@
    &&& s.secret_access_key@ == cfg.r2_secret_access_key@
    &&& s.provider_name@ == "r2"@
}

/// The settings of the client for the R2 account that `cfg` names.
pub fn s3_settings(cfg: &Config) -> (s: S3Settings)
    ensures
        settings_for(s, *cfg),
{
    S3Settings {
        region: String::from_str("auto"),
        endpoint: r2_endpoint(cfg.r2_account_id.as_str()),
        access_key_id: cfg.r2_access_key_id.clone(),
        secret_access_key: cfg.r2_secret_access_key.clone(),
        provider_name: "r2",
    }
}

/// `s` without its trailing `/` characters.
pub fn trim_end_slashes(s: &str) -> (r: &str)
    ensures
        r@ == trim_trailing_slashes(s@),
{
    let n: usize = s.unicode_len();
    let mut end: usize = n;
    assert(s@.subrange(0, n as int) =~= s@);
    while end > 0 && s.get_char(end - 1) == '/'
        invariant
            end <= n,
            n == s@.len(),
            trim_trailing_slashes(s@) == trim_trailing_slashes(s@.subrange(0, end as int)),
        decreases end,
    {
        assert(s@.subrange(0, end as int).drop_last() =~= s@.subrange(0, end - 1));
        end = end - 1;
    }
    s.substring_char(0, end)
}

/// The S3-compatible endpoint of an R2 account.
pub fn r2_endpoint(account_id: &str) -> (url: String)
    ensures
        url@ == spec_r2_endpoint(account_id@),
{
    String::from_str("https://").concat(account_id).concat(".r2.cloudflarestorage.com")
}

/// The error reported when storing an object failed; `detail` describes the failure.
pub fn upload_failure(detail: &str) -> (e: AppError)
    ensures
        e matches AppError::ImageGeneration(m) && m@ == "R2 upload failed: "@ + detail@,
{
    AppError::ImageGeneration(String::from_str("R2 upload failed: ").concat(detail))
}

/// Client of the R2 bucket that holds generated images.
pub struct R2Client {
    s3: S3Handle,
    bucket: String,
    public_url: String,
}

impl R2Client {
    /// Name of the bucket that objects go to.
    pub closed spec fn bucket_name(&self) -> Seq<char> {
        self.bucket@
    }

    /// The S3 client through which this client's requests are sent.
    pub closed spec fn s3_client(&self) -> aws_sdk_s3::Client {
        self.s3.s3_client()
    }

    /// The configuration of that S3 client.
    pub closed spec fn client_config(&self) -> S3ClientConfig {
        self.s3.configured()
    }

    /// Public base URL under which stored objects are served.
    pub closed spec fn public_base(&self) -> Seq<char> {
        self.public_url@
    }

    /// A client for the bucket and account that `cfg` names, reached at the
    /// account's R2 endpoint in region `auto` with the account's credentials
    /// (no session token, no expiry) under provider name `r2`.
    pub fn new(cfg: &Config) -> (c: Self)
        ensures
            c.bucket_name() == cfg.r2_bucket_name@,
            c.public_base() == cfg.r2_public_url@,
            c.client_config() == (
                "auto"@,
                spec_r2_endpoint(cfg.r2_account_id@),
                cfg.r2_access_key_id@,
                cfg.r2_secret_access_key@,
                None::<Seq<char>>,
                false,
                "r2"@,
            ),
    {
        let settings = s3_settings(cfg);
        let s3 = build_s3_handle(&settings);
        R2Client { s3, bucket: cfg.r2_bucket_name.clone(), public_url: cfg.r2_public_url.clone() }
    }

    /// The underlying S3 client, for sending requests.
    pub fn client(&self) -> (c: &aws_sdk_s3::Client)
        ensures
            *c == self.s3_client(),
    {
        self.s3.client()
    }

    /// Name of the bucket that objects go to.
    pub fn bucket(&self) -> (b: &str)
        ensures
            b@ == self.bucket_name(),
    {
        self.bucket.as_str()
    }

    /// Public URL of the object stored under `key`.
    pub fn object_url(&self, key: &str) -> (url: String)
        ensures
            url@ == public_object_url(self.public_base(), key@),
    {
        let base = trim_end_slashes(self.public_url.as_str());
        String::from_str(base).concat("/").concat(key)
    }
}

} // verus!
