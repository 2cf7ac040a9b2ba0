use vstd::prelude::*;

verus! {

/// The object-storage client of the AWS SDK, carried opaquely.
#[verifier::external_type_specification]
#[verifier::external_body]
pub struct ExS3Client(aws_sdk_s3::Client);

/// The settings from which an S3 client is built.
pub struct S3Settings {
    pub region: String,
    pub endpoint: String,
    pub access_key_id: String,
    pub secret_access_key: String,
    pub provider_name: &'static str,
}

/// What an S3 client was configured with: region, endpoint URL, access key id,
/// secret access key, session token, whether the credentials expire, and the
/// name of the credentials provider.
pub type S3ClientConfig = (
    Seq<char>,
    Seq<char>,
    Seq<char>,
    Seq<char>,
    Option<Seq<char>>,
    bool,
    Seq<char>,
);

/// The configuration that a client built from `s` has: the settings as given,
/// with credentials that carry no session token and do not expire.
pub open spec fn config_of(s: S3Settings) -> S3ClientConfig {
    (
        s.region@,
        s.endpoint@,
        s.access_key_id@,
        s.secret_access_key@,
        None,
        false,
        s.provider_name@,
    )
}

/// An S3 client together with the configuration it was built with. Outside
/// this module a handle is only obtained from `build_s3_handle`, so the two
/// always belong together.
pub struct S3Handle {
    client: aws_sdk_s3::Client,
    configured: Ghost<S3ClientConfig>,
}

impl S3Handle {
    /// The configuration the client was built with.
    pub closed spec fn configured(&self) -> S3ClientConfig {
        self.configured@
    }

    /// The client.
    pub closed spec fn s3_client(&self) -> aws_sdk_s3::Client {
        self.client
    }

    /// The client, for sending requests.
    pub fn client(&self) -> (c: &aws_sdk_s3::Client)
        ensures
            *c == self.s3_client(),
    {
        &self.client
    }
}

/// Builds an `aws_sdk_s3::Client` from `settings`, through
/// `Credentials::new(access_key_id, secret_access_key, None, None,
/// provider_name)`, `Region::new(region)`, `endpoint_url(endpoint)`, the latest
/// behavior version, `aws_sdk_s3::Config::builder()` and `Client::from_conf`.
/// Claimed: the client is configured with exactly these settings, its
/// credentials with no session token and no expiry (the source hands each
/// value to the builder unchanged; building does no I/O, and `from_conf` does
/// not panic with a behavior version set and tokio's sleep implementation).
/// Nothing else is claimed of the client, which is opaque here.
#[verifier::external_body]
pub(crate) fn build_s3_handle(settings: &S3Settings) -> (h: S3Handle)
    ensures
        h.configured() == config_of(*settings),
{
    let credentials = aws_sdk_s3::config::Credentials::new(settings.access_key_id.clone(),
        settings.secret_access_key.clone(), None, None, settings.provider_name);
    let conf = aws_sdk_s3::Config::builder()
        .region(aws_sdk_s3::config::Region::new(settings.region.clone()))
        .endpoint_url(settings.endpoint.clone()).credentials_provider(credentials)
        .behavior_version_latest().build();
    S3Handle { client: aws_sdk_s3::Client::from_conf(conf), configured: Ghost(config_of(*settings)) }
}

} // verus!
