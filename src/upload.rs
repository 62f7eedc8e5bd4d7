use crate::crypto::sha256_of;
use crate::destination::{object_host, object_host_of, object_url, object_url_of};
use crate::hex::hex_of;
use crate::sigv4::{auth_header_of, generate_auth_header, get_signature_key, payload_hash, signing_key_of};
use vstd::prelude::*;
use vstd::string::*;

verus! {

/// Credentials and target of the object store, read once at start-up.
#[derive(Clone, Debug)]
pub struct S3Config {
    pub access_key: String,
    pub secret_key: String,
    pub bucket: String,
    pub region: String,
}

/// Everything a PUT of one object carries besides its body.
#[derive(Clone, Debug)]
pub struct PutRequest {
    pub url: String,
    pub content_type: String,
    /// The `x-amz-date` header.
    pub amz_date: String,
    /// The `x-amz-content-sha256` header.
    pub content_sha256: String,
    /// The `Authorization` header.
    pub authorization: String,
}

/// Why one object could not be stored.
#[derive(Clone, Debug, PartialEq, Eq)]
pub enum UploadError {
    /// The store answered with a status outside the success range.
    Status(u16),
    /// The request did not complete; the cause as the transport described it.
    Transport(String),
}

/// The signing key of a batch: it depends on the date and the configuration only,
/// so one is derived per batch and used for every file of it.
pub fn batch_signing_key(config: &S3Config, date: &str) -> (r: Vec<u8>)
    ensures
        r@ == signing_key_of(config.secret_key@, date@, config.region@, "s3"@),
        r@.len() == 32,
{
    get_signature_key(config.secret_key.as_str(), date, config.region.as_str(), "s3")
}

/// Builds the signed PUT of `filename` with body `body`.
pub fn prepare_put(
    config: &S3Config,
    signing_key: &[u8],
    date: &str,
    timestamp: &str,
    filename: &str,
    body: &[u8],
) -> (r: PutRequest)
    ensures
        r.url@ == object_url_of(config.bucket@, config.region@, filename@),
        r.content_type@ == "application/octet-stream"@,
        r.amz_date@ == timestamp@,
        r.content_sha256@ == hex_of(sha256_of(body@)),
        r.authorization@ == auth_header_of(
            config.access_key@,
            signing_key@,
            date@,
            config.region@,
            timestamp@,
            object_host_of(config.bucket@, config.region@),
            filename@,
            hex_of(sha256_of(body@)),
        ),
{
    let host = object_host(config.bucket.as_str(), config.region.as_str());
    let hash = payload_hash(body);
    let authorization = generate_auth_header(
        config.access_key.as_str(),
        signing_key,
        date,
        config.region.as_str(),
        timestamp,
        host.as_str(),
        filename,
        hash.as_str(),
    );
    PutRequest {
        url: object_url(config.bucket.as_str(), config.region.as_str(), filename),
        content_type: String::from_str("application/octet-stream"),
        amz_date: String::from_str(timestamp),
        content_sha256: hash,
        authorization,
    }
}

/// Classifies the status of the store's answer: success exactly in 200..=299.
pub fn classify_status(status: u16) -> (r: Result<(), UploadError>)
    ensures
        r is Ok <==> 200 <= status <= 299,
        r is Err ==> r == Err::<(), UploadError>(UploadError::Status(status)),
{
    if 200 <= status && status <= 299 {
        Ok(())
    } else {
        Err(UploadError::Status(status))
    }
}

/// The signing key is a function of secret, date and region: deriving it twice
/// from the same inputs yields the same bytes.
pub proof fn lemma_signing_key_reproducible(
    secret: Seq<char>,
    date: Seq<char>,
    region: Seq<char>,
    k1: Seq<u8>,
    k2: Seq<u8>,
)
    requires
        k1 == signing_key_of(secret, date, region, "s3"@),
        k2 == signing_key_of(secret, date, region, "s3"@),
    ensures
        k1 == k2,
{
}

} // verus!
