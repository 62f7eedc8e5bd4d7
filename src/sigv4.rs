use crate::crypto::{hmac_sha256, hmac_sha256_of, sha256, sha256_of};
use crate::hex::{hex_of, to_hex_lower};
use vstd::prelude::*;
use vstd::string::*;
use vstd::utf8::encode_utf8;

verus! {

/// The scoped signing key: a four-step HMAC-SHA256 chain over date, region,
/// service and the fixed terminator `aws4_request`, keyed first by `AWS4` + secret.
pub open spec fn signing_key_of(
    secret: Seq<char>,
    date: Seq<char>,
    region: Seq<char>,
    service: Seq<char>,
) -> Seq<u8> {
    let k_date = hmac_sha256_of(encode_utf8("AWS4"@ + secret), encode_utf8(date));
    let k_region = hmac_sha256_of(k_date, encode_utf8(region));
    let k_service = hmac_sha256_of(k_region, encode_utf8(service));
    hmac_sha256_of(k_service, encode_utf8("aws4_request"@))
}

/// `date/region/s3/aws4_request`.
pub open spec fn credential_scope_of(date: Seq<char>, region: Seq<char>) -> Seq<char> {
    date + "/"@ + region + "/s3/aws4_request"@
}

/// The headers that take part in the signature, in canonical order.
pub open spec fn signed_headers_of() -> Seq<char> {
    "content-type;host;x-amz-date"@
}

/// The canonical form of a PUT of an object: method, URI, empty query, the
/// canonical headers, the signed-header list and the payload hash.
pub open spec fn canonical_request_of(
    host: Seq<char>,
    key: Seq<char>,
    timestamp: Seq<char>,
    payload_hash: Seq<char>,
) -> Seq<char> {
    "PUT\n/"@ + key + "\n\n"@ + "content-type:application/octet-stream\nhost:"@ + host
        + "\nx-amz-date:"@ + timestamp + "\n\n"@ + signed_headers_of() + "\n"@ + payload_hash
}

/// The string to sign: algorithm, timestamp, scope and the hex SHA-256 of the
/// canonical request.
pub open spec fn string_to_sign_of(
    timestamp: Seq<char>,
    scope: Seq<char>,
    canonical_request: Seq<char>,
) -> Seq<char> {
    "AWS4-HMAC-SHA256\n"@ + timestamp + "\n"@ + scope + "\n"@ + hex_of(
        sha256_of(encode_utf8(canonical_request)),
    )
}

/// The hex HMAC of the string to sign under the signing key.
pub open spec fn signature_of(signing_key: Seq<u8>, string_to_sign: Seq<char>) -> Seq<char> {
    hex_of(hmac_sha256_of(signing_key, encode_utf8(string_to_sign)))
}

/// The `Authorization` header value for one request.
pub open spec fn auth_header_of(
    access_key: Seq<char>,
    signing_key: Seq<u8>,
    date: Seq<char>,
    region: Seq<char>,
    timestamp: Seq<char>,
    host: Seq<char>,
    key: Seq<char>,
    payload_hash: Seq<char>,
) -> Seq<char> {
    let scope = credential_scope_of(date, region);
    let sts = string_to_sign_of(timestamp, scope, canonical_request_of(host, key, timestamp, payload_hash));
    "AWS4-HMAC-SHA256 Credential="@ + access_key + "/"@ + scope + ", SignedHeaders="@
        + signed_headers_of() + ", Signature="@ + signature_of(signing_key, sts)
}

/// Derives the scoped signing key from the secret key, date, region and service.
pub fn get_signature_key(secret_key: &str, date: &str, region: &str, service: &str) -> (r: Vec<u8>)
    ensures
        r@ == signing_key_of(secret_key@, date@, region@, service@),
        r@.len() == 32,
{
    let mut seed = String::from_str("AWS4");
    seed.append(secret_key);
    let k_date = hmac_sha256(seed.as_str().as_bytes(), date.as_bytes());
    let k_region = hmac_sha256(k_date.as_slice(), region.as_bytes());
    let k_service = hmac_sha256(k_region.as_slice(), service.as_bytes());
    hmac_sha256(k_service.as_slice(), "aws4_request".as_bytes())
}

/// The credential scope `date/region/s3/aws4_request`.
pub fn credential_scope(date: &str, region: &str) -> (r: String)
    ensures
        r@ == credential_scope_of(date@, region@),
{
    let mut r = String::from_str(date);
    r.append("/");
    r.append(region);
    r.append("/s3/aws4_request");
    r
}

/// Lowercase hex SHA-256 of a request body.
pub fn payload_hash(body: &[u8]) -> (r: String)
    ensures
        r@ == hex_of(sha256_of(body@)),
{
    let digest = sha256(body);
    to_hex_lower(digest.as_slice())
}

/// The canonical request of a PUT of `key` to `host`.
pub fn canonical_request(host: &str, key: &str, timestamp: &str, payload_hash: &str) -> (r: String)
    ensures
        r@ == canonical_request_of(host@, key@, timestamp@, payload_hash@),
{
    let mut r = String::from_str("PUT\n/");
    r.append(key);
    r.append("\n\n");
    r.append("content-type:application/octet-stream\nhost:");
    r.append(host);
    r.append("\nx-amz-date:");
    r.append(timestamp);
    r.append("\n\n");
    r.append("content-type;host;x-amz-date");
    r.append("\n");
    r.append(payload_hash);
    r
}

/// The string to sign for a canonical request.
pub fn string_to_sign(timestamp: &str, scope: &str, canonical_request: &str) -> (r: String)
    ensures
        r@ == string_to_sign_of(timestamp@, scope@, canonical_request@),
{
    let digest = sha256(canonical_request.as_bytes());
    let digest_hex = to_hex_lower(digest.as_slice());
    let mut r = String::from_str("AWS4-HMAC-SHA256\n");
    r.append(timestamp);
    r.append("\n");
    r.append(scope);
    r.append("\n");
    r.append(digest_hex.as_str());
    r
}

/// The hex signature of a string to sign under a signing key.
pub fn sign(signing_key: &[u8], string_to_sign: &str) -> (r: String)
    ensures
        r@ == signature_of(signing_key@, string_to_sign@),
{
    let tag = hmac_sha256(signing_key, string_to_sign.as_bytes());
    to_hex_lower(tag.as_slice())
}

/// The `Authorization` header value for a PUT of `filename` to `host`.
pub fn generate_auth_header(
    access_key: &str,
    signing_key: &[u8],
    date: &str,
    region: &str,
    timestamp: &str,
    host: &str,
    filename: &str,
    payload_hash: &str,
) -> (r: String)
    ensures
        r@ == auth_header_of(
            access_key@,
            signing_key@,
            date@,
            region@,
            timestamp@,
            host@,
            filename@,
            payload_hash@,
        ),
{
    let scope = credential_scope(date, region);
    let creq = canonical_request(host, filename, timestamp, payload_hash);
    let sts = string_to_sign(timestamp, scope.as_str(), creq.as_str());
    let signature = sign(signing_key, sts.as_str());
    let mut r = String::from_str("AWS4-HMAC-SHA256 Credential=");
    r.append(access_key);
    r.append("/");
    r.append(scope.as_str());
    r.append(", SignedHeaders=");
    r.append("content-type;host;x-amz-date");
    r.append(", Signature=");
    r.append(signature.as_str());
    r
}

} // verus!
