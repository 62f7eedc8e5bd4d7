use hmac::{Hmac, Mac};
use sha2::{Digest, Sha256};
use vstd::prelude::*;

verus! {

/// The HMAC-SHA256 tag of a message under a key.
pub uninterp spec fn hmac_sha256_of(key: Seq<u8>, msg: Seq<u8>) -> Seq<u8>;

/// The SHA-256 digest of a byte sequence.
pub uninterp spec fn sha256_of(data: Seq<u8>) -> Seq<u8>;

/// Relies on `hmac::Hmac<sha2::Sha256>` (`new_from_slice`, `update`, `finalize`):
/// the tag is 32 bytes and depends on key and message alone. `new_from_slice`
/// accepts a key of any length (it is hashed or padded to the block size), so it
/// never returns its error.
#[verifier::external_body]
pub(crate) fn hmac_sha256(key: &[u8], msg: &[u8]) -> (r: Vec<u8>)
    ensures
        r@ == hmac_sha256_of(key@, msg@),
        r@.len() == 32,
{
    let mut mac = <Hmac<Sha256> as Mac>::new_from_slice(key).unwrap();
    mac.update(msg);
    mac.finalize().into_bytes().to_vec()
}

/// Relies on `sha2::Sha256::digest`: the digest is 32 bytes and depends on the
/// input alone.
#[verifier::external_body]
pub(crate) fn sha256(data: &[u8]) -> (r: Vec<u8>)
    ensures
        r@ == sha256_of(data@),
        r@.len() == 32,
{
    Sha256::digest(data).to_vec()
}

} // verus!
