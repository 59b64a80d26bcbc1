//! Decisions around a download: which URLs may be fetched, how a finished
//! transfer is judged, and the integrity check of what arrived.

use sha2::Digest;
use vstd::prelude::*;
use crate::text::{hex_string, is_lower_hex_char, lemma_lower_hex_shape, lower_hex, occurs_at, starts_with_str};

verus! {

/// Why a download produced no bytes.
#[derive(Clone, Debug, PartialEq, Eq)]
pub enum DownloadError {
    /// The URL does not use an encrypted transport.
    InsecureDownload,
    /// The server answered 404.
    NotFound,
    /// The server answered with another status outside 200..300.
    HttpError { status: u32 },
    /// The transfer itself failed.
    TransferFailed { msg: String },
}

/// The scheme prefix every download URL must carry.
pub open spec fn secure_prefix() -> Seq<char> {
    seq!['h', 't', 't', 'p', 's', ':', '/', '/']
}

/// Whether a URL may be downloaded.
pub open spec fn is_secure_url(url: Seq<char>) -> bool {
    occurs_at(url, secure_prefix(), 0)
}

/// Accepts only URLs that use an encrypted transport.
pub fn check_url(url: &str) -> (r: Result<(), DownloadError>)
    ensures
        r is Ok <==> is_secure_url(url@),
        r matches Err(e) ==> e is InsecureDownload,
{
    let prefix = "https://";
    proof {
        reveal_strlit("https://");
        assert(prefix@ =~= secure_prefix());
    }
    if starts_with_str(url, prefix) {
        Ok(())
    } else {
        Err(DownloadError::InsecureDownload)
    }
}

/// How a finished transfer with response `status` is judged.
pub open spec fn judged(status: u32, body: Vec<u8>) -> Result<Option<Vec<u8>>, DownloadError> {
    if status == 404 {
        Ok(None)
    } else if 200 <= status < 300 {
        Ok(Some(body))
    } else {
        Err(DownloadError::HttpError { status })
    }
}

/// Judges a finished transfer: the body on a 2xx status, `None` on 404,
/// an error on anything else.
pub fn judge_response(status: u32, body: Vec<u8>) -> (r: Result<Option<Vec<u8>>, DownloadError>)
    ensures
        r == judged(status, body),
{
    if status == 404 {
        Ok(None)
    } else if 200 <= status && status < 300 {
        Ok(Some(body))
    } else {
        Err(DownloadError::HttpError { status })
    }
}

/// Turns a missing resource into an error.
pub fn require_found(r: Result<Option<Vec<u8>>, DownloadError>) -> (out: Result<Vec<u8>, DownloadError>)
    ensures
        match r {
            Ok(Some(b)) => out == Ok::<Vec<u8>, DownloadError>(b),
            Ok(None) => out == Err::<Vec<u8>, DownloadError>(DownloadError::NotFound),
            Err(e) => out == Err::<Vec<u8>, DownloadError>(e),
        },
{
    match r {
        Ok(Some(b)) => Ok(b),
        Ok(None) => Err(DownloadError::NotFound),
        Err(e) => Err(e),
    }
}

/// The SHA-256 digest of a byte sequence.
pub uninterp spec fn sha256_of(b: Seq<u8>) -> Seq<u8>;

/// Relies on `sha2::Sha256::digest`: the 32-byte SHA-256 digest of the
/// input.
#[verifier::external_body]
fn sha256(b: &[u8]) -> (r: Vec<u8>)
    ensures
        r@ == sha256_of(b@),
        r@.len() == 32,
{
    sha2::Sha256::digest(b).to_vec()
}

/// A published digest that the downloaded bytes did not match.
#[derive(Clone, Debug, PartialEq, Eq)]
pub struct ChecksumMismatch {
    pub expected: String,
    pub actual: String,
}

/// Compares a digest with a published lower-case hexadecimal checksum.
pub fn digest_matches(digest: &[u8], expected: &str) -> (r: Result<(), ChecksumMismatch>)
    ensures
        r is Ok <==> lower_hex(digest@) == expected@,
        r matches Err(m) ==> m.expected@ == expected@ && m.actual@ == lower_hex(digest@),
{
    let actual = hex_string(digest);
    let wanted = String::from_str(expected);
    if actual == wanted {
        Ok(())
    } else {
        Err(ChecksumMismatch { expected: wanted, actual })
    }
}

/// Checks the SHA-256 digest of `contents` against a published checksum.
pub fn check_checksum(contents: &[u8], expected: &str) -> (r: Result<(), ChecksumMismatch>)
    ensures
        r is Ok <==> lower_hex(sha256_of(contents@)) == expected@,
        r matches Err(m) ==> m.expected@ == expected@ && m.actual@ == lower_hex(sha256_of(contents@)),
{
    let digest = sha256(contents);
    digest_matches(digest.as_slice(), expected)
}

/// Renders the SHA-256 digest of `bytes` in lower-case hexadecimal.
pub fn sha256_hex(bytes: &[u8]) -> (r: String)
    ensures
        r@ == lower_hex(sha256_of(bytes@)),
        r@.len() == 64,
        forall|i: int| 0 <= i < r@.len() ==> is_lower_hex_char(#[trigger] r@[i]),
{
    let digest = sha256(bytes);
    proof {
        lemma_lower_hex_shape(digest@);
    }
    hex_string(digest.as_slice())
}

} // verus!
