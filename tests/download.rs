use omu_dash::download::{
    check_checksum, check_url, digest_matches, judge_response, require_found, sha256_hex, DownloadError,
};

#[test]
fn only_https_is_downloaded() {
    assert_eq!(check_url("https://pypi.org/simple/"), Ok(()));
    assert_eq!(check_url("http://pypi.org/simple/"), Err(DownloadError::InsecureDownload));
    assert_eq!(check_url("ftp://x"), Err(DownloadError::InsecureDownload));
    assert_eq!(check_url(""), Err(DownloadError::InsecureDownload));
}

#[test]
fn responses_are_judged_by_status() {
    assert_eq!(judge_response(200, vec![1, 2]), Ok(Some(vec![1, 2])));
    assert_eq!(judge_response(299, vec![]), Ok(Some(vec![])));
    assert_eq!(judge_response(404, vec![9]), Ok(None));
    assert_eq!(judge_response(500, vec![9]), Err(DownloadError::HttpError { status: 500 }));
    assert_eq!(judge_response(301, vec![9]), Err(DownloadError::HttpError { status: 301 }));
}

#[test]
fn missing_resource_is_an_error_when_required() {
    assert_eq!(require_found(Ok(None)), Err(DownloadError::NotFound));
    assert_eq!(require_found(Ok(Some(vec![3]))), Ok(vec![3]));
    assert_eq!(
        require_found(Err(DownloadError::HttpError { status: 403 })),
        Err(DownloadError::HttpError { status: 403 })
    );
}

const ABC_SHA256: &str = "ba7816bf8f01cfea414140de5dae2223b00361a396177a9cb410ff61f20015ad";

#[test]
fn sha256_of_abc() {
    assert_eq!(sha256_hex(b"abc"), ABC_SHA256);
}

#[test]
fn checksum_accepts_the_published_digest() {
    assert!(check_checksum(b"abc", ABC_SHA256).is_ok());
}

#[test]
fn checksum_rejects_other_bytes() {
    let e = check_checksum(b"abd", ABC_SHA256).unwrap_err();
    assert_eq!(e.expected, ABC_SHA256);
    assert_ne!(e.actual, ABC_SHA256);
    assert_eq!(e.actual.len(), 64);
}

#[test]
fn digest_comparison_is_exact() {
    assert!(digest_matches(&[0xab, 0x01], "ab01").is_ok());
    assert!(digest_matches(&[0xab, 0x01], "AB01").is_err());
}
