use omu_dash::options::{AppOptions, PythonVersionRequest};
use omu_dash::python::{
    find_download, Python, PythonAction, PythonDownload, PythonEnsureError, PythonEvent, PythonPhase, PythonVersion,
};

fn build(arch: &str, os: &str, minor: u8, patch: u8) -> PythonVersion {
    PythonVersion {
        name: "cpython".to_string(),
        arch: arch.to_string(),
        os: os.to_string(),
        major: 3,
        minor,
        patch,
        suffix: None,
    }
}

const ABC_SHA256: &str = "ba7816bf8f01cfea414140de5dae2223b00361a396177a9cb410ff61f20015ad";

fn table() -> Vec<PythonDownload> {
    vec![
        PythonDownload { version: build("aarch64", "macos", 13, 2), url: "https://example.org/mac.tar.zst".to_string(), sha256: None },
        PythonDownload { version: build("x86_64", "linux", 12, 9), url: "https://example.org/old.tar.zst".to_string(), sha256: None },
        PythonDownload {
            version: build("x86_64", "linux", 13, 2),
            url: "https://example.org/linux.tar.zst".to_string(),
            sha256: Some(ABC_SHA256.to_string()),
        },
        PythonDownload { version: build("x86_64", "linux", 13, 2), url: "https://example.org/dup.tar.zst".to_string(), sha256: None },
    ]
}

fn options() -> AppOptions {
    AppOptions::from_dirs("/data", "/bin")
}

#[test]
fn first_matching_build_for_the_host() {
    let req = PythonVersionRequest::pinned();
    assert_eq!(find_download(&req, "x86_64", "linux", &table()), Some(2));
    assert_eq!(find_download(&req, "aarch64", "macos", &table()), Some(0));
    assert_eq!(find_download(&req, "x86_64", "windows", &table()), None);
    let mut any_patch = PythonVersionRequest::pinned();
    any_patch.minor = Some(12);
    any_patch.patch = None;
    assert_eq!(find_download(&any_patch, "x86_64", "linux", &table()), Some(1));
}

#[test]
fn warm_start_uses_the_marker_and_fetches_nothing() {
    let mut m = Python::ensure(&options(), "x86_64", "linux", table(), false);
    match m.step(PythonEvent::Succeeded) {
        PythonAction::Inspect { path } => assert_eq!(path, "/bin/python/3.13.2"),
        other => panic!("unexpected {:?}", other),
    }
    match m.step(PythonEvent::Inspected { marker: Some(build("x86_64", "linux", 13, 2)) }) {
        PythonAction::Finish { result: Ok(p) } => {
            assert_eq!(p.version.patch, 2);
            assert_eq!(p.python_bin, "/bin/python/3.13.2/install/bin/python");
        },
        other => panic!("unexpected {:?}", other),
    }
    assert_eq!(m.phase, PythonPhase::Finished);
    assert!(matches!(m.step(PythonEvent::Succeeded), PythonAction::Idle));
}

#[test]
fn ensuring_twice_downloads_once_and_returns_the_same_version() {
    let mut first = Python::ensure(&options(), "x86_64", "linux", table(), false);
    let mut downloads = 0;
    let mut marker = None;
    let mut a = first.step(PythonEvent::Inspected { marker: None });
    let installed = loop {
        a = match a {
            PythonAction::Download { url } => {
                downloads += 1;
                assert_eq!(url, "https://example.org/linux.tar.zst");
                first.step(PythonEvent::Downloaded { contents: b"abc".to_vec() })
            },
            PythonAction::ReplaceDir { path, contents, strip } => {
                assert_eq!(path, "/bin/python/3.13.2");
                assert_eq!(contents, b"abc".to_vec());
                assert_eq!(strip, 1);
                first.step(PythonEvent::Succeeded)
            },
            PythonAction::WriteMarker { version, .. } => {
                marker = Some(version);
                first.step(PythonEvent::Succeeded)
            },
            PythonAction::Finish { result } => break result.unwrap(),
            other => panic!("unexpected {:?}", other),
        };
    };
    assert_eq!(downloads, 1);
    let mut second = Python::ensure(&options(), "x86_64", "linux", table(), false);
    match second.step(PythonEvent::Inspected { marker }) {
        PythonAction::Finish { result: Ok(p) } => {
            assert_eq!((p.version.major, p.version.minor, p.version.patch), (3, 13, 2));
            assert_eq!(p.version.arch, installed.version.arch);
            assert_eq!(p.path, installed.path);
        },
        other => panic!("unexpected {:?}", other),
    }
}

#[test]
fn checksum_mismatch_fails() {
    let mut m = Python::ensure(&options(), "x86_64", "linux", table(), false);
    m.step(PythonEvent::Inspected { marker: None });
    match m.step(PythonEvent::Downloaded { contents: b"not abc".to_vec() }) {
        PythonAction::Finish { result: Err(PythonEnsureError::ChecksumFailed { msg }) } => {
            assert_eq!(msg, "Checksum failed for Python 3.13.2")
        },
        other => panic!("unexpected {:?}", other),
    }
}

#[test]
fn unknown_version_fails() {
    let mut m = Python::ensure(&options(), "riscv64", "linux", table(), true);
    assert_eq!(m.python_bin, "/bin/python/3.13.2/install/python.exe");
    match m.step(PythonEvent::Inspected { marker: None }) {
        PythonAction::Finish { result: Err(PythonEnsureError::UnkownVersion { msg }) } => {
            assert_eq!(msg, "Unknown Python version: 3.13.2")
        },
        other => panic!("unexpected {:?}", other),
    }
}

#[test]
fn download_and_extract_failures() {
    let mut m = Python::ensure(&options(), "x86_64", "linux", table(), false);
    m.step(PythonEvent::Inspected { marker: None });
    assert!(matches!(
        m.step(PythonEvent::Failed { msg: "404".to_string() }),
        PythonAction::Finish { result: Err(PythonEnsureError::UnkownVersion { .. }) }
    ));
    let mut m = Python::ensure(&options(), "x86_64", "linux", table(), false);
    m.step(PythonEvent::Inspected { marker: None });
    m.step(PythonEvent::Downloaded { contents: b"abc".to_vec() });
    assert!(matches!(
        m.step(PythonEvent::Failed { msg: "disk full".to_string() }),
        PythonAction::Finish { result: Err(PythonEnsureError::ExtractFailed { .. }) }
    ));
}
