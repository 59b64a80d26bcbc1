//! The managed Python runtime: which build to fetch, and the decisions of
//! installing it once and reusing it afterwards.

use vstd::prelude::*;
use vstd::string::*;
use crate::download::{check_checksum, sha256_of};
use crate::options::{request_text, AppOptions, PythonVersionRequest};
use crate::text::{join_path, lower_hex, path_join};

verus! {

/// A concrete Python build.
#[derive(Clone, Debug)]
pub struct PythonVersion {
    pub name: String,
    pub arch: String,
    pub os: String,
    pub major: u8,
    pub minor: u8,
    pub patch: u8,
    pub suffix: Option<String>,
}

/// An installed Python runtime.
#[derive(Clone, Debug)]
pub struct Python {
    pub version: PythonVersion,
    pub path: String,
    pub python_bin: String,
}

/// A failure while installing the runtime.
#[derive(Clone, Debug)]
pub enum PythonEnsureError {
    ChecksumFailed { msg: String },
    ExtractFailed { msg: String },
    UnkownVersion { msg: String },
}

/// One published build: its version, where to fetch it and, when
/// published, its SHA-256 checksum.
#[derive(Clone, Debug)]
pub struct PythonDownload {
    pub version: PythonVersion,
    pub url: String,
    pub sha256: Option<String>,
}

/// Whether a requested text matches (an absent request matches anything).
pub open spec fn text_matches(req: Option<String>, actual: String) -> bool {
    match req {
        Some(r) => r@ == actual@,
        None => true,
    }
}

/// Whether the build `v` answers the request on a host of `host_arch` and
/// `host_os`: architecture and system default to the host's.
pub open spec fn build_matches(req: PythonVersionRequest, host_arch: Seq<char>, host_os: Seq<char>, v: PythonVersion) -> bool {
    &&& text_matches(req.name, v.name)
    &&& match req.arch {
        Some(a) => a@ == v.arch@,
        None => v.arch@ == host_arch,
    }
    &&& match req.os {
        Some(o) => o@ == v.os@,
        None => v.os@ == host_os,
    }
    &&& req.major == v.major
    &&& match req.minor {
        Some(m) => m == v.minor,
        None => true,
    }
    &&& match req.patch {
        Some(p) => p == v.patch,
        None => true,
    }
    &&& match req.suffix {
        Some(s) => v.suffix matches Some(t) && t@ == s@,
        None => true,
    }
}

fn text_matches_exec(req: &Option<String>, actual: &String) -> (r: bool)
    ensures
        r == text_matches(*req, *actual),
{
    match req {
        Some(x) => *x == *actual,
        None => true,
    }
}

fn build_matches_exec(req: &PythonVersionRequest, host_arch: &String, host_os: &String, v: &PythonVersion) -> (r: bool)
    ensures
        r == build_matches(*req, host_arch@, host_os@, *v),
{
    let name_ok = text_matches_exec(&req.name, &v.name);
    let arch_ok = match &req.arch {
        Some(a) => *a == v.arch,
        None => *host_arch == v.arch,
    };
    let os_ok = match &req.os {
        Some(o) => *o == v.os,
        None => *host_os == v.os,
    };
    let minor_ok = match req.minor {
        Some(m) => m == v.minor,
        None => true,
    };
    let patch_ok = match req.patch {
        Some(p) => p == v.patch,
        None => true,
    };
    let suffix_ok = match &req.suffix {
        Some(s) => match &v.suffix {
            Some(t) => *t == *s,
            None => false,
        },
        None => true,
    };
    name_ok && arch_ok && os_ok && req.major == v.major && minor_ok && patch_ok && suffix_ok
}

/// The position of the first build in `table` that answers the request.
pub fn find_download(req: &PythonVersionRequest, host_arch: &str, host_os: &str, table: &Vec<PythonDownload>) -> (r: Option<usize>)
    ensures
        r matches Some(i) ==> i < table@.len() && build_matches(*req, host_arch@, host_os@, table@[i as int].version)
            && forall|j: int| 0 <= j < i ==> !build_matches(*req, host_arch@, host_os@, #[trigger] table@[j].version),
        r is None ==> forall|j: int| 0 <= j < table@.len() ==> !build_matches(*req, host_arch@, host_os@, #[trigger] table@[j].version),
{
    let arch = String::from_str(host_arch);
    let os = String::from_str(host_os);
    let mut i: usize = 0;
    while i < table.len()
        invariant
            i <= table@.len(),
            arch@ == host_arch@,
            os@ == host_os@,
            forall|j: int| 0 <= j < i ==> !build_matches(*req, host_arch@, host_os@, #[trigger] table@[j].version),
        decreases table.len() - i,
    {
        if build_matches_exec(req, &arch, &os, &table[i].version) {
            return Some(i);
        }
        i = i + 1;
    }
    None
}

/// The interpreter inside an install directory.
pub open spec fn python_bin_of(dir: Seq<char>, windows: bool) -> Seq<char> {
    if windows {
        path_join(path_join(dir, "install"@), "python.exe"@)
    } else {
        path_join(path_join(path_join(dir, "install"@), "bin"@), "python"@)
    }
}

impl Python {
    /// The interpreter inside the install directory `dir`.
    pub fn bin_path(dir: &str, windows: bool) -> (r: String)
        ensures
            r@ == python_bin_of(dir@, windows),
    {
        let install = join_path(dir, "install");
        if windows {
            join_path(install.as_str(), "python.exe")
        } else {
            let bin = join_path(install.as_str(), "bin");
            join_path(bin.as_str(), "python")
        }
    }
}

/// Where the installation of the runtime stands.
#[derive(Clone, Copy, Debug, PartialEq, Eq, Structural)]
pub enum PythonPhase {
    Inspecting,
    Downloading,
    Unpacking,
    WritingMarker,
    Finished,
}

/// Work the caller performs for the installation, answering with an event.
#[derive(Debug)]
pub enum PythonAction {
    /// Read the version marker in `path` (none when the directory is
    /// missing); answer `Inspected`.
    Inspect { path: String },
    /// Fetch the build; answer `Downloaded` or `Failed`.
    Download { url: String },
    /// Remove `path` if it exists, then unpack into it; answer `Succeeded` or `Failed`.
    ReplaceDir { path: String, contents: Vec<u8>, strip: usize },
    /// Record `version` as the marker of `path`; answer `Succeeded` or `Failed`.
    WriteMarker { path: String, version: PythonVersion },
    /// The installation is over with this result.
    Finish { result: Result<Python, PythonEnsureError> },
    /// Nothing is left to do.
    Idle,
}

/// What the caller observed.
#[derive(Debug)]
pub enum PythonEvent {
    Inspected { marker: Option<PythonVersion> },
    Downloaded { contents: Vec<u8> },
    Succeeded,
    Failed { msg: String },
}

/// The installation of the runtime as a machine from events to actions.
#[derive(Debug)]
pub struct PythonInstall {
    pub phase: PythonPhase,
    pub path: String,
    pub python_bin: String,
    pub choice: Option<PythonDownload>,
    pub unknown_msg: String,
    pub checksum_msg: String,
    pub extract_msg: String,
}

/// The runtime handed out for `version`.
pub open spec fn installed_python(m: PythonInstall, version: PythonVersion) -> Python {
    Python { version, path: m.path, python_bin: m.python_bin }
}

/// Ends the installation with `result`.
pub open spec fn python_finish(m: PythonInstall, result: Result<Python, PythonEnsureError>) -> (PythonInstall, PythonAction) {
    (PythonInstall { phase: PythonPhase::Finished, ..m }, PythonAction::Finish { result })
}

/// The action awaited in phases that carry no data.
pub open spec fn python_pending(m: PythonInstall) -> PythonAction {
    match m.phase {
        PythonPhase::Inspecting => PythonAction::Inspect { path: m.path },
        PythonPhase::Downloading => match m.choice {
            Some(d) => PythonAction::Download { url: d.url },
            None => PythonAction::Idle,
        },
        PythonPhase::WritingMarker => match m.choice {
            Some(d) => PythonAction::WriteMarker { path: m.path, version: d.version },
            None => PythonAction::Idle,
        },
        _ => PythonAction::Idle,
    }
}

/// Whether downloaded bytes pass the published checksum, if any.
pub open spec fn checksum_ok(d: PythonDownload, contents: Seq<u8>) -> bool {
    match d.sha256 {
        Some(c) => lower_hex(sha256_of(contents)) == c@,
        None => true,
    }
}

/// One transition of the installation. A recorded version is trusted and
/// ends it at once; otherwise the build is fetched, checked, unpacked and
/// recorded.
pub open spec fn python_next(m: PythonInstall, e: PythonEvent) -> (PythonInstall, PythonAction) {
    match m.phase {
        PythonPhase::Inspecting => match e {
            PythonEvent::Inspected { marker } => match marker {
                Some(v) => python_finish(m, Ok(installed_python(m, v))),
                None => match m.choice {
                    Some(d) => (PythonInstall { phase: PythonPhase::Downloading, ..m }, PythonAction::Download { url: d.url }),
                    None => python_finish(m, Err(PythonEnsureError::UnkownVersion { msg: m.unknown_msg })),
                },
            },
            _ => (m, python_pending(m)),
        },
        PythonPhase::Downloading => match m.choice {
            Some(d) => match e {
                PythonEvent::Downloaded { contents } => if checksum_ok(d, contents@) {
                    (
                        PythonInstall { phase: PythonPhase::Unpacking, ..m },
                        PythonAction::ReplaceDir { path: m.path, contents, strip: 1 },
                    )
                } else {
                    python_finish(m, Err(PythonEnsureError::ChecksumFailed { msg: m.checksum_msg }))
                },
                PythonEvent::Failed { msg } => python_finish(m, Err(PythonEnsureError::UnkownVersion { msg })),
                _ => (m, python_pending(m)),
            },
            None => python_finish(m, Err(PythonEnsureError::UnkownVersion { msg: m.unknown_msg })),
        },
        PythonPhase::Unpacking => match m.choice {
            Some(d) => match e {
                PythonEvent::Succeeded => (
                    PythonInstall { phase: PythonPhase::WritingMarker, ..m },
                    PythonAction::WriteMarker { path: m.path, version: d.version },
                ),
                PythonEvent::Failed { msg } => python_finish(m, Err(PythonEnsureError::ExtractFailed { msg })),
                _ => python_finish(m, Err(PythonEnsureError::ExtractFailed { msg: m.extract_msg })),
            },
            None => python_finish(m, Err(PythonEnsureError::UnkownVersion { msg: m.unknown_msg })),
        },
        PythonPhase::WritingMarker => match m.choice {
            Some(d) => match e {
                PythonEvent::Succeeded => python_finish(m, Ok(installed_python(m, d.version))),
                PythonEvent::Failed { msg } => python_finish(m, Err(PythonEnsureError::ExtractFailed { msg })),
                _ => (m, python_pending(m)),
            },
            None => python_finish(m, Err(PythonEnsureError::UnkownVersion { msg: m.unknown_msg })),
        },
        PythonPhase::Finished => (m, PythonAction::Idle),
    }
}

fn clone_string(s: &String) -> (r: String)
    ensures
        r == *s,
{
    s.clone()
}

fn clone_opt_string(o: &Option<String>) -> (r: Option<String>)
    ensures
        r == *o,
{
    match o {
        Some(v) => Some(clone_string(v)),
        None => None,
    }
}

/// A copy of a version, field by field.
pub fn copy_version(v: &PythonVersion) -> (r: PythonVersion)
    ensures
        r == *v,
{
    PythonVersion {
        name: clone_string(&v.name),
        arch: clone_string(&v.arch),
        os: clone_string(&v.os),
        major: v.major,
        minor: v.minor,
        patch: v.patch,
        suffix: clone_opt_string(&v.suffix),
    }
}

impl PythonInstall {
    fn finish(&mut self, result: Result<Python, PythonEnsureError>) -> (a: PythonAction)
        ensures
            (*final(self), a) == python_finish(*old(self), result),
    {
        self.phase = PythonPhase::Finished;
        PythonAction::Finish { result }
    }

    fn installed(&self, version: PythonVersion) -> (r: Python)
        ensures
            r == installed_python(*self, version),
    {
        Python { version, path: clone_string(&self.path), python_bin: clone_string(&self.python_bin) }
    }

    fn unknown(&mut self) -> (a: PythonAction)
        ensures
            (*final(self), a) == python_finish(*old(self), Err(PythonEnsureError::UnkownVersion { msg: old(self).unknown_msg })),
    {
        let msg = clone_string(&self.unknown_msg);
        self.finish(Err(PythonEnsureError::UnkownVersion { msg }))
    }

    /// Feeds the outcome of the awaited action and returns the next one.
    pub fn step(&mut self, e: PythonEvent) -> (a: PythonAction)
        ensures
            (*final(self), a) == python_next(*old(self), e),
    {
        match self.phase {
            PythonPhase::Inspecting => match e {
                PythonEvent::Inspected { marker } => match marker {
                    Some(v) => {
                        let p = self.installed(v);
                        self.finish(Ok(p))
                    },
                    None => match &self.choice {
                        Some(d) => {
                            let url = clone_string(&d.url);
                            self.phase = PythonPhase::Downloading;
                            PythonAction::Download { url }
                        },
                        None => self.unknown(),
                    },
                },
                _ => PythonAction::Inspect { path: clone_string(&self.path) },
            },
            PythonPhase::Downloading => match &self.choice {
                Some(d) => match e {
                    PythonEvent::Downloaded { contents } => {
                        let ok = match &d.sha256 {
                            Some(c) => check_checksum(contents.as_slice(), c.as_str()).is_ok(),
                            None => true,
                        };
                        if ok {
                            self.phase = PythonPhase::Unpacking;
                            PythonAction::ReplaceDir { path: clone_string(&self.path), contents, strip: 1 }
                        } else {
                            let msg = clone_string(&self.checksum_msg);
                            self.finish(Err(PythonEnsureError::ChecksumFailed { msg }))
                        }
                    },
                    PythonEvent::Failed { msg } => self.finish(Err(PythonEnsureError::UnkownVersion { msg })),
                    _ => PythonAction::Download { url: clone_string(&d.url) },
                },
                None => self.unknown(),
            },
            PythonPhase::Unpacking => match &self.choice {
                Some(d) => match e {
                    PythonEvent::Succeeded => {
                        let version = copy_version(&d.version);
                        self.phase = PythonPhase::WritingMarker;
                        PythonAction::WriteMarker { path: clone_string(&self.path), version }
                    },
                    PythonEvent::Failed { msg } => self.finish(Err(PythonEnsureError::ExtractFailed { msg })),
                    _ => {
                        let msg = clone_string(&self.extract_msg);
                        self.finish(Err(PythonEnsureError::ExtractFailed { msg }))
                    },
                },
                None => self.unknown(),
            },
            PythonPhase::WritingMarker => match &self.choice {
                Some(d) => match e {
                    PythonEvent::Succeeded => {
                        let version = copy_version(&d.version);
                        let p = self.installed(version);
                        self.finish(Ok(p))
                    },
                    PythonEvent::Failed { msg } => self.finish(Err(PythonEnsureError::ExtractFailed { msg })),
                    _ => PythonAction::WriteMarker { path: clone_string(&self.path), version: copy_version(&d.version) },
                },
                None => self.unknown(),
            },
            PythonPhase::Finished => PythonAction::Idle,
        }
    }
}

/// When the recorded version is found, ensuring the runtime ends at once
/// with that version and never fetches anything.
pub proof fn law_warm_start_fetches_nothing(m: PythonInstall, v: PythonVersion, later: PythonEvent)
    requires
        m.phase == PythonPhase::Inspecting,
    ensures
        python_next(m, PythonEvent::Inspected { marker: Some(v) }).1 == (PythonAction::Finish {
            result: Ok(installed_python(m, v)),
        }),
        python_next(m, PythonEvent::Inspected { marker: Some(v) }).0.phase == PythonPhase::Finished,
        python_next(python_next(m, PythonEvent::Inspected { marker: Some(v) }).0, later).1 == PythonAction::Idle,
{
}

/// A fresh installation records the version it hands out, so the next
/// ensure finds that same version.
pub proof fn law_fresh_install_records_its_version(m: PythonInstall)
    requires
        m.phase == PythonPhase::WritingMarker,
        m.choice is Some,
    ensures
        python_pending(m) == (PythonAction::WriteMarker { path: m.path, version: m.choice->Some_0.version }),
        python_next(m, PythonEvent::Succeeded).1 == (PythonAction::Finish {
            result: Ok(installed_python(m, m.choice->Some_0.version)),
        }),
{
}

/// Ensuring the runtime twice: whichever way the first call ended with
/// `Ok(p)` (a fresh install that recorded its version, or a recorded version
/// found at once), a second call for the same directory that finds the
/// version the first recorded (nothing else touched the disk in between)
/// returns the same runtime at once and never fetches or unpacks anything.
pub proof fn law_second_ensure_returns_the_first_result(
    first: PythonInstall,
    first_event: PythonEvent,
    second: PythonInstall,
    later: PythonEvent,
)
    requires
        first.phase == PythonPhase::WritingMarker && first.choice is Some && first_event is Succeeded
            || first.phase == PythonPhase::Inspecting && first_event matches PythonEvent::Inspected { marker: Some(_) },
        second.phase == PythonPhase::Inspecting,
        second.path == first.path,
        second.python_bin == first.python_bin,
    ensures
        python_next(first, first_event).1 matches PythonAction::Finish { result: Ok(p) } ==> {
            let recorded = p.version;
            let (s2, a2) = python_next(second, PythonEvent::Inspected { marker: Some(recorded) });
            &&& a2 == (PythonAction::Finish { result: Ok::<Python, PythonEnsureError>(p) })
            &&& python_next(s2, later).1 == PythonAction::Idle
        },
        first.phase == PythonPhase::WritingMarker ==> python_pending(first) == (PythonAction::WriteMarker {
            path: first.path,
            version: first.choice->Some_0.version,
        }),
{
}

impl Python {
    /// Starts ensuring the pinned runtime of `options` on a host of
    /// `host_arch` and `host_os`, choosing its build from `table`.
    pub fn ensure(options: &AppOptions, host_arch: &str, host_os: &str, table: Vec<PythonDownload>, windows: bool) -> (r: PythonInstall)
        ensures
            r.phase == PythonPhase::Inspecting,
            r.path@ == path_join(options.python_path@, request_text(options.python_version)),
            r.python_bin@ == python_bin_of(r.path@, windows),
            match r.choice {
                Some(d) => exists|i: int| 0 <= i < table@.len() && table@[i] == d
                    && build_matches(options.python_version, host_arch@, host_os@, d.version)
                    && forall|j: int| 0 <= j < i ==> !build_matches(options.python_version, host_arch@, host_os@, #[trigger] table@[j].version),
                None => forall|j: int| 0 <= j < table@.len() ==> !build_matches(options.python_version, host_arch@, host_os@, #[trigger] table@[j].version),
            },
            r.unknown_msg@ == "Unknown Python version: "@ + request_text(options.python_version),
            r.checksum_msg@ == "Checksum failed for Python "@ + request_text(options.python_version),
            r.extract_msg@ == "Failed to extract Python to "@ + r.path@,
    {
        let path = options.get_python_path();
        let python_bin = Python::bin_path(path.as_str(), windows);
        let found = find_download(&options.python_version, host_arch, host_os, &table);
        let mut table = table;
        let choice = match found {
            Some(i) => {
                let d = table.remove(i);
                Some(d)
            },
            None => None,
        };
        let request = options.python_version.to_text();
        let mut unknown_msg = String::from_str("Unknown Python version: ");
        unknown_msg.append(request.as_str());
        let mut checksum_msg = String::from_str("Checksum failed for Python ");
        checksum_msg.append(request.as_str());
        let mut extract_msg = String::from_str("Failed to extract Python to ");
        extract_msg.append(path.as_str());
        PythonInstall {
            phase: PythonPhase::Inspecting,
            path,
            python_bin,
            choice,
            unknown_msg,
            checksum_msg,
            extract_msg,
        }
    }
}

} // verus!
