//! The `uv` package manager: where it is installed, how it is fetched and
//! pruned, and the command lines that sync the managed interpreter.

use vstd::prelude::*;
use vstd::string::*;
use crate::archive::{components, same_components};
use crate::options::AppOptions;
use crate::text::{join_path, path_join, push_char, push_string, views};

verus! {

/// A failure while installing `uv` or syncing packages with it.
#[derive(Clone, Debug)]
pub enum UvEnsureError {
    CleanupOldVersionsFailed { msg: String },
    UpdatePipFailed { msg: String },
    UpdateRequirementsFailed { msg: String },
    NoDownloadFound { msg: String },
}

/// An installed `uv` bound to the managed interpreter.
#[derive(Clone, Debug)]
pub struct Uv {
    pub uv_bin: String,
    pub workdir: String,
    pub python_bin: String,
    pub index_url: String,
}

/// The `uv` release to install: its version and where to fetch it.
#[derive(Clone, Debug)]
pub struct UvDownload {
    pub version: String,
    pub url: String,
}

/// `s` without its leading slashes.
pub open spec fn trim_leading_slashes(s: Seq<char>) -> Seq<char>
    decreases s.len(),
{
    if s.len() > 0 && s[0] == '/' {
        trim_leading_slashes(s.drop_first())
    } else {
        s
    }
}

/// `s` with every space written as `%20`.
pub open spec fn escape_spaces(s: Seq<char>) -> Seq<char>
    decreases s.len(),
{
    if s.len() == 0 {
        Seq::empty()
    } else {
        escape_spaces(s.drop_last()) + if s.last() == ' ' {
            seq!['%', '2', '0']
        } else {
            seq![s.last()]
        }
    }
}

/// A path as the fragment that follows `file:///`: no leading slash and
/// spaces escaped.
pub open spec fn project_root_fragment(p: Seq<char>) -> Seq<char> {
    escape_spaces(trim_leading_slashes(p))
}

/// Writes a path as the fragment that follows `file:///`.
pub fn make_project_root_fragment(root: &str) -> (r: String)
    ensures
        r@ == project_root_fragment(root@),
{
    let n = root.unicode_len();
    let mut start: usize = 0;
    assert(root@.subrange(0, n as int) =~= root@);
    while start < n && root.get_char(start) == '/'
        invariant
            start <= n,
            n == root@.len(),
            trim_leading_slashes(root@) == trim_leading_slashes(root@.subrange(start as int, n as int)),
        decreases n - start,
    {
        assert(root@.subrange(start as int, n as int).drop_first() =~= root@.subrange(start + 1, n as int));
        start = start + 1;
    }
    let ghost rest = root@.subrange(start as int, n as int);
    assert(trim_leading_slashes(rest) == rest);
    let mut r = String::new();
    let mut i: usize = start;
    assert(rest.subrange(0, 0) =~= Seq::<char>::empty());
    while i < n
        invariant
            start <= i <= n,
            n == root@.len(),
            rest == root@.subrange(start as int, n as int),
            r@ == escape_spaces(rest.subrange(0, i - start)),
        decreases n - i,
    {
        let c = root.get_char(i);
        if c == ' ' {
            push_char(&mut r, '%');
            push_char(&mut r, '2');
            push_char(&mut r, '0');
        } else {
            push_char(&mut r, c);
        }
        assert(rest.subrange(0, i + 1 - start).drop_last() =~= rest.subrange(0, i - start));
        assert(rest.subrange(0, i + 1 - start).last() == c);
        proof {
            let t = rest.subrange(0, i + 1 - start);
            if c == ' ' {
                assert(escape_spaces(t) == escape_spaces(t.drop_last()) + seq!['%', '2', '0']);
            } else {
                assert(escape_spaces(t) == escape_spaces(t.drop_last()) + seq![c]);
            }
        }
        i = i + 1;
    }
    assert(rest.subrange(0, n - start) =~= rest);
    r
}

/// The package index the server's dependencies come from.
pub open spec fn index_url_text(dev: bool) -> Seq<char> {
    if dev {
        "http://localhost:26410/simple/"@
    } else {
        "https://pypi.org/simple/"@
    }
}

/// The package index for a development or a release build.
pub fn index_url(dev: bool) -> (r: String)
    ensures
        r@ == index_url_text(dev),
{
    if dev {
        String::from_str("http://localhost:26410/simple/")
    } else {
        String::from_str("https://pypi.org/simple/")
    }
}

/// The name of the `uv` executable.
pub open spec fn uv_exe_name(windows: bool) -> Seq<char> {
    if windows {
        "uv.exe"@
    } else {
        "uv"@
    }
}

/// Leading components dropped when unpacking a `uv` release: the Windows
/// archive is flat, the others hold one top-level folder.
pub open spec fn uv_strip(windows: bool) -> nat {
    if windows {
        0
    } else {
        1
    }
}

/// Arguments that pin the package installer from the package index.
pub open spec fn pip_install_args(spec: Seq<char>, python: Seq<char>, index: Seq<char>) -> Seq<Seq<char>> {
    seq!["pip"@, "install"@, spec, "--python"@, project_root_fragment(python), "--index-url"@, index]
}

/// Arguments that install a requirement file from the package index.
pub open spec fn requirements_install_args(file: Seq<char>, python: Seq<char>, index: Seq<char>) -> Seq<Seq<char>> {
    seq!["pip"@, "install"@, "-r"@, file, "--python"@, project_root_fragment(python), "--index-url"@, index]
}

/// Arguments that uninstall the packages of a requirement file.
pub open spec fn requirements_uninstall_args(file: Seq<char>, python: Seq<char>) -> Seq<Seq<char>> {
    seq!["pip"@, "uninstall"@, "-r"@, file, "--python"@, project_root_fragment(python)]
}

fn push_str(v: &mut Vec<String>, s: &str)
    ensures
        views(final(v)@) == views(old(v)@).push(s@),
{
    push_string(v, String::from_str(s));
}

/// A command line for `uv`, run in `workdir` with `PROJECT_ROOT` set.
#[derive(Debug)]
pub struct UvCommand {
    pub program: String,
    pub args: Vec<String>,
    pub workdir: String,
    pub project_root: String,
}

impl Uv {
    /// The install directory of a `uv` release.
    pub fn dir_for(options: &AppOptions, download: &UvDownload) -> (r: String)
        ensures
            r@ == path_join(options.uv_path@, download.version@),
    {
        join_path(options.uv_path.as_str(), download.version.as_str())
    }

    /// The executable inside an install directory.
    pub fn bin_in(dir: &str, windows: bool) -> (r: String)
        ensures
            r@ == path_join(dir@, uv_exe_name(windows)),
    {
        if windows {
            join_path(dir, "uv.exe")
        } else {
            join_path(dir, "uv")
        }
    }

    /// Leading components dropped when unpacking a release.
    pub fn strip_components(windows: bool) -> (r: usize)
        ensures
            r == uv_strip(windows),
    {
        if windows {
            0
        } else {
            1
        }
    }

    fn command(&self, args: Vec<String>) -> (r: UvCommand)
        ensures
            r.program@ == self.uv_bin@,
            r.args == args,
            r.workdir@ == self.workdir@,
            r.project_root@ == project_root_fragment(self.workdir@),
    {
        UvCommand {
            program: String::from_str(self.uv_bin.as_str()),
            args,
            workdir: String::from_str(self.workdir.as_str()),
            project_root: make_project_root_fragment(self.workdir.as_str()),
        }
    }

    /// The command that pins the package installer to `pip_version`.
    pub fn update_pip(&self, pip_version: &str) -> (r: UvCommand)
        ensures
            r.program@ == self.uv_bin@,
            views(r.args@) == pip_install_args(pip_version@, self.python_bin@, self.index_url@),
            r.workdir@ == self.workdir@,
            r.project_root@ == project_root_fragment(self.workdir@),
    {
        let mut args: Vec<String> = Vec::new();
        proof {
            assert(views(args@) =~= Seq::<Seq<char>>::empty());
        }
        push_str(&mut args, "pip");
        push_str(&mut args, "install");
        push_str(&mut args, pip_version);
        push_str(&mut args, "--python");
        push_string(&mut args, make_project_root_fragment(self.python_bin.as_str()));
        push_str(&mut args, "--index-url");
        push_str(&mut args, self.index_url.as_str());
        assert(views(args@) =~= pip_install_args(pip_version@, self.python_bin@, self.index_url@));
        self.command(args)
    }

    /// The command that installs the requirement file at `file`.
    pub fn update_requirements(&self, file: &str) -> (r: UvCommand)
        ensures
            r.program@ == self.uv_bin@,
            views(r.args@) == requirements_install_args(file@, self.python_bin@, self.index_url@),
            r.workdir@ == self.workdir@,
            r.project_root@ == project_root_fragment(self.workdir@),
    {
        let mut args: Vec<String> = Vec::new();
        proof {
            assert(views(args@) =~= Seq::<Seq<char>>::empty());
        }
        push_str(&mut args, "pip");
        push_str(&mut args, "install");
        push_str(&mut args, "-r");
        push_str(&mut args, file);
        push_str(&mut args, "--python");
        push_string(&mut args, make_project_root_fragment(self.python_bin.as_str()));
        push_str(&mut args, "--index-url");
        push_str(&mut args, self.index_url.as_str());
        assert(views(args@) =~= requirements_install_args(file@, self.python_bin@, self.index_url@));
        self.command(args)
    }

    /// The command that uninstalls the packages of the requirement file at
    /// `file`.
    pub fn uninstall_requirements(&self, file: &str) -> (r: UvCommand)
        ensures
            r.program@ == self.uv_bin@,
            views(r.args@) == requirements_uninstall_args(file@, self.python_bin@),
            r.workdir@ == self.workdir@,
            r.project_root@ == project_root_fragment(self.workdir@),
    {
        let mut args: Vec<String> = Vec::new();
        proof {
            assert(views(args@) =~= Seq::<Seq<char>>::empty());
        }
        push_str(&mut args, "pip");
        push_str(&mut args, "uninstall");
        push_str(&mut args, "-r");
        push_str(&mut args, file);
        push_str(&mut args, "--python");
        push_string(&mut args, make_project_root_fragment(self.python_bin.as_str()));
        assert(views(args@) =~= requirements_uninstall_args(file@, self.python_bin@));
        self.command(args)
    }
}

/// A directory entry found beside the installed versions.
#[derive(Clone, Debug)]
pub struct VersionDirEntry {
    pub path: String,
    pub is_dir: bool,
}

/// The directories among `entries` other than `current` (compared by
/// components, so separators do not matter), in order.
pub open spec fn stale_dirs(entries: Seq<VersionDirEntry>, current: Seq<char>) -> Seq<Seq<char>>
    decreases entries.len(),
{
    if entries.len() == 0 {
        Seq::empty()
    } else {
        let e = entries.last();
        stale_dirs(entries.drop_last(), current) + if e.is_dir && components(e.path@) != components(current) {
            seq![e.path@]
        } else {
            Seq::empty()
        }
    }
}

/// The superseded version directories to delete: every directory entry but
/// the current version's.
pub fn stale_version_dirs(entries: &Vec<VersionDirEntry>, current: &str) -> (r: Vec<String>)
    ensures
        views(r@) == stale_dirs(entries@, current@),
{
    let mut r: Vec<String> = Vec::new();
    let mut i: usize = 0;
    assert(entries@.subrange(0, 0) =~= Seq::<VersionDirEntry>::empty());
    assert(views(r@) =~= Seq::<Seq<char>>::empty());
    while i < entries.len()
        invariant
            i <= entries@.len(),
            views(r@) == stale_dirs(entries@.subrange(0, i as int), current@),
        decreases entries.len() - i,
    {
        let e = &entries[i];
        assert(entries@.subrange(0, i + 1).drop_last() =~= entries@.subrange(0, i as int));
        if e.is_dir && !same_components(e.path.as_str(), current) {
            push_string(&mut r, e.path.clone());
        } else {
            assert(views(r@) =~= views(r@) + Seq::<Seq<char>>::empty());
        }
        i = i + 1;
    }
    assert(entries@.subrange(0, entries@.len() as int) =~= entries@);
    r
}

/// Pruning never deletes the directory of the version just installed, however
/// its path is written.
pub proof fn law_prune_keeps_current(entries: Seq<VersionDirEntry>, current: Seq<char>)
    ensures
        forall|i: int| 0 <= i < stale_dirs(entries, current).len()
            ==> components(#[trigger] stale_dirs(entries, current)[i]) != components(current),
    decreases entries.len(),
{
    if entries.len() > 0 {
        let prev = stale_dirs(entries.drop_last(), current);
        law_prune_keeps_current(entries.drop_last(), current);
        let all = stale_dirs(entries, current);
        assert forall|i: int| 0 <= i < all.len() implies components(#[trigger] all[i]) != components(current) by {
            if i < prev.len() {
                assert(all[i] == prev[i]);
            }
        }
    }
}

/// Where the installation of `uv` stands.
#[derive(Clone, Copy, Debug, PartialEq, Eq, Structural)]
pub enum UvPhase {
    Checking,
    Downloading,
    Unpacking,
    Listing,
    Pruning,
    Rechecking,
    Finished,
}

/// Work the caller performs for the installation, answering with an event.
#[derive(Debug)]
pub enum UvAction {
    /// Say whether both the directory and the executable exist; answer `Present`.
    CheckInstalled { dir: String, bin: String },
    /// Fetch the release; answer `Downloaded` or `Failed`.
    Download { url: String },
    /// Unpack the release into `dst`; answer `Succeeded` or `Failed`.
    Unpack { contents: Vec<u8>, dst: String, strip: usize },
    /// List the entries of the versions directory; answer `Listed` or `Failed`.
    ListVersions { base: String },
    /// Delete `stale_version_dirs(entries, keep)`, reporting failures as
    /// progress only; answer `Succeeded` or `Failed`.
    Prune { entries: Vec<VersionDirEntry>, keep: String },
    /// The installation is over with this result.
    Finish { result: Result<Uv, UvEnsureError> },
    /// Nothing is left to do.
    Idle,
}

/// What the caller observed.
#[derive(Debug)]
pub enum UvEvent {
    Present { present: bool },
    Downloaded { contents: Vec<u8> },
    Listed { entries: Vec<VersionDirEntry> },
    Succeeded,
    Failed { msg: String },
}

/// The installation of `uv` as a machine from events to actions.
#[derive(Debug)]
pub struct UvInstall {
    pub phase: UvPhase,
    pub dir: String,
    pub bin: String,
    pub url: String,
    pub base: String,
    pub strip: usize,
    pub workdir: String,
    pub python_bin: String,
    pub index_url: String,
    pub missing_msg: String,
}

/// The `uv` handed out once it is installed.
pub open spec fn installed_uv(m: UvInstall) -> Uv {
    Uv { uv_bin: m.bin, workdir: m.workdir, python_bin: m.python_bin, index_url: m.index_url }
}

/// The action awaited in the machine's current phase.
pub open spec fn uv_pending(m: UvInstall) -> UvAction {
    match m.phase {
        UvPhase::Checking => UvAction::CheckInstalled { dir: m.dir, bin: m.bin },
        UvPhase::Downloading => UvAction::Download { url: m.url },
        UvPhase::Listing => UvAction::ListVersions { base: m.base },
        UvPhase::Rechecking => UvAction::CheckInstalled { dir: m.dir, bin: m.bin },
        _ => UvAction::Idle,
    }
}

/// One transition of the installation. Unpacking and pruning await actions
/// that carry data handed over with the event before, so an unrelated
/// event there fails the installation instead of asking again.
pub open spec fn uv_next(m: UvInstall, e: UvEvent) -> (UvInstall, UvAction) {
    let finish = |r: Result<Uv, UvEnsureError>| (UvInstall { phase: UvPhase::Finished, ..m }, UvAction::Finish { result: r });
    match m.phase {
        UvPhase::Checking => match e {
            UvEvent::Present { present } => if present {
                finish(Ok(installed_uv(m)))
            } else {
                (UvInstall { phase: UvPhase::Downloading, ..m }, UvAction::Download { url: m.url })
            },
            _ => (m, uv_pending(m)),
        },
        UvPhase::Downloading => match e {
            UvEvent::Downloaded { contents } => (
                UvInstall { phase: UvPhase::Unpacking, ..m },
                UvAction::Unpack { contents, dst: m.dir, strip: m.strip },
            ),
            UvEvent::Failed { msg } => finish(Err(UvEnsureError::NoDownloadFound { msg })),
            _ => (m, uv_pending(m)),
        },
        UvPhase::Unpacking => match e {
            UvEvent::Succeeded => (UvInstall { phase: UvPhase::Listing, ..m }, UvAction::ListVersions { base: m.base }),
            UvEvent::Failed { msg } => finish(Err(UvEnsureError::NoDownloadFound { msg })),
            _ => finish(Err(UvEnsureError::NoDownloadFound { msg: m.missing_msg })),
        },
        UvPhase::Listing => match e {
            UvEvent::Listed { entries } => (
                UvInstall { phase: UvPhase::Pruning, ..m },
                UvAction::Prune { entries, keep: m.dir },
            ),
            UvEvent::Failed { .. } => (
                UvInstall { phase: UvPhase::Rechecking, ..m },
                UvAction::CheckInstalled { dir: m.dir, bin: m.bin },
            ),
            _ => (m, uv_pending(m)),
        },
        UvPhase::Pruning => (
            UvInstall { phase: UvPhase::Rechecking, ..m },
            UvAction::CheckInstalled { dir: m.dir, bin: m.bin },
        ),
        UvPhase::Rechecking => match e {
            UvEvent::Present { present } => if present {
                finish(Ok(installed_uv(m)))
            } else {
                finish(Err(UvEnsureError::NoDownloadFound { msg: m.missing_msg }))
            },
            _ => (m, uv_pending(m)),
        },
        UvPhase::Finished => (m, UvAction::Idle),
    }
}

fn clone_string(s: &String) -> (r: String)
    ensures
        r == *s,
{
    s.clone()
}

impl UvInstall {
    fn pending_action(&self) -> (a: UvAction)
        ensures
            a == uv_pending(*self),
    {
        match self.phase {
            UvPhase::Checking => UvAction::CheckInstalled { dir: clone_string(&self.dir), bin: clone_string(&self.bin) },
            UvPhase::Downloading => UvAction::Download { url: clone_string(&self.url) },
            UvPhase::Listing => UvAction::ListVersions { base: clone_string(&self.base) },
            UvPhase::Rechecking => UvAction::CheckInstalled { dir: clone_string(&self.dir), bin: clone_string(&self.bin) },
            _ => UvAction::Idle,
        }
    }

    fn installed(&self) -> (r: Uv)
        ensures
            r == installed_uv(*self),
    {
        Uv {
            uv_bin: clone_string(&self.bin),
            workdir: clone_string(&self.workdir),
            python_bin: clone_string(&self.python_bin),
            index_url: clone_string(&self.index_url),
        }
    }

    fn finish(&mut self, result: Result<Uv, UvEnsureError>) -> (a: UvAction)
        ensures
            *final(self) == (UvInstall { phase: UvPhase::Finished, ..*old(self) }),
            a == (UvAction::Finish { result }),
    {
        self.phase = UvPhase::Finished;
        UvAction::Finish { result }
    }

    /// Feeds the outcome of the awaited action and returns the next one.
    pub fn step(&mut self, e: UvEvent) -> (a: UvAction)
        ensures
            (*final(self), a) == uv_next(*old(self), e),
    {
        match self.phase {
            UvPhase::Checking => match e {
                UvEvent::Present { present } => if present {
                    let uv = self.installed();
                    self.finish(Ok(uv))
                } else {
                    self.phase = UvPhase::Downloading;
                    UvAction::Download { url: clone_string(&self.url) }
                },
                _ => self.pending_action(),
            },
            UvPhase::Downloading => match e {
                UvEvent::Downloaded { contents } => {
                    self.phase = UvPhase::Unpacking;
                    UvAction::Unpack { contents, dst: clone_string(&self.dir), strip: self.strip }
                },
                UvEvent::Failed { msg } => self.finish(Err(UvEnsureError::NoDownloadFound { msg })),
                _ => self.pending_action(),
            },
            UvPhase::Unpacking => match e {
                UvEvent::Succeeded => {
                    self.phase = UvPhase::Listing;
                    UvAction::ListVersions { base: clone_string(&self.base) }
                },
                UvEvent::Failed { msg } => self.finish(Err(UvEnsureError::NoDownloadFound { msg })),
                _ => {
                    let msg = clone_string(&self.missing_msg);
                    self.finish(Err(UvEnsureError::NoDownloadFound { msg }))
                },
            },
            UvPhase::Listing => match e {
                UvEvent::Listed { entries } => {
                    self.phase = UvPhase::Pruning;
                    UvAction::Prune { entries, keep: clone_string(&self.dir) }
                },
                UvEvent::Failed { .. } => {
                    self.phase = UvPhase::Rechecking;
                    UvAction::CheckInstalled { dir: clone_string(&self.dir), bin: clone_string(&self.bin) }
                },
                _ => self.pending_action(),
            },
            UvPhase::Pruning => {
                self.phase = UvPhase::Rechecking;
                UvAction::CheckInstalled { dir: clone_string(&self.dir), bin: clone_string(&self.bin) }
            },
            UvPhase::Rechecking => match e {
                UvEvent::Present { present } => if present {
                    let uv = self.installed();
                    self.finish(Ok(uv))
                } else {
                    let msg = clone_string(&self.missing_msg);
                    self.finish(Err(UvEnsureError::NoDownloadFound { msg }))
                },
                _ => self.pending_action(),
            },
            UvPhase::Finished => UvAction::Idle,
        }
    }
}

impl Uv {
    /// Starts installing the `uv` release `download` for the interpreter at
    /// `python_bin`, unless it is already installed.
    pub fn ensure(options: &AppOptions, python_bin: &str, download: &UvDownload, windows: bool, dev: bool) -> (r: UvInstall)
        ensures
            r.phase == UvPhase::Checking,
            r.dir@ == path_join(options.uv_path@, download.version@),
            r.bin@ == path_join(r.dir@, uv_exe_name(windows)),
            r.url@ == download.url@,
            r.base@ == options.uv_path@,
            r.strip == uv_strip(windows),
            r.workdir@ == options.workdir@,
            r.python_bin@ == python_bin@,
            r.index_url@ == index_url_text(dev),
            r.missing_msg@ == "uv not found after installation at "@ + r.dir@,
    {
        let dir = Uv::dir_for(options, download);
        let bin = Uv::bin_in(dir.as_str(), windows);
        let mut missing_msg = String::from_str("uv not found after installation at ");
        missing_msg.append(dir.as_str());
        UvInstall {
            phase: UvPhase::Checking,
            dir,
            bin,
            url: String::from_str(download.url.as_str()),
            base: String::from_str(options.uv_path.as_str()),
            strip: Uv::strip_components(windows),
            workdir: String::from_str(options.workdir.as_str()),
            python_bin: String::from_str(python_bin),
            index_url: index_url(dev),
            missing_msg,
        }
    }
}

} // verus!
