//! The local server: its persisted configuration, the decisions that bring
//! it up (or reuse a running one), the command lines that drive it, and the
//! supervision of the spawned process.

use rand::Rng;
use vstd::prelude::*;
use vstd::string::*;
use crate::download::{sha256_hex, sha256_of};
use crate::options::AppOptions;
use crate::python::Python;
use crate::text::{
    decimal, decimal_string, is_lower_hex_char, join_path, lower_hex, path_join, push_char, push_string,
    signed_decimal, signed_decimal_string, views,
};
use crate::uv::{Uv, UvEnsureError};

verus! {

/// The exit code with which the server asks to be started again.
pub const RESTART_CODE: i32 = 100;

/// The port used when no configuration was stored.
pub const DEFAULT_PORT: u16 = 26423;

/// Length of an authentication token.
pub const TOKEN_LEN: usize = 32;

/// Persisted server settings.
#[derive(Clone, Debug)]
pub struct ServerConfig {
    pub workdir: String,
    pub port: u16,
    pub hash: String,
}

/// Whether a byte is an ASCII letter or digit.
pub open spec fn is_alnum_byte(b: u8) -> bool {
    (48 <= b <= 57) || (65 <= b <= 90) || (97 <= b <= 122)
}

/// Whether a character is an ASCII letter or digit.
pub open spec fn is_alnum_char(c: char) -> bool {
    ('0' <= c <= '9') || ('A' <= c <= 'Z') || ('a' <= c <= 'z')
}

/// Whether a string has the shape of an authentication token.
pub open spec fn is_token(t: Seq<char>) -> bool {
    t.len() == TOKEN_LEN && forall|i: int| 0 <= i < t.len() ==> is_alnum_char(#[trigger] t[i])
}

/// Relies on `rand::distributions::Alphanumeric`: one byte drawn from
/// `A-Z`, `a-z` and `0-9`.
#[verifier::external_body]
fn random_alphanumeric() -> (r: u8)
    ensures
        is_alnum_byte(r),
{
    rand::thread_rng().sample(rand::distributions::Alphanumeric)
}

/// Relies on `rand::random`: sixteen random bytes.
#[verifier::external_body]
fn random_seed() -> (r: Vec<u8>)
    ensures
        r@.len() == 16,
{
    rand::random::<[u8; 16]>().to_vec()
}

/// Draws a fresh authentication token of letters and digits.
pub fn generate_token() -> (r: String)
    ensures
        is_token(r@),
{
    let mut r = String::new();
    let mut i: usize = 0;
    while i < TOKEN_LEN
        invariant
            i <= TOKEN_LEN,
            r@.len() == i,
            forall|k: int| 0 <= k < i ==> is_alnum_char(#[trigger] r@[k]),
        decreases TOKEN_LEN - i,
    {
        let b = random_alphanumeric();
        push_char(&mut r, b as char);
        i = i + 1;
    }
    r
}

/// The integrity hash derived from a random seed.
pub fn hash_from_seed(seed: &[u8]) -> (r: String)
    ensures
        r@ == lower_hex(sha256_of(seed@)),
        r@.len() == 64,
        forall|i: int| 0 <= i < r@.len() ==> is_lower_hex_char(#[trigger] r@[i]),
{
    sha256_hex(seed)
}

/// Draws a fresh integrity hash: the hexadecimal SHA-256 digest of sixteen
/// random bytes.
pub fn generate_hash() -> (r: String)
    ensures
        exists|seed: Seq<u8>| seed.len() == 16 && r@ == lower_hex(sha256_of(seed)),
        r@.len() == 64,
        forall|i: int| 0 <= i < r@.len() ==> is_lower_hex_char(#[trigger] r@[i]),
{
    let seed = random_seed();
    hash_from_seed(seed.as_slice())
}

/// The file in the working directory holding the authentication token.
pub open spec fn token_path_of(workdir: Seq<char>) -> Seq<char> {
    path_join(workdir, "token.txt"@)
}

/// The file in the working directory recording the synced version.
pub open spec fn version_path_of(workdir: Seq<char>) -> Seq<char> {
    path_join(workdir, "VERSION"@)
}

impl ServerConfig {
    /// The configuration written when none was stored.
    pub fn with_defaults(options: &AppOptions, hash: String) -> (r: ServerConfig)
        ensures
            r.workdir@ == options.workdir@,
            r.port == DEFAULT_PORT,
            r.hash == hash,
    {
        ServerConfig { workdir: String::from_str(options.workdir.as_str()), port: DEFAULT_PORT, hash }
    }

    /// The stored configuration when it could be loaded, else the defaults
    /// with a fresh integrity hash.
    pub fn ensure(options: &AppOptions, stored: Option<ServerConfig>) -> (r: ServerConfig)
        ensures
            stored matches Some(c) ==> r == c,
            stored is None ==> r.workdir@ == options.workdir@ && r.port == DEFAULT_PORT && r.hash@.len() == 64
                && forall|i: int| 0 <= i < r.hash@.len() ==> is_lower_hex_char(#[trigger] r.hash@[i]),
    {
        match stored {
            Some(c) => c,
            None => {
                let hash = generate_hash();
                ServerConfig::with_defaults(options, hash)
            },
        }
    }

    /// The token file of this configuration.
    pub fn get_token_path(&self) -> (r: String)
        ensures
            r@ == token_path_of(self.workdir@),
    {
        join_path(self.workdir.as_str(), "token.txt")
    }

    /// The version marker of this configuration.
    pub fn get_version_path(&self) -> (r: String)
        ensures
            r@ == version_path_of(self.workdir@),
    {
        join_path(self.workdir.as_str(), "VERSION")
    }
}

/// Errors of bringing the server up.
#[derive(Clone, Debug)]
pub enum ServerEnsureError {
    VersionReadFailed { msg: String },
    UpdateDependenciesFailed { reason: UvEnsureError },
    StopFailed { msg: String },
    TokenReadFailed { msg: String },
    TokenWriteFailed { msg: String },
    CreateDataDirFailed { msg: String },
    StartFailed { msg: String },
    AlreadyRunning { msg: String },
}

/// `\n<name>==<version>`: one pinned requirement line.
pub open spec fn pin(name: Seq<char>, version: Seq<char>) -> Seq<char> {
    seq!['\n'] + name + seq!['=', '='] + version
}

/// The packages the server runs on, pinned to the application version.
pub open spec fn requirements_text(version: Seq<char>) -> Seq<char> {
    pin("omuserver"@, version) + pin("omuplugin_obs"@, version) + pin("omu_chat"@, version)
        + pin("omu_chat_youtube"@, version) + pin("omu_chat_twitch"@, version)
        + pin("omu_chatprovider"@, version)
}

/// Packages retired between versions, removed before each sync.
pub open spec fn deprecated_requirements_text(version: Seq<char>) -> Seq<char> {
    pin("omuplugin_discordrpc"@, version)
}

/// The installer version every sync pins first.
pub open spec fn pip_spec_text() -> Seq<char> {
    "pip==23.3.2"@
}

fn append_pin(r: &mut String, name: &str, version: &str)
    ensures
        final(r)@ == old(r)@ + pin(name@, version@),
{
    push_char(r, '\n');
    r.append(name);
    push_char(r, '=');
    push_char(r, '=');
    r.append(version);
    assert(final(r)@ =~= old(r)@ + pin(name@, version@));
}

/// The requirement list for `version`.
pub fn requirements(version: &str) -> (r: String)
    ensures
        r@ == requirements_text(version@),
{
    let mut r = String::new();
    append_pin(&mut r, "omuserver", version);
    append_pin(&mut r, "omuplugin_obs", version);
    append_pin(&mut r, "omu_chat", version);
    append_pin(&mut r, "omu_chat_youtube", version);
    append_pin(&mut r, "omu_chat_twitch", version);
    append_pin(&mut r, "omu_chatprovider", version);
    assert(r@ =~= requirements_text(version@));
    r
}

/// The retired requirement list for `version`.
pub fn deprecated_requirements(version: &str) -> (r: String)
    ensures
        r@ == deprecated_requirements_text(version@),
{
    let mut r = String::new();
    append_pin(&mut r, "omuplugin_discordrpc", version);
    assert(r@ =~= deprecated_requirements_text(version@));
    r
}

/// The three sub-steps of a dependency sync, in order.
#[derive(Clone, Copy, Debug, PartialEq, Eq, Structural)]
pub enum SyncStep {
    Deprecated,
    Pip,
    Requirements,
}

/// Where the bring-up stands.
#[derive(Clone, Copy, Debug, PartialEq, Eq, Structural)]
pub enum EnsurePhase {
    /// Waiting for the port probe.
    Probing,
    /// Waiting for the version marker.
    ReadingVersion,
    /// Syncing before stopping a server of another version.
    Resync(SyncStep),
    /// Waiting for the old server to stop.
    Stopping,
    /// Waiting for the token to be read or written.
    ResolvingToken,
    /// The unconditional dependency sync.
    Sync(SyncStep),
    /// Waiting for the working directory.
    CreatingDir,
    /// Done; the result has been handed out.
    Finished,
}

/// What the bring-up found: the token to talk to the server with, and
/// whether a compatible server was already running.
#[derive(Clone, Debug)]
pub struct EnsuredServer {
    pub token: String,
    pub already_started: bool,
}

/// Work the caller performs for the bring-up, answering with an event.
#[derive(Debug)]
pub enum EnsureAction {
    /// Try to bind the port; answer `PortProbed`.
    ProbePort { port: u16 },
    /// Read the version marker; answer `VersionRead` or `Failed`.
    ReadVersion { path: String },
    /// Uninstall the retired packages; answer `Succeeded` or `DependenciesFailed`.
    UninstallDeprecated { requirements: String },
    /// Pin the package installer; answer `Succeeded` or `DependenciesFailed`.
    UpdatePip { spec: String },
    /// Install the requirement list; answer `Succeeded` or `DependenciesFailed`.
    UpdateRequirements { requirements: String },
    /// Stop the running server of version `installed`; answer `Succeeded` or `Failed`.
    StopServer { installed: Option<String>, current: String },
    /// Read the token file; answer `TokenRead` or `Failed`.
    ReadToken { path: String },
    /// Write `token` to the token file; answer `Succeeded` or `Failed`.
    WriteToken { path: String, token: String },
    /// Create the working directory if missing; answer `Succeeded` or `Failed`.
    CreateDataDir { path: String },
    /// The bring-up is over with this result.
    Finish { result: Result<EnsuredServer, ServerEnsureError> },
    /// Nothing is left to do.
    Idle,
}

/// What the caller observed while performing an action.
#[derive(Debug)]
pub enum EnsureEvent {
    PortProbed { free: bool },
    VersionRead { version: Option<String> },
    TokenRead { token: String },
    Succeeded,
    DependenciesFailed { reason: UvEnsureError },
    Failed { msg: String },
}

/// The bring-up of the server as a machine from events to actions.
#[derive(Debug)]
pub struct EnsureServer {
    pub phase: EnsurePhase,
    pub port: u16,
    pub version_path: String,
    pub token_path: String,
    pub workdir: String,
    pub app_version: String,
    pub deprecated: String,
    pub requirements: String,
    pub pip_spec: String,
    pub fresh_token: String,
    pub port_free: bool,
    pub installed: Option<String>,
    pub already_started: bool,
    pub stopped: bool,
    pub token: String,
}

/// Whether the recorded version differs from the application's (a missing
/// marker counts as different).
pub open spec fn mismatch(installed: Option<String>, app_version: String) -> bool {
    !(installed matches Some(v) && v@ == app_version@)
}

/// The action of a sync sub-step.
pub open spec fn sync_action(m: EnsureServer, s: SyncStep) -> EnsureAction {
    match s {
        SyncStep::Deprecated => EnsureAction::UninstallDeprecated { requirements: m.deprecated },
        SyncStep::Pip => EnsureAction::UpdatePip { spec: m.pip_spec },
        SyncStep::Requirements => EnsureAction::UpdateRequirements { requirements: m.requirements },
    }
}

/// The token action: read it while a compatible server runs, else write the
/// fresh one.
pub open spec fn token_action(m: EnsureServer) -> EnsureAction {
    if m.already_started {
        EnsureAction::ReadToken { path: m.token_path }
    } else {
        EnsureAction::WriteToken { path: m.token_path, token: m.fresh_token }
    }
}

/// The action awaited in the machine's current phase.
pub open spec fn pending(m: EnsureServer) -> EnsureAction {
    match m.phase {
        EnsurePhase::Probing => EnsureAction::ProbePort { port: m.port },
        EnsurePhase::ReadingVersion => EnsureAction::ReadVersion { path: m.version_path },
        EnsurePhase::Resync(s) => sync_action(m, s),
        EnsurePhase::Stopping => EnsureAction::StopServer { installed: m.installed, current: m.app_version },
        EnsurePhase::ResolvingToken => token_action(m),
        EnsurePhase::Sync(s) => sync_action(m, s),
        EnsurePhase::CreatingDir => EnsureAction::CreateDataDir { path: m.workdir },
        EnsurePhase::Finished => EnsureAction::Idle,
    }
}

/// Moves to `phase` and awaits its action.
pub open spec fn enter(m: EnsureServer, phase: EnsurePhase) -> (EnsureServer, EnsureAction) {
    let m2 = EnsureServer { phase, ..m };
    (m2, pending(m2))
}

/// Ends the bring-up with an error.
pub open spec fn fail(m: EnsureServer, e: ServerEnsureError) -> (EnsureServer, EnsureAction) {
    (EnsureServer { phase: EnsurePhase::Finished, ..m }, EnsureAction::Finish { result: Err(e) })
}

/// The sub-step after `s`, if any.
pub open spec fn after(s: SyncStep) -> Option<SyncStep> {
    match s {
        SyncStep::Deprecated => Some(SyncStep::Pip),
        SyncStep::Pip => Some(SyncStep::Requirements),
        SyncStep::Requirements => None,
    }
}

/// One transition of the bring-up: the state after the event and the next
/// action. An event that does not answer the awaited action leaves the state
/// as it is and asks again.
pub open spec fn next(m: EnsureServer, e: EnsureEvent) -> (EnsureServer, EnsureAction) {
    match m.phase {
        EnsurePhase::Probing => match e {
            EnsureEvent::PortProbed { free } => enter(
                EnsureServer { port_free: free, already_started: !free, ..m },
                EnsurePhase::ReadingVersion,
            ),
            _ => (m, pending(m)),
        },
        EnsurePhase::ReadingVersion => match e {
            EnsureEvent::VersionRead { version } => {
                let m1 = EnsureServer { installed: version, ..m };
                if !m.port_free && mismatch(version, m.app_version) {
                    enter(m1, EnsurePhase::Resync(SyncStep::Deprecated))
                } else {
                    enter(m1, EnsurePhase::ResolvingToken)
                }
            },
            EnsureEvent::Failed { msg } => fail(m, ServerEnsureError::VersionReadFailed { msg }),
            _ => (m, pending(m)),
        },
        EnsurePhase::Resync(s) => match e {
            EnsureEvent::Succeeded => match after(s) {
                Some(t) => enter(m, EnsurePhase::Resync(t)),
                None => enter(m, EnsurePhase::Stopping),
            },
            EnsureEvent::DependenciesFailed { reason } => fail(
                m,
                ServerEnsureError::UpdateDependenciesFailed { reason },
            ),
            _ => (m, pending(m)),
        },
        EnsurePhase::Stopping => match e {
            EnsureEvent::Succeeded => enter(
                EnsureServer { already_started: false, stopped: true, ..m },
                EnsurePhase::ResolvingToken,
            ),
            EnsureEvent::Failed { msg } => fail(m, ServerEnsureError::StopFailed { msg }),
            _ => (m, pending(m)),
        },
        EnsurePhase::ResolvingToken => match e {
            EnsureEvent::TokenRead { token } => if m.already_started {
                enter(EnsureServer { token, ..m }, EnsurePhase::Sync(SyncStep::Deprecated))
            } else {
                (m, pending(m))
            },
            EnsureEvent::Succeeded => if !m.already_started {
                enter(EnsureServer { token: m.fresh_token, ..m }, EnsurePhase::Sync(SyncStep::Deprecated))
            } else {
                (m, pending(m))
            },
            EnsureEvent::Failed { msg } => if m.already_started {
                fail(m, ServerEnsureError::TokenReadFailed { msg })
            } else {
                fail(m, ServerEnsureError::TokenWriteFailed { msg })
            },
            _ => (m, pending(m)),
        },
        EnsurePhase::Sync(s) => match e {
            EnsureEvent::Succeeded => match after(s) {
                Some(t) => enter(m, EnsurePhase::Sync(t)),
                None => enter(m, EnsurePhase::CreatingDir),
            },
            EnsureEvent::DependenciesFailed { reason } => fail(
                m,
                ServerEnsureError::UpdateDependenciesFailed { reason },
            ),
            _ => (m, pending(m)),
        },
        EnsurePhase::CreatingDir => match e {
            EnsureEvent::Succeeded => (
                EnsureServer { phase: EnsurePhase::Finished, ..m },
                EnsureAction::Finish {
                    result: Ok(EnsuredServer { token: m.token, already_started: m.already_started }),
                },
            ),
            EnsureEvent::Failed { msg } => fail(m, ServerEnsureError::CreateDataDirFailed { msg }),
            _ => (m, pending(m)),
        },
        EnsurePhase::Finished => (m, EnsureAction::Idle),
    }
}

/// The context put before the cause of a failure in the machine's current
/// phase: what was attempted, and on which path or port.
pub open spec fn error_context(m: EnsureServer) -> Seq<char> {
    match m.phase {
        EnsurePhase::ReadingVersion => "Failed to read version file at "@ + m.version_path@ + ": "@,
        EnsurePhase::Stopping => "Failed to stop the server on port "@ + decimal(m.port as nat) + ": "@,
        EnsurePhase::ResolvingToken => if m.already_started {
            "Port "@ + decimal(m.port as nat) + " is already in use, but failed to read token file at "@
                + m.token_path@ + ": "@
        } else {
            "Failed to write token file at "@ + m.token_path@ + ": "@
        },
        EnsurePhase::CreatingDir => "Failed to create server data directory at "@ + m.workdir@ + ": "@,
        _ => Seq::empty(),
    }
}

/// Whether `actual` is the decided action with `prefix` put before the cause
/// of a failure it reports; any other action is taken as decided.
pub open spec fn contextualized(decided: EnsureAction, prefix: Seq<char>, actual: EnsureAction) -> bool {
    match decided {
        EnsureAction::Finish { result: Err(ServerEnsureError::VersionReadFailed { msg }) } =>
            actual matches EnsureAction::Finish { result: Err(ServerEnsureError::VersionReadFailed { msg: full }) }
                && full@ == prefix + msg@,
        EnsureAction::Finish { result: Err(ServerEnsureError::StopFailed { msg }) } =>
            actual matches EnsureAction::Finish { result: Err(ServerEnsureError::StopFailed { msg: full }) }
                && full@ == prefix + msg@,
        EnsureAction::Finish { result: Err(ServerEnsureError::TokenReadFailed { msg }) } =>
            actual matches EnsureAction::Finish { result: Err(ServerEnsureError::TokenReadFailed { msg: full }) }
                && full@ == prefix + msg@,
        EnsureAction::Finish { result: Err(ServerEnsureError::TokenWriteFailed { msg }) } =>
            actual matches EnsureAction::Finish { result: Err(ServerEnsureError::TokenWriteFailed { msg: full }) }
                && full@ == prefix + msg@,
        EnsureAction::Finish { result: Err(ServerEnsureError::CreateDataDirFailed { msg }) } =>
            actual matches EnsureAction::Finish { result: Err(ServerEnsureError::CreateDataDirFailed { msg: full }) }
                && full@ == prefix + msg@,
        _ => actual == decided,
    }
}

/// A machine at the start of a bring-up for `config` and `app_version`
/// that would issue `fresh` as the new token.
pub open spec fn initial(m: EnsureServer, config: ServerConfig, app_version: Seq<char>, fresh: String) -> bool {
    &&& m.phase == EnsurePhase::Probing
    &&& m.port == config.port
    &&& m.version_path@ == version_path_of(config.workdir@)
    &&& m.token_path@ == token_path_of(config.workdir@)
    &&& m.workdir@ == config.workdir@
    &&& m.app_version@ == app_version
    &&& m.deprecated@ == deprecated_requirements_text(app_version)
    &&& m.requirements@ == requirements_text(app_version)
    &&& m.pip_spec@ == pip_spec_text()
    &&& m.fresh_token == fresh
    &&& !m.port_free
    &&& m.installed is None
    &&& !m.already_started
    &&& !m.stopped
    &&& m.token@.len() == 0
}

fn clone_string(s: &String) -> (r: String)
    ensures
        r == *s,
{
    s.clone()
}

fn clone_installed(o: &Option<String>) -> (r: Option<String>)
    ensures
        r == *o,
{
    match o {
        Some(v) => Some(clone_string(v)),
        None => None,
    }
}

/// Whether the recorded version differs from the application's.
pub fn is_mismatch(installed: &Option<String>, app_version: &String) -> (r: bool)
    ensures
        r == mismatch(*installed, *app_version),
{
    match installed {
        Some(v) => !(*v == *app_version),
        None => true,
    }
}

impl EnsureServer {
    /// A bring-up that issues `fresh_token` if a new token is needed.
    pub fn new_with_token(config: &ServerConfig, app_version: &str, fresh_token: String) -> (r: EnsureServer)
        ensures
            initial(r, *config, app_version@, fresh_token),
    {
        EnsureServer {
            phase: EnsurePhase::Probing,
            port: config.port,
            version_path: config.get_version_path(),
            token_path: config.get_token_path(),
            workdir: String::from_str(config.workdir.as_str()),
            app_version: String::from_str(app_version),
            deprecated: deprecated_requirements(app_version),
            requirements: requirements(app_version),
            pip_spec: String::from_str("pip==23.3.2"),
            fresh_token,
            port_free: false,
            installed: None,
            already_started: false,
            stopped: false,
            token: String::new(),
        }
    }

    fn sync_action_exec(&self, s: SyncStep) -> (a: EnsureAction)
        ensures
            a == sync_action(*self, s),
    {
        match s {
            SyncStep::Deprecated => EnsureAction::UninstallDeprecated { requirements: clone_string(&self.deprecated) },
            SyncStep::Pip => EnsureAction::UpdatePip { spec: clone_string(&self.pip_spec) },
            SyncStep::Requirements => EnsureAction::UpdateRequirements { requirements: clone_string(&self.requirements) },
        }
    }

    /// The action awaited in the current phase.
    pub fn pending_action(&self) -> (a: EnsureAction)
        ensures
            a == pending(*self),
    {
        match self.phase {
            EnsurePhase::Probing => EnsureAction::ProbePort { port: self.port },
            EnsurePhase::ReadingVersion => EnsureAction::ReadVersion { path: clone_string(&self.version_path) },
            EnsurePhase::Resync(s) => self.sync_action_exec(s),
            EnsurePhase::Stopping => EnsureAction::StopServer {
                installed: clone_installed(&self.installed),
                current: clone_string(&self.app_version),
            },
            EnsurePhase::ResolvingToken => if self.already_started {
                EnsureAction::ReadToken { path: clone_string(&self.token_path) }
            } else {
                EnsureAction::WriteToken { path: clone_string(&self.token_path), token: clone_string(&self.fresh_token) }
            },
            EnsurePhase::Sync(s) => self.sync_action_exec(s),
            EnsurePhase::CreatingDir => EnsureAction::CreateDataDir { path: clone_string(&self.workdir) },
            EnsurePhase::Finished => EnsureAction::Idle,
        }
    }

    fn fail_with(&mut self, e: ServerEnsureError) -> (a: EnsureAction)
        ensures
            (*final(self), a) == fail(*old(self), e),
    {
        self.phase = EnsurePhase::Finished;
        EnsureAction::Finish { result: Err(e) }
    }

    fn enter_phase(&mut self, phase: EnsurePhase) -> (a: EnsureAction)
        ensures
            (*final(self), a) == enter(*old(self), phase),
    {
        self.phase = phase;
        self.pending_action()
    }

    /// `cause` with the context of the current phase put before it.
    pub fn with_context(&self, cause: String) -> (r: String)
        ensures
            r@ == error_context(*self) + cause@,
    {
        let mut r = String::new();
        match self.phase {
            EnsurePhase::ReadingVersion => {
                r.append("Failed to read version file at ");
                r.append(self.version_path.as_str());
                r.append(": ");
            },
            EnsurePhase::Stopping => {
                r.append("Failed to stop the server on port ");
                let port = decimal_string(self.port as u64);
                r.append(port.as_str());
                r.append(": ");
            },
            EnsurePhase::ResolvingToken => if self.already_started {
                r.append("Port ");
                let port = decimal_string(self.port as u64);
                r.append(port.as_str());
                r.append(" is already in use, but failed to read token file at ");
                r.append(self.token_path.as_str());
                r.append(": ");
            } else {
                r.append("Failed to write token file at ");
                r.append(self.token_path.as_str());
                r.append(": ");
            },
            EnsurePhase::CreatingDir => {
                r.append("Failed to create server data directory at ");
                r.append(self.workdir.as_str());
                r.append(": ");
            },
            _ => {},
        }
        r.append(cause.as_str());
        r
    }

    /// Feeds the outcome of the awaited action and returns the next one:
    /// the transition of `next`, with the context of the failed step put
    /// before the cause the caller reports.
    pub fn step(&mut self, e: EnsureEvent) -> (a: EnsureAction)
        ensures
            *final(self) == next(*old(self), e).0,
            contextualized(next(*old(self), e).1, error_context(*old(self)), a),
    {
        match self.phase {
            EnsurePhase::Probing => match e {
                EnsureEvent::PortProbed { free } => {
                    self.port_free = free;
                    self.already_started = !free;
                    self.enter_phase(EnsurePhase::ReadingVersion)
                },
                _ => self.pending_action(),
            },
            EnsurePhase::ReadingVersion => match e {
                EnsureEvent::VersionRead { version } => {
                    let stale = is_mismatch(&version, &self.app_version);
                    self.installed = version;
                    if !self.port_free && stale {
                        self.enter_phase(EnsurePhase::Resync(SyncStep::Deprecated))
                    } else {
                        self.enter_phase(EnsurePhase::ResolvingToken)
                    }
                },
                EnsureEvent::Failed { msg } => {
                    let msg = self.with_context(msg);
                    self.fail_with(ServerEnsureError::VersionReadFailed { msg })
                },
                _ => self.pending_action(),
            },
            EnsurePhase::Resync(s) => match e {
                EnsureEvent::Succeeded => match s {
                    SyncStep::Deprecated => self.enter_phase(EnsurePhase::Resync(SyncStep::Pip)),
                    SyncStep::Pip => self.enter_phase(EnsurePhase::Resync(SyncStep::Requirements)),
                    SyncStep::Requirements => self.enter_phase(EnsurePhase::Stopping),
                },
                EnsureEvent::DependenciesFailed { reason } => self.fail_with(
                    ServerEnsureError::UpdateDependenciesFailed { reason },
                ),
                _ => self.pending_action(),
            },
            EnsurePhase::Stopping => match e {
                EnsureEvent::Succeeded => {
                    self.already_started = false;
                    self.stopped = true;
                    self.enter_phase(EnsurePhase::ResolvingToken)
                },
                EnsureEvent::Failed { msg } => {
                    let msg = self.with_context(msg);
                    self.fail_with(ServerEnsureError::StopFailed { msg })
                },
                _ => self.pending_action(),
            },
            EnsurePhase::ResolvingToken => match e {
                EnsureEvent::TokenRead { token } => if self.already_started {
                    self.token = token;
                    self.enter_phase(EnsurePhase::Sync(SyncStep::Deprecated))
                } else {
                    self.pending_action()
                },
                EnsureEvent::Succeeded => if !self.already_started {
                    self.token = clone_string(&self.fresh_token);
                    self.enter_phase(EnsurePhase::Sync(SyncStep::Deprecated))
                } else {
                    self.pending_action()
                },
                EnsureEvent::Failed { msg } => {
                    let msg = self.with_context(msg);
                    if self.already_started {
                        self.fail_with(ServerEnsureError::TokenReadFailed { msg })
                    } else {
                        self.fail_with(ServerEnsureError::TokenWriteFailed { msg })
                    }
                },
                _ => self.pending_action(),
            },
            EnsurePhase::Sync(s) => match e {
                EnsureEvent::Succeeded => match s {
                    SyncStep::Deprecated => self.enter_phase(EnsurePhase::Sync(SyncStep::Pip)),
                    SyncStep::Pip => self.enter_phase(EnsurePhase::Sync(SyncStep::Requirements)),
                    SyncStep::Requirements => self.enter_phase(EnsurePhase::CreatingDir),
                },
                EnsureEvent::DependenciesFailed { reason } => self.fail_with(
                    ServerEnsureError::UpdateDependenciesFailed { reason },
                ),
                _ => self.pending_action(),
            },
            EnsurePhase::CreatingDir => match e {
                EnsureEvent::Succeeded => {
                    self.phase = EnsurePhase::Finished;
                    EnsureAction::Finish {
                        result: Ok(EnsuredServer {
                            token: clone_string(&self.token),
                            already_started: self.already_started,
                        }),
                    }
                },
                EnsureEvent::Failed { msg } => {
                    let msg = self.with_context(msg);
                    self.fail_with(ServerEnsureError::CreateDataDirFailed { msg })
                },
                _ => self.pending_action(),
            },
            EnsurePhase::Finished => EnsureAction::Idle,
        }
    }
}

/// Whether the bring-up has settled which token to use, or is past that.
pub open spec fn token_settled_or_later(p: EnsurePhase) -> bool {
    p is ResolvingToken || p is Sync || p is CreatingDir
}

/// What holds of the bring-up in every reachable state: a running server is
/// only stopped when its recorded version differs from the application's,
/// and an occupied port is only treated as free after that stop.
pub open spec fn ensure_inv(m: EnsureServer) -> bool {
    &&& (m.phase is Probing ==> !m.already_started && !m.stopped)
    &&& (m.phase is ReadingVersion ==> m.already_started == !m.port_free && !m.stopped)
    &&& ((m.phase is Resync || m.phase is Stopping) ==> m.already_started && !m.port_free
        && mismatch(m.installed, m.app_version) && !m.stopped)
    &&& (token_settled_or_later(m.phase) ==> {
        &&& (m.stopped ==> !m.port_free && mismatch(m.installed, m.app_version) && !m.already_started)
        &&& (m.already_started ==> !m.port_free && !m.stopped && !mismatch(m.installed, m.app_version))
        &&& (!m.port_free ==> m.already_started || m.stopped)
    })
    &&& ((m.phase is Sync || m.phase is CreatingDir) && !m.already_started ==> m.token == m.fresh_token)
}

/// A fresh bring-up satisfies the invariant.
pub proof fn lemma_initial_inv(m: EnsureServer, config: ServerConfig, app_version: Seq<char>, fresh: String)
    requires
        initial(m, config, app_version, fresh),
    ensures
        ensure_inv(m),
{
}

/// Every transition keeps the invariant.
pub proof fn lemma_next_inv(m: EnsureServer, e: EnsureEvent)
    requires
        ensure_inv(m),
    ensures
        ensure_inv(next(m, e).0),
{
}

/// The running server is stopped only when the port is occupied and the
/// recorded version differs from the application's; with matching versions
/// no stop is ever issued.
pub proof fn law_stop_only_on_version_mismatch(m: EnsureServer, e: EnsureEvent)
    requires
        ensure_inv(m),
    ensures
        next(m, e).1 is StopServer ==> !m.port_free && mismatch(m.installed, m.app_version)
            && mismatch(next(m, e).0.installed, next(m, e).0.app_version),
        !mismatch(next(m, e).0.installed, next(m, e).0.app_version) ==> !(next(m, e).1 is StopServer),
{
}

/// Once the token is being settled, an occupied port counts as free only
/// after the old server was stopped for a version mismatch.
pub proof fn law_fresh_start_only_after_stop(m: EnsureServer)
    requires
        ensure_inv(m),
        token_settled_or_later(m.phase),
        !m.port_free,
        !m.already_started,
    ensures
        m.stopped,
        mismatch(m.installed, m.app_version),
{
}

/// A reading of a mismatched version on an occupied port leads to the
/// resync that ends in the stop, not to the token.
pub proof fn law_mismatch_on_occupied_port_resyncs(m: EnsureServer, version: Option<String>)
    requires
        ensure_inv(m),
        m.phase is ReadingVersion,
        !m.port_free,
        mismatch(version, m.app_version),
    ensures
        next(m, EnsureEvent::VersionRead { version }).0.phase == EnsurePhase::Resync(SyncStep::Deprecated),
        next(m, EnsureEvent::VersionRead { version }).1 is UninstallDeprecated,
{
}

/// While the port is occupied by a server that was not stopped, no new
/// token is ever written: the token is read from disk or the bring-up fails
/// with `TokenReadFailed`.
pub proof fn law_occupied_port_never_issues_token(m: EnsureServer, e: EnsureEvent)
    requires
        ensure_inv(m),
    ensures
        next(m, e).1 is WriteToken ==> next(m, e).0.port_free || next(m, e).0.stopped,
        m.phase is ResolvingToken && !m.port_free && !m.stopped ==> {
            let (m2, a) = next(m, e);
            ||| (e matches EnsureEvent::TokenRead { token } && m2.token == token && m2.phase == EnsurePhase::Sync(SyncStep::Deprecated))
            ||| (a matches EnsureAction::Finish { result: Err(ServerEnsureError::TokenReadFailed { .. }) })
            ||| (m2 == m && a is ReadToken)
        },
{
}

/// A state change of the server, forwarded to the window.
#[derive(Clone, Debug)]
pub enum ServerState {
    ServerStarting { msg: String },
    ServerRestarting { msg: String },
    ServerStopped { msg: String },
}

/// How an exit of the server process is read.
#[derive(Clone, Copy, Debug, PartialEq, Eq, Structural)]
pub enum ExitClass {
    /// Exit code 0: nothing to report.
    Normal,
    /// The reserved restart code.
    Restart,
    /// Any other code: the server stopped or crashed.
    Crash(i32),
    /// No exit code at all (ended by a signal): a crash as well.
    Killed,
}

/// The reading of an exit with `code` (`None` when no code was reported).
pub open spec fn classify(code: Option<i32>) -> ExitClass {
    match code {
        None => ExitClass::Killed,
        Some(c) => if c == 0 {
            ExitClass::Normal
        } else if c == RESTART_CODE {
            ExitClass::Restart
        } else {
            ExitClass::Crash(c)
        },
    }
}

/// The message reported for a crash with code `c`.
pub open spec fn crash_message(c: i32) -> Seq<char> {
    "Server exited with code "@ + signed_decimal(c as int)
}

/// Whether `r` is the event reported for an exit read as `class`.
pub open spec fn exit_event_matches(r: Option<ServerState>, class: ExitClass) -> bool {
    match class {
        ExitClass::Normal => r is None,
        ExitClass::Restart => r matches Some(ServerState::ServerRestarting { msg }) && msg@ == "Server is restarting"@,
        ExitClass::Crash(c) => r matches Some(ServerState::ServerStopped { msg }) && msg@ == crash_message(c),
        ExitClass::Killed => r matches Some(ServerState::ServerStopped { msg })
            && msg@ == "Server was terminated without an exit code"@,
    }
}

/// Reads an exit code.
pub fn classify_exit(code: Option<i32>) -> (r: ExitClass)
    ensures
        r == classify(code),
{
    match code {
        None => ExitClass::Killed,
        Some(c) => if c == 0 {
            ExitClass::Normal
        } else if c == RESTART_CODE {
            ExitClass::Restart
        } else {
            ExitClass::Crash(c)
        },
    }
}

/// The event reported for an exit read as `class`.
pub fn exit_event(class: ExitClass) -> (r: Option<ServerState>)
    ensures
        exit_event_matches(r, class),
{
    match class {
        ExitClass::Normal => None,
        ExitClass::Restart => Some(ServerState::ServerRestarting { msg: String::from_str("Server is restarting") }),
        ExitClass::Crash(c) => {
            let mut msg = String::from_str("Server exited with code ");
            let digits = signed_decimal_string(c);
            msg.append(digits.as_str());
            Some(ServerState::ServerStopped { msg })
        },
        ExitClass::Killed => Some(
            ServerState::ServerStopped { msg: String::from_str("Server was terminated without an exit code") },
        ),
    }
}

/// A process to launch: program, arguments and working directory.
#[derive(Debug)]
pub struct LaunchPlan {
    pub program: String,
    pub args: Vec<String>,
    pub workdir: String,
}

/// The module the server runs as.
pub open spec fn server_module() -> Seq<char> {
    "omuserver"@
}

/// Arguments that start the server.
pub open spec fn start_args(token: Seq<char>, port: u16, hash: Seq<char>, dashboard: Seq<char>, index_url: Seq<char>) -> Seq<Seq<char>> {
    seq![
        "-m"@, server_module(), "--token"@, token, "--port"@, decimal(port as nat), "--hash"@, hash,
        "--dashboard-path"@, dashboard, "--index-url"@, index_url,
    ]
}

/// Arguments of a one-shot invocation with a final `flag`.
pub open spec fn oneshot_args(port: u16, flag: Seq<char>) -> Seq<Seq<char>> {
    seq!["-m"@, server_module(), "--port"@, decimal(port as nat), flag]
}

fn push_str(v: &mut Vec<String>, s: &str)
    ensures
        views(final(v)@) == views(old(v)@).push(s@),
{
    push_string(v, String::from_str(s));
}

fn oneshot_plan(python: &Python, config: &ServerConfig, flag: &str) -> (r: LaunchPlan)
    ensures
        r.program@ == python.python_bin@,
        views(r.args@) == oneshot_args(config.port, flag@),
        r.workdir@ == config.workdir@,
{
    let mut args: Vec<String> = Vec::new();
    proof {
        assert(views(args@) =~= Seq::<Seq<char>>::empty());
    }
    push_str(&mut args, "-m");
    push_str(&mut args, "omuserver");
    push_str(&mut args, "--port");
    push_string(&mut args, decimal_string(config.port as u64));
    push_str(&mut args, flag);
    assert(views(args@) =~= oneshot_args(config.port, flag@));
    LaunchPlan {
        program: String::from_str(python.python_bin.as_str()),
        args,
        workdir: String::from_str(config.workdir.as_str()),
    }
}

/// How a one-shot invocation ended, once it could be spawned.
#[derive(Clone, Copy, Debug, PartialEq, Eq, Structural)]
pub enum OneShotOutcome {
    Succeeded,
    /// It ran but did not exit with 0; callers go on with a warning.
    ExitedWithFailure { code: Option<i32> },
}

/// Judges a one-shot invocation: a spawn failure is fatal, a non-zero exit
/// only a warning.
pub fn judge_oneshot(spawned: Result<Option<i32>, String>) -> (r: Result<OneShotOutcome, String>)
    ensures
        match spawned {
            Ok(Some(c)) => r == (if c == 0 {
                Ok::<OneShotOutcome, String>(OneShotOutcome::Succeeded)
            } else {
                Ok::<OneShotOutcome, String>(OneShotOutcome::ExitedWithFailure { code: Some(c) })
            }),
            Ok(None) => r == Ok::<OneShotOutcome, String>(OneShotOutcome::ExitedWithFailure { code: None }),
            Err(m) => r == Err::<OneShotOutcome, String>(m),
        },
{
    match spawned {
        Ok(Some(c)) => if c == 0 {
            Ok(OneShotOutcome::Succeeded)
        } else {
            Ok(OneShotOutcome::ExitedWithFailure { code: Some(c) })
        },
        Ok(None) => Ok(OneShotOutcome::ExitedWithFailure { code: None }),
        Err(m) => Err(m),
    }
}

/// Whether a spawned server process is alive; only spawning fills it and
/// only an observed exit clears it.
#[derive(Debug)]
pub struct ProcessSlot {
    occupied: bool,
}

impl ProcessSlot {
    /// Whether the slot holds a live process.
    pub closed spec fn is_occupied(&self) -> bool {
        self.occupied
    }

    /// A slot holding nothing.
    pub fn empty() -> (r: ProcessSlot)
        ensures
            !r.is_occupied(),
    {
        ProcessSlot { occupied: false }
    }

    /// Whether the slot holds a live process.
    pub fn occupied(&self) -> (r: bool)
        ensures
            r == self.is_occupied(),
    {
        self.occupied
    }

    fn fill(&mut self)
        ensures
            final(self).is_occupied(),
    {
        self.occupied = true;
    }

    fn clear(&mut self)
        ensures
            !final(self).is_occupied(),
    {
        self.occupied = false;
    }
}

/// A server brought up by `EnsureServer`, with the supervision state of the
/// process spawned for it.
#[derive(Debug)]
pub struct Server {
    pub config: ServerConfig,
    pub python: Python,
    pub uv: Uv,
    pub token: String,
    pub already_started: bool,
    pub process: ProcessSlot,
}

impl Server {
    /// Whether a spawned process is alive.
    pub open spec fn running(&self) -> bool {
        self.process.is_occupied()
    }

    /// Starts bringing up the server of `config` for application version
    /// `app_version`, with a freshly drawn candidate token.
    pub fn ensure_server(config: &ServerConfig, app_version: &str) -> (r: EnsureServer)
        ensures
            initial(r, *config, app_version@, r.fresh_token),
            is_token(r.fresh_token@),
    {
        let token = generate_token();
        EnsureServer::new_with_token(config, app_version, token)
    }

    /// The handle for a finished bring-up; nothing is spawned yet.
    pub fn new(config: ServerConfig, python: Python, uv: Uv, ensured: EnsuredServer) -> (r: Server)
        ensures
            r.config == config,
            r.python == python,
            r.uv == uv,
            r.token == ensured.token,
            r.already_started == ensured.already_started,
            !r.running(),
    {
        Server {
            config,
            python,
            uv,
            token: ensured.token,
            already_started: ensured.already_started,
            process: ProcessSlot::empty(),
        }
    }

    /// Whether this handle spawned a process that has not exited.
    pub fn is_running(&self) -> (r: bool)
        ensures
            r == self.running(),
    {
        self.process.occupied()
    }

    /// The launch of the server process, refused with `AlreadyRunning` when
    /// a compatible server was found running or this handle already runs one.
    pub fn start(&self, dashboard_path: &str) -> (r: Result<LaunchPlan, ServerEnsureError>)
        ensures
            r is Err <==> self.already_started || self.running(),
            r matches Err(e) ==> (e matches ServerEnsureError::AlreadyRunning { msg }
                && msg@ == "Server is already running on port "@ + decimal(self.config.port as nat)),
            r matches Ok(plan) ==> {
                &&& plan.program@ == self.python.python_bin@
                &&& views(plan.args@) == start_args(self.token@, self.config.port, self.config.hash@, dashboard_path@, self.uv.index_url@)
                &&& plan.workdir@ == self.config.workdir@
            },
    {
        if self.already_started || self.process.occupied() {
            let mut msg = String::from_str("Server is already running on port ");
            let port = decimal_string(self.config.port as u64);
            msg.append(port.as_str());
            return Err(ServerEnsureError::AlreadyRunning { msg });
        }
        let mut args: Vec<String> = Vec::new();
        proof {
            assert(views(args@) =~= Seq::<Seq<char>>::empty());
        }
        push_str(&mut args, "-m");
        push_str(&mut args, "omuserver");
        push_str(&mut args, "--token");
        push_str(&mut args, self.token.as_str());
        push_str(&mut args, "--port");
        push_string(&mut args, decimal_string(self.config.port as u64));
        push_str(&mut args, "--hash");
        push_str(&mut args, self.config.hash.as_str());
        push_str(&mut args, "--dashboard-path");
        push_str(&mut args, dashboard_path);
        push_str(&mut args, "--index-url");
        push_str(&mut args, self.uv.index_url.as_str());
        assert(views(args@) =~= start_args(self.token@, self.config.port, self.config.hash@, dashboard_path@, self.uv.index_url@));
        Ok(LaunchPlan {
            program: String::from_str(self.python.python_bin.as_str()),
            args,
            workdir: String::from_str(self.config.workdir.as_str()),
        })
    }

    /// Records how spawning the server process went: a spawned process
    /// fills the handle; a failure leaves it as it was and becomes
    /// `StartFailed` carrying the cause.
    pub fn on_spawn(&mut self, spawned: Result<(), String>) -> (r: Result<(), ServerEnsureError>)
        ensures
            spawned is Ok ==> r is Ok && final(self).running(),
            spawned matches Err(detail) ==> (r matches Err(ServerEnsureError::StartFailed { msg })
                && msg@ == "Failed to start server process: "@ + detail@)
                && final(self).running() == old(self).running(),
            final(self).config == old(self).config,
            final(self).token == old(self).token,
            final(self).already_started == old(self).already_started,
    {
        match spawned {
            Ok(()) => {
                self.process.fill();
                Ok(())
            },
            Err(detail) => {
                let mut msg = String::from_str("Failed to start server process: ");
                msg.append(detail.as_str());
                Err(ServerEnsureError::StartFailed { msg })
            },
        }
    }

    /// Records the exit of the server process with `code` and returns the
    /// event to report: none for a normal exit, a restart for the reserved
    /// code, a stop otherwise (carrying the code when there is one). The
    /// handle is cleared in every case.
    pub fn on_exit(&mut self, code: Option<i32>) -> (r: Option<ServerState>)
        ensures
            !final(self).running(),
            exit_event_matches(r, classify(code)),
            final(self).config == old(self).config,
            final(self).token == old(self).token,
            final(self).already_started == old(self).already_started,
    {
        self.process.clear();
        exit_event(classify_exit(code))
    }

    /// The one-shot invocation that asks the server on the configured port
    /// to stop.
    pub fn stop_server(python: &Python, config: &ServerConfig) -> (r: LaunchPlan)
        ensures
            r.program@ == python.python_bin@,
            views(r.args@) == oneshot_args(config.port, "--stop"@),
            r.workdir@ == config.workdir@,
    {
        oneshot_plan(python, config, "--stop")
    }

    /// The one-shot invocation that asks the server to remove what it
    /// registered outside its own directories.
    pub fn uninstall(python: &Python, config: &ServerConfig) -> (r: LaunchPlan)
        ensures
            r.program@ == python.python_bin@,
            views(r.args@) == oneshot_args(config.port, "--uninstall"@),
            r.workdir@ == config.workdir@,
    {
        oneshot_plan(python, config, "--uninstall")
    }
}

/// Exit 0 reports nothing, the restart code reports a restart, any other
/// code reports a stop carrying it, and an exit without a code (a signal)
/// reports a stop too: a crash is never read as a normal exit. (`Server::on_exit`
/// clears the handle whichever it is.)
pub proof fn law_exit_classification(code: Option<i32>)
    ensures
        classify(code) == ExitClass::Normal <==> code == Some(0i32),
        classify(code) == ExitClass::Restart <==> code == Some(RESTART_CODE),
        code matches Some(c) ==> (c != 0 && c != RESTART_CODE ==> classify(code) == ExitClass::Crash(c)),
        code is None ==> classify(code) == ExitClass::Killed,
{
}

/// Whether a sync sub-step ran to a zero exit.
pub open spec fn sync_succeeded(spawned: Result<Option<i32>, String>) -> bool {
    spawned == Ok::<Option<i32>, String>(Some(0i32))
}

/// Judges one sync sub-step: success on a zero exit; otherwise the error of
/// that sub-step (`UpdatePipFailed` for the installer pin,
/// `UpdateRequirementsFailed` for the requirement lists) carrying `detail`.
pub fn sync_outcome(step: SyncStep, spawned: Result<Option<i32>, String>, detail: String) -> (r: Result<(), UvEnsureError>)
    ensures
        r is Ok <==> sync_succeeded(spawned),
        r matches Err(e) ==> match step {
            SyncStep::Pip => e == UvEnsureError::UpdatePipFailed { msg: detail },
            _ => e == UvEnsureError::UpdateRequirementsFailed { msg: detail },
        },
{
    match judge_oneshot(spawned) {
        Ok(OneShotOutcome::Succeeded) => Ok(()),
        _ => match step {
            SyncStep::Pip => Err(UvEnsureError::UpdatePipFailed { msg: detail }),
            _ => Err(UvEnsureError::UpdateRequirementsFailed { msg: detail }),
        },
    }
}

/// The sync sub-step an action stands for, if it is one.
pub fn sync_step_of(a: &EnsureAction) -> (r: Option<SyncStep>)
    ensures
        r == match *a {
            EnsureAction::UninstallDeprecated { .. } => Some(SyncStep::Deprecated),
            EnsureAction::UpdatePip { .. } => Some(SyncStep::Pip),
            EnsureAction::UpdateRequirements { .. } => Some(SyncStep::Requirements),
            _ => None,
        },
{
    match a {
        EnsureAction::UninstallDeprecated { .. } => Some(SyncStep::Deprecated),
        EnsureAction::UpdatePip { .. } => Some(SyncStep::Pip),
        EnsureAction::UpdateRequirements { .. } => Some(SyncStep::Requirements),
        _ => None,
    }
}

} // verus!
