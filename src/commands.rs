//! Results and errors of the commands the window invokes, and the script
//! injected into embedded web views.

use vstd::prelude::*;
use vstd::string::*;
use crate::python::PythonEnsureError;
use crate::server::{Server, ServerEnsureError};
use crate::text::push_char;
use crate::uv::UvEnsureError;

verus! {

/// Why starting the server failed.
#[derive(Clone, Debug)]
pub enum StartError {
    ServerStartFailed { msg: String },
    PythonEnsureError { reason: PythonEnsureError },
    UvEnsureError { reason: UvEnsureError },
    ServerEnsureError { reason: ServerEnsureError },
}

/// What a start request found.
#[derive(Clone, Debug)]
pub enum StartResult {
    AlreadyRunning { token: String },
    Starting { token: String },
}

/// The answer to a start request once the bring-up is over: a server found
/// running is reported as such, otherwise one is being started.
pub fn start_result(already_started: bool, token: String) -> (r: StartResult)
    ensures
        already_started ==> r == (StartResult::AlreadyRunning { token }),
        !already_started ==> r == (StartResult::Starting { token }),
{
    if already_started {
        StartResult::AlreadyRunning { token }
    } else {
        StartResult::Starting { token }
    }
}

/// The answer to a start request while a server spawned by this
/// application still runs: that server and its token.
pub fn reuse_running(server: &Option<Server>) -> (r: Option<StartResult>)
    ensures
        r is Some <==> (server matches Some(s) && s.running()),
        r matches Some(res) ==> (server matches Some(s) && res == (StartResult::AlreadyRunning { token: s.token })),
{
    match server {
        Some(s) => if s.is_running() {
            Some(StartResult::AlreadyRunning { token: s.token.clone() })
        } else {
            None
        },
        None => None,
    }
}

/// Why stopping the server failed.
#[derive(Clone, Debug)]
pub enum StopError {
    PythonEnsureError { reason: PythonEnsureError },
    ServerEnsureError { reason: ServerEnsureError },
}

/// Why cleaning the environment failed.
#[derive(Clone, Debug)]
pub enum CleanError {
    PythonError { reason: PythonEnsureError },
    ServerError { reason: String },
    RemovePythonError { reason: String },
    RemoveUvError { reason: String },
}

/// Why uninstalling failed.
#[derive(Clone, Debug)]
pub enum UninstallError {
    PythonError { reason: PythonEnsureError },
    ServerError { reason: String },
    RemoveAppDataError { reason: String },
    RemovePythonError { reason: String },
    RemoveUvError { reason: String },
}

/// Which web view's cookies to read, for which URL.
#[derive(Clone, Debug)]
pub struct GetCookiesOptions {
    pub label: String,
    pub url: String,
}

/// One cookie.
#[derive(Clone, Debug)]
pub struct Cookie {
    pub name: String,
    pub value: String,
}

/// Why cookies could not be read.
#[derive(Clone, Debug)]
pub enum GetCookiesError {
    AppHandleError { msg: String },
    NoAppHandle { msg: String },
    NoWindow { msg: String },
    InvalidUrl { msg: String },
    FailedToGetCookies { msg: String },
}

/// A web view to open: its label, address and a script to run in it.
#[derive(Clone, Debug)]
pub struct CreateWebviewWindowOptions {
    pub label: String,
    pub url: String,
    pub script: String,
}

/// A character as it is written inside a double-quoted script literal.
pub open spec fn escaped_char(c: char) -> Seq<char> {
    if c == '\\' {
        seq!['\\', '\\']
    } else if c == '"' {
        seq!['\\', '"']
    } else if c == '\n' {
        seq!['\\', 'n']
    } else {
        seq![c]
    }
}

/// Text written inside a double-quoted script literal: backslashes, quotes
/// and newlines escaped.
pub open spec fn escaped(s: Seq<char>) -> Seq<char>
    decreases s.len(),
{
    if s.len() == 0 {
        Seq::empty()
    } else {
        escaped(s.drop_last()) + escaped_char(s.last())
    }
}

/// Escapes text for a double-quoted script literal.
pub fn sanitize_string_literal(s: &String) -> (r: String)
    ensures
        r@ == escaped(s@),
{
    let t = s.as_str();
    let n = t.unicode_len();
    let mut r = String::new();
    let mut i: usize = 0;
    assert(s@.subrange(0, 0) =~= Seq::<char>::empty());
    while i < n
        invariant
            i <= n,
            n == s@.len(),
            t@ == s@,
            r@ == escaped(s@.subrange(0, i as int)),
        decreases n - i,
    {
        let c = t.get_char(i);
        if c == '\\' {
            push_char(&mut r, '\\');
            push_char(&mut r, '\\');
        } else if c == '"' {
            push_char(&mut r, '\\');
            push_char(&mut r, '"');
        } else if c == '\n' {
            push_char(&mut r, '\\');
            push_char(&mut r, 'n');
        } else {
            push_char(&mut r, c);
        }
        proof {
            let u = s@.subrange(0, i + 1);
            assert(u.drop_last() =~= s@.subrange(0, i as int));
            assert(u.last() == c);
            assert(escaped(u) == escaped(u.drop_last()) + escaped_char(c));
            assert(r@ =~= escaped(u));
        }
        i = i + 1;
    }
    assert(s@.subrange(0, n as int) =~= s@);
    r
}

/// The script run in a web view opened for `host`: `window.close` navigates
/// to `webview://close`, and `script` runs only on that host.
pub open spec fn init_script_text(host: Seq<char>, script: Seq<char>) -> Seq<char> {
    "window.close = () => location.href='webview://close'; if (location.hostname === \""@ + escaped(host)
        + "\") { eval(\""@ + escaped(script) + "\") }"@
}

impl CreateWebviewWindowOptions {
    /// The initialisation script for a view of this window on `host`.
    pub fn init_script(&self, host: &String) -> (r: String)
        ensures
            r@ == init_script_text(host@, self.script@),
    {
        let mut r = String::from_str("window.close = () => location.href='webview://close'; if (location.hostname === \"");
        let h = sanitize_string_literal(host);
        r.append(h.as_str());
        r.append("\") { eval(\"");
        let sc = sanitize_string_literal(&self.script);
        r.append(sc.as_str());
        r.append("\") }");
        r
    }
}

} // verus!
