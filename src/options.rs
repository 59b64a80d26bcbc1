//! Per-run configuration: where the runtime, the package manager and the
//! server's data live, and which Python is pinned.

use chrono::Datelike;
use vstd::prelude::*;
use crate::text::{decimal, decimal_string, join_path, path_join, push_char};
use vstd::string::*;

verus! {

/// A requested Python version; absent parts match anything.
#[derive(Clone, Debug)]
pub struct PythonVersionRequest {
    pub name: Option<String>,
    pub arch: Option<String>,
    pub os: Option<String>,
    pub major: u8,
    pub minor: Option<u8>,
    pub patch: Option<u8>,
    pub suffix: Option<String>,
}

/// `.` followed by the decimal rendering of `n`.
pub open spec fn dotted(n: nat) -> Seq<char> {
    seq!['.'] + decimal(n)
}

/// The text of a version request: `name@` when a name is given, then the
/// major version, then `.minor` and `.patch` as far as they are given.
pub open spec fn request_text(r: PythonVersionRequest) -> Seq<char> {
    let prefix = match r.name {
        Some(n) => n@ + seq!['@'],
        None => Seq::empty(),
    };
    let numbers = match r.minor {
        Some(mi) => match r.patch {
            Some(pa) => decimal(r.major as nat) + dotted(mi as nat) + dotted(pa as nat),
            None => decimal(r.major as nat) + dotted(mi as nat),
        },
        None => decimal(r.major as nat),
    };
    prefix + numbers
}

/// The Python this application is built for: 3.13.2 of any build.
pub open spec fn pinned_request() -> PythonVersionRequest {
    PythonVersionRequest {
        name: None,
        arch: None,
        os: None,
        major: 3,
        minor: Some(13),
        patch: Some(2),
        suffix: None,
    }
}

impl PythonVersionRequest {
    /// The pinned Python version.
    pub fn pinned() -> (r: PythonVersionRequest)
        ensures
            r == pinned_request(),
    {
        PythonVersionRequest {
            name: None,
            arch: None,
            os: None,
            major: 3,
            minor: Some(13),
            patch: Some(2),
            suffix: None,
        }
    }

    /// The request as text, which also names its install directory.
    pub fn to_text(&self) -> (r: String)
        ensures
            r@ == request_text(*self),
    {
        let mut r = String::new();
        match &self.name {
            Some(n) => {
                r.append(n.as_str());
                push_char(&mut r, '@');
            },
            None => {},
        }
        let major = decimal_string(self.major as u64);
        r.append(major.as_str());
        match self.minor {
            Some(mi) => {
                push_char(&mut r, '.');
                let m = decimal_string(mi as u64);
                r.append(m.as_str());
                match self.patch {
                    Some(pa) => {
                        push_char(&mut r, '.');
                        let p = decimal_string(pa as u64);
                        r.append(p.as_str());
                    },
                    None => {},
                }
            },
            None => {},
        }
        r
    }
}

/// Immutable configuration of one run.
#[derive(Clone, Debug)]
pub struct AppOptions {
    pub python_version: PythonVersionRequest,
    pub python_path: String,
    pub uv_path: String,
    pub workdir: String,
    pub appdir: String,
}

/// A calendar date as the local clock gives it.
#[derive(Clone, Copy, Debug, PartialEq, Eq, Structural)]
pub struct LocalDate {
    pub year: i32,
    pub month: u32,
    pub day: u32,
}

/// Decimal rendering padded with zeros on the left to `width` digits.
pub open spec fn padded(n: nat, width: nat) -> Seq<char> {
    if decimal(n).len() >= width {
        decimal(n)
    } else {
        Seq::new((width - decimal(n).len()) as nat, |i: int| '0') + decimal(n)
    }
}

/// `YYYY-MM-DD`, the year signed when negative.
pub open spec fn date_text(d: LocalDate) -> Seq<char> {
    let year = if d.year < 0 {
        seq!['-'] + padded((-d.year) as nat, 4)
    } else {
        padded(d.year as nat, 4)
    };
    year + seq!['-'] + padded(d.month as nat, 2) + seq!['-'] + padded(d.day as nat, 2)
}

fn padded_string(n: u64, width: usize) -> (r: String)
    ensures
        r@ == padded(n as nat, width as nat),
{
    let digits = decimal_string(n);
    let len = digits.as_str().unicode_len();
    let mut r = String::new();
    if len < width {
        let mut i: usize = 0;
        while i < width - len
            invariant
                i <= width - len,
                len < width,
                r@ == Seq::new(i as nat, |k: int| '0'),
            decreases width - len - i,
        {
            push_char(&mut r, '0');
            assert(r@ =~= Seq::new((i + 1) as nat, |k: int| '0'));
            i = i + 1;
        }
    }
    r.append(digits.as_str());
    r
}

/// Renders a date as `YYYY-MM-DD`.
pub fn date_stamp(d: LocalDate) -> (r: String)
    ensures
        r@ == date_text(d),
{
    let mut r = String::new();
    if d.year < 0 {
        push_char(&mut r, '-');
        let y = padded_string((-(d.year as i64)) as u64, 4);
        r.append(y.as_str());
    } else {
        let y = padded_string(d.year as u64, 4);
        r.append(y.as_str());
    }
    push_char(&mut r, '-');
    let m = padded_string(d.month as u64, 2);
    r.append(m.as_str());
    push_char(&mut r, '-');
    let dd = padded_string(d.day as u64, 2);
    r.append(dd.as_str());
    r
}

/// Relies on `chrono::Local::now` and `chrono::Datelike`: today's date on
/// the local clock, with the month in 1..=12 and the day in 1..=31.
#[verifier::external_body]
fn today_local() -> (r: LocalDate)
    ensures
        1 <= r.month <= 12,
        1 <= r.day <= 31,
{
    let now = chrono::Local::now();
    LocalDate { year: now.year(), month: now.month(), day: now.day() }
}

impl AppOptions {
    /// Options for the given data directory and binary directory.
    pub fn from_dirs(data_dir: &str, bin_dir: &str) -> (r: AppOptions)
        ensures
            r.python_path@ == path_join(bin_dir@, seq!['p', 'y', 't', 'h', 'o', 'n']),
            r.uv_path@ == path_join(bin_dir@, seq!['u', 'v']),
            r.workdir@ == data_dir@,
            r.appdir@ == bin_dir@,
            r.python_version == pinned_request(),
    {
        let python = "python";
        let uv = "uv";
        proof {
            reveal_strlit("python");
            reveal_strlit("uv");
        }
        AppOptions {
            python_version: PythonVersionRequest::pinned(),
            python_path: join_path(bin_dir, python),
            uv_path: join_path(bin_dir, uv),
            workdir: String::from_str(data_dir),
            appdir: String::from_str(bin_dir),
        }
    }

    /// The install directory of the pinned Python.
    pub fn get_python_path(&self) -> (r: String)
        ensures
            r@ == path_join(self.python_path@, request_text(self.python_version)),
    {
        let v = self.python_version.to_text();
        join_path(self.python_path.as_str(), v.as_str())
    }

    /// The log directory of the given day: `<workdir>/logs/<YYYY-MM-DD>`.
    pub fn log_dir_for(&self, date: LocalDate) -> (r: String)
        ensures
            r@ == path_join(path_join(self.workdir@, seq!['l', 'o', 'g', 's']), date_text(date)),
    {
        let logs = "logs";
        proof {
            reveal_strlit("logs");
        }
        let base = join_path(self.workdir.as_str(), logs);
        let stamp = date_stamp(date);
        join_path(base.as_str(), stamp.as_str())
    }

    /// Today's log directory.
    pub fn get_log_dir(&self) -> (r: String)
        ensures
            exists|d: LocalDate| r@ == path_join(path_join(self.workdir@, seq!['l', 'o', 'g', 's']), date_text(d)),
    {
        let today = today_local();
        self.log_dir_for(today)
    }

    /// Where the application preferences are stored.
    pub fn config_path(&self) -> (r: String)
        ensures
            r@ == path_join(self.appdir@, seq!['c', 'o', 'n', 'f', 'i', 'g', '.', 'j', 's', 'o', 'n']),
    {
        let name = "config.json";
        proof {
            reveal_strlit("config.json");
        }
        join_path(self.appdir.as_str(), name)
    }

    /// Where the server configuration is stored.
    pub fn server_config_path(&self) -> (r: String)
        ensures
            r@ == path_join(self.appdir@, seq!['s', 'e', 'r', 'v', 'e', 'r', '.', 'j', 's', 'o', 'n']),
    {
        let name = "server.json";
        proof {
            reveal_strlit("server.json");
        }
        join_path(self.appdir.as_str(), name)
    }
}

/// User preferences.
#[derive(Clone, Copy, Debug, PartialEq, Eq, Structural)]
pub struct AppConfig {
    pub enable_beta: bool,
}

impl AppConfig {
    /// The stored preferences when they could be loaded, else the defaults.
    pub fn ensure(stored: Option<AppConfig>) -> (r: AppConfig)
        ensures
            r == match stored {
                Some(c) => c,
                None => AppConfig { enable_beta: false },
            },
    {
        match stored {
            Some(c) => c,
            None => AppConfig { enable_beta: false },
        }
    }
}

} // verus!
