//! The persisted configuration record and the resolution of the three
//! options every command needs: the supervised program's path, the
//! working directory and the configuration directory. A call-time value
//! wins over a persisted one; a value that names a missing path, or no
//! value at all, is a fatal error with its exact message.

use vstd::prelude::*;

verus! {

/// The persisted configuration record: three optional string fields.
pub struct Config {
    pub bin: Option<String>,
    pub wdir: Option<String>,
    pub cdir: Option<String>,
}

impl Config {
    /// The record rendered for display, one `key=value` line per field,
    /// an absent field shown as empty.
    pub open spec fn rendered(&self) -> Seq<char> {
        "bin="@ + opt_text(self.bin) + "\nwdir="@ + opt_text(self.wdir) + "\ncdir="@ + opt_text(
            self.cdir,
        )
    }

    /// Renders the record for display.
    pub fn display_string(&self) -> (r: String)
        ensures
            r@ == self.rendered(),
    {
        let mut r = String::new();
        r.append("bin=");
        match &self.bin {
            Some(s) => r.append(s.as_str()),
            None => (),
        }
        r.append("\nwdir=");
        match &self.wdir {
            Some(s) => r.append(s.as_str()),
            None => (),
        }
        r.append("\ncdir=");
        match &self.cdir {
            Some(s) => r.append(s.as_str()),
            None => (),
        }
        proof {
            assert(r@ =~= self.rendered());
        }
        r
    }
}

/// The characters of an optional string field, empty when absent.
pub open spec fn opt_text(o: Option<String>) -> Seq<char> {
    match o {
        Some(s) => s@,
        None => Seq::<char>::empty(),
    }
}

/// Returns the record with the field named by `key` set to `value`; a
/// key that names no field leaves the record unchanged.
pub fn apply_setting(config: Config, key: &str, value: &str) -> (r: Config)
    ensures
        r.bin.deep_view() == (if key@ == "bin"@ {
            Some(value@)
        } else {
            config.bin.deep_view()
        }),
        r.wdir.deep_view() == (if key@ == "wdir"@ {
            Some(value@)
        } else {
            config.wdir.deep_view()
        }),
        r.cdir.deep_view() == (if key@ == "cdir"@ {
            Some(value@)
        } else {
            config.cdir.deep_view()
        }),
{
    proof {
        reveal_strlit("bin");
        reveal_strlit("wdir");
        reveal_strlit("cdir");
    }
    let key_owned = key.to_owned();
    proof {
        assert("bin"@ =~= seq!['b', 'i', 'n']);
        assert("wdir"@ =~= seq!['w', 'd', 'i', 'r']);
        assert("cdir"@ =~= seq!['c', 'd', 'i', 'r']);
        assert("bin"@ != "wdir"@);
        assert("bin"@ != "cdir"@);
        assert("wdir"@ != "cdir"@);
    }
    let mut updated = config;
    if key_owned == String::from_str("bin") {
        updated.bin = Some(value.to_owned());
    } else if key_owned == String::from_str("wdir") {
        updated.wdir = Some(value.to_owned());
    } else if key_owned == String::from_str("cdir") {
        updated.cdir = Some(value.to_owned());
    }
    updated
}

/// Which of the three options a value or an error is about.
#[derive(Clone, Copy, Debug, PartialEq, Eq, Structural)]
pub enum OptionKind {
    Bin,
    Wdir,
    Cdir,
}

/// Where a resolved option value came from.
#[derive(Clone, Copy, Debug, PartialEq, Eq, Structural)]
pub enum OptionSource {
    CommandLine,
    ConfigFile,
}

/// Why resolving an option failed: no value from either source, or the
/// chosen value names a path that does not exist.
#[derive(Clone, Copy, Debug, PartialEq, Eq, Structural)]
pub enum OptionError {
    Missing { kind: OptionKind },
    PathNotFound { kind: OptionKind, source: OptionSource },
}

/// Picks an option's value: the call-time value when given, else the
/// persisted one, else nothing.
pub fn resolve_option(explicit: Option<String>, persisted: Option<String>) -> (r: Option<
    (String, OptionSource),
>)
    ensures
        explicit matches Some(e) ==> (r matches Some(p) && p.0 == e && p.1
            == OptionSource::CommandLine),
        explicit is None ==> (persisted matches Some(q) ==> (r matches Some(p) && p.0 == q && p.1
            == OptionSource::ConfigFile)),
        explicit is None && persisted is None ==> r is None,
{
    match explicit {
        Some(e) => Some((e, OptionSource::CommandLine)),
        None => match persisted {
            Some(q) => Some((q, OptionSource::ConfigFile)),
            None => None,
        },
    }
}

/// Judges a resolved option against the filesystem's verdict on its
/// path: a missing value, or a value whose path does not exist, is the
/// matching fatal error; otherwise the value stands.
pub fn judge_resolved(kind: OptionKind, resolved: Option<(String, OptionSource)>, exists: bool) -> (r:
    Result<String, OptionError>)
    ensures
        resolved is None ==> r == Err::<String, OptionError>(OptionError::Missing { kind }),
        exists ==> (resolved matches Some(p) ==> (r matches Ok(path) && path == p.0)),
        !exists ==> (resolved matches Some(p) ==> r == Err::<String, OptionError>(
            OptionError::PathNotFound { kind, source: p.1 },
        )),
{
    match resolved {
        None => Err(OptionError::Missing { kind }),
        Some((path, source)) => if exists {
            Ok(path)
        } else {
            Err(OptionError::PathNotFound { kind, source })
        },
    }
}

/// The flag an option is set with on the command line.
pub open spec fn option_flag_text(kind: OptionKind) -> Seq<char> {
    match kind {
        OptionKind::Bin => "<--bin/-b>"@,
        OptionKind::Wdir => "<--wdir/-w>"@,
        OptionKind::Cdir => "<--cdir/-c>"@,
    }
}

/// The label of the place a failing option value came from: its flag for
/// a call-time value, the configuration file's name for a persisted one.
pub open spec fn source_label_text(kind: OptionKind, source: OptionSource) -> Seq<char> {
    match source {
        OptionSource::CommandLine => option_flag_text(kind),
        OptionSource::ConfigFile => "<config.toml>"@,
    }
}

/// What is missing when an option's path does not exist.
pub open spec fn missing_path_text(kind: OptionKind) -> Seq<char> {
    match kind {
        OptionKind::Bin => "sing-box program path does not exist"@,
        OptionKind::Wdir => "working directory does not exist"@,
        OptionKind::Cdir => "config directory does not exist"@,
    }
}

/// The full message reported for a failed option resolution.
pub open spec fn option_error_text(e: OptionError) -> Seq<char> {
    match e {
        OptionError::Missing { kind } => "Missing option "@ + option_flag_text(kind)
            + ", using '-h' to print help"@,
        OptionError::PathNotFound { kind, source } => "Error: "@ + source_label_text(kind, source)
            + ": "@ + missing_path_text(kind),
    }
}

fn option_flag(kind: OptionKind) -> (r: String)
    ensures
        r@ == option_flag_text(kind),
{
    match kind {
        OptionKind::Bin => String::from_str("<--bin/-b>"),
        OptionKind::Wdir => String::from_str("<--wdir/-w>"),
        OptionKind::Cdir => String::from_str("<--cdir/-c>"),
    }
}

fn missing_path(kind: OptionKind) -> (r: String)
    ensures
        r@ == missing_path_text(kind),
{
    match kind {
        OptionKind::Bin => String::from_str("sing-box program path does not exist"),
        OptionKind::Wdir => String::from_str("working directory does not exist"),
        OptionKind::Cdir => String::from_str("config directory does not exist"),
    }
}

/// Builds the message reported for a failed option resolution.
pub fn option_error_message(e: &OptionError) -> (r: String)
    ensures
        r@ == option_error_text(*e),
{
    match e {
        OptionError::Missing { kind } => {
            let mut r = String::new();
            r.append("Missing option ");
            let flag = option_flag(*kind);
            r.append(flag.as_str());
            r.append(", using '-h' to print help");
            proof {
                assert(r@ =~= option_error_text(*e));
            }
            r
        },
        OptionError::PathNotFound { kind, source } => {
            let mut r = String::new();
            r.append("Error: ");
            match source {
                OptionSource::CommandLine => {
                    let flag = option_flag(*kind);
                    r.append(flag.as_str());
                },
                OptionSource::ConfigFile => {
                    r.append("<config.toml>");
                },
            }
            r.append(": ");
            let what = missing_path(*kind);
            r.append(what.as_str());
            proof {
                assert(r@ =~= option_error_text(*e));
            }
            r
        },
    }
}

/// The process exit status used for every fatal option error; the
/// surrounding binary keeps the single status the existing interface
/// exposes.
pub fn option_error_exit_code(e: &OptionError) -> (r: i32)
    ensures
        r == -1i32,
{
    -1
}

} // verus!
