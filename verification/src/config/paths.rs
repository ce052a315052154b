//! Path text helpers.

use vstd::prelude::*;

use crate::config::schema::{current_uid, runtime_dir_for, runtime_dir_from, user_home_dir, user_runtime_dir};
use crate::text::{chars_of, opt_text, string_from_chars};

verus! {

/// `PathBuf::join` of a relative, non-empty component `name` onto `base`
/// (Unix separators): `base` is kept, a `/` is inserted unless `base` is
/// empty or already ends with one.
pub open spec fn path_join(base: Seq<char>, name: Seq<char>) -> Seq<char> {
    if base.len() == 0 {
        name
    } else if base.last() == '/' {
        base + name
    } else {
        base + seq!['/'] + name
    }
}

/// Joins a relative component onto a directory path.
pub fn join_path(base: &str, name: &str) -> (r: String)
    ensures
        r@ == path_join(base@, name@),
{
    let b = chars_of(base);
    let n = chars_of(name);
    let mut out: Vec<char> = Vec::new();
    out.extend_from_slice(b.as_slice());
    if b.len() > 0 && b[b.len() - 1] != '/' {
        out.push('/');
    }
    out.extend_from_slice(n.as_slice());
    proof {
        if b@.len() > 0 && b@.last() != '/' {
            assert(out@ =~= b@ + seq!['/'] + n@);
        } else {
            assert(out@ =~= b@ + n@);
        }
    }
    string_from_chars(out.as_slice())
}

/// `Path::parent` of a path text, by name: what the standard library
/// computes (component-aware, so trailing separators and `.` components
/// are normalised) is not spelled out here.
pub uninterp spec fn std_path_parent(p: Seq<char>) -> Option<Seq<char>>;

/// Calls `std::path::Path::parent` and returns the parent as text.
#[verifier::external_body]
pub(crate) fn path_parent(p: &str) -> (r: Option<String>)
    ensures
        r matches Some(s) ==> std_path_parent(p@) == Some(s@),
        r is None ==> std_path_parent(p@) is None,
{
    match std::path::Path::new(p).parent() {
        Some(q) => Some(q.to_string_lossy().into_owned()),
        None => None,
    }
}

/// Why a directory of the application could not be had.
#[derive(Debug)]
pub enum PathError {
    /// The user's home directory is unknown.
    HomeNotFound,
    /// Creating the directory failed.
    CreateDirectory { path: String, message: String },
}

/// Calls `dirs::config_dir` (`$XDG_CONFIG_HOME` or `~/.config` on Linux).
/// What it returns depends on the environment, so nothing is stated of it.
#[verifier::external_body]
fn user_config_root() -> (r: Option<String>) {
    match dirs::config_dir() {
        Some(p) => Some(p.to_string_lossy().into_owned()),
        None => None,
    }
}

/// Calls `dirs::state_dir` (`$XDG_STATE_HOME` or `~/.local/state` on
/// Linux). What it returns depends on the environment, so nothing is stated
/// of it.
#[verifier::external_body]
fn user_state_root() -> (r: Option<String>) {
    match dirs::state_dir() {
        Some(p) => Some(p.to_string_lossy().into_owned()),
        None => None,
    }
}

/// The configuration directory: the directory of the configuration file
/// named by `PALINGENESIS_CONFIG` (the file itself when it has no parent),
/// else `palingenesis` under the user's configuration directory, under
/// `~/.config`, or under `.config`.
pub open spec fn config_dir_spec(config_env: Option<Seq<char>>, config_root: Option<Seq<char>>,
    home: Option<Seq<char>>) -> Seq<char> {
    match config_env {
        Some(p) => match std_path_parent(p) {
            Some(q) => if q.len() > 0 { q } else { p },
            None => p,
        },
        None => path_join(match config_root {
            Some(c) => c,
            None => match home {
                Some(h) => path_join(h, ".config"@),
                None => ".config"@,
            },
        }, "palingenesis"@),
    }
}

/// The configuration file: `PALINGENESIS_CONFIG`, else `config.toml` in the
/// configuration directory.
pub open spec fn config_file_spec(config_env: Option<Seq<char>>, config_root: Option<Seq<char>>,
    home: Option<Seq<char>>) -> Seq<char> {
    match config_env {
        Some(p) => p,
        None => path_join(config_dir_spec(None, config_root, home), "config.toml"@),
    }
}

/// The state directory: `PALINGENESIS_STATE`, else `palingenesis` under the
/// user's state directory, under `~/.local/state`, or under `.local/state`.
pub open spec fn state_dir_spec(state_env: Option<Seq<char>>, state_root: Option<Seq<char>>,
    home: Option<Seq<char>>) -> Seq<char> {
    match state_env {
        Some(p) => p,
        None => path_join(match state_root {
            Some(c) => c,
            None => match home {
                Some(h) => path_join(h, ".local/state"@),
                None => ".local/state"@,
            },
        }, "palingenesis"@),
    }
}

/// The runtime directory: `PALINGENESIS_RUNTIME`, else that of
/// [`runtime_dir_for`].
pub open spec fn runtime_dir_spec(runtime_env: Option<Seq<char>>, runtime_root: Option<Seq<char>>, uid: u32)
    -> Seq<char> {
    match runtime_env {
        Some(p) => p,
        None => runtime_dir_for(runtime_root, uid),
    }
}

/// The configuration directory from its inputs (see [`config_dir_spec`]).
pub fn config_dir_from(config_env: Option<String>, config_root: Option<String>, home: Option<String>)
    -> (r: String)
    ensures
        r@ == config_dir_spec(opt_text(config_env), opt_text(config_root), opt_text(home)),
{
    match config_env {
        Some(p) => match path_parent(p.as_str()) {
            Some(q) => if chars_of(q.as_str()).len() > 0 { q } else { p },
            None => p,
        },
        None => {
            let base = match config_root {
                Some(c) => c,
                None => match home {
                    Some(h) => join_path(h.as_str(), ".config"),
                    None => ".config".to_string(),
                },
            };
            join_path(base.as_str(), "palingenesis")
        },
    }
}

/// The configuration file from its inputs (see [`config_file_spec`]).
pub fn config_file_from(config_env: Option<String>, config_root: Option<String>, home: Option<String>)
    -> (r: String)
    ensures
        r@ == config_file_spec(opt_text(config_env), opt_text(config_root), opt_text(home)),
{
    match config_env {
        Some(p) => p,
        None => {
            let dir = config_dir_from(None, config_root, home);
            join_path(dir.as_str(), "config.toml")
        },
    }
}

/// The state directory from its inputs (see [`state_dir_spec`]).
pub fn state_dir_from(state_env: Option<String>, state_root: Option<String>, home: Option<String>)
    -> (r: String)
    ensures
        r@ == state_dir_spec(opt_text(state_env), opt_text(state_root), opt_text(home)),
{
    match state_env {
        Some(p) => p,
        None => {
            let base = match state_root {
                Some(c) => c,
                None => match home {
                    Some(h) => join_path(h.as_str(), ".local/state"),
                    None => ".local/state".to_string(),
                },
            };
            join_path(base.as_str(), "palingenesis")
        },
    }
}

/// Where the application keeps its files, given the overrides read from
/// `PALINGENESIS_CONFIG`, `PALINGENESIS_STATE` and `PALINGENESIS_RUNTIME`.
#[derive(Debug, Clone)]
pub struct Paths {
    pub config_env: Option<String>,
    pub state_env: Option<String>,
    pub runtime_env: Option<String>,
}

impl Paths {
    /// The paths under these overrides.
    pub fn new(config_env: Option<String>, state_env: Option<String>, runtime_env: Option<String>) -> (r: Self)
        ensures
            r.config_env == config_env,
            r.state_env == state_env,
            r.runtime_env == runtime_env,
    {
        Paths { config_env, state_env, runtime_env }
    }

    /// The configuration directory (see [`config_dir_spec`]); the user's
    /// directories are looked up.
    pub fn config_dir(&self) -> (r: String)
        ensures
            exists|root: Option<Seq<char>>, home: Option<Seq<char>>|
                r@ == #[trigger] config_dir_spec(opt_text(self.config_env), root, home),
    {
        let root = user_config_root();
        let home = user_home_dir();
        let ghost (rv, hv) = (opt_text(root), opt_text(home));
        let r = config_dir_from(self.config_env.clone(), root, home);
        proof { assert(r@ == config_dir_spec(opt_text(self.config_env), rv, hv)); }
        r
    }

    /// The configuration file (see [`config_file_spec`]).
    pub fn config_file(&self) -> (r: String)
        ensures
            exists|root: Option<Seq<char>>, home: Option<Seq<char>>|
                r@ == #[trigger] config_file_spec(opt_text(self.config_env), root, home),
    {
        let root = user_config_root();
        let home = user_home_dir();
        let ghost (rv, hv) = (opt_text(root), opt_text(home));
        let r = config_file_from(self.config_env.clone(), root, home);
        proof { assert(r@ == config_file_spec(opt_text(self.config_env), rv, hv)); }
        r
    }

    /// The state directory (see [`state_dir_spec`]).
    pub fn state_dir(&self) -> (r: String)
        ensures
            exists|root: Option<Seq<char>>, home: Option<Seq<char>>|
                r@ == #[trigger] state_dir_spec(opt_text(self.state_env), root, home),
    {
        let root = user_state_root();
        let home = user_home_dir();
        let ghost (rv, hv) = (opt_text(root), opt_text(home));
        let r = state_dir_from(self.state_env.clone(), root, home);
        proof { assert(r@ == state_dir_spec(opt_text(self.state_env), rv, hv)); }
        r
    }

    /// The runtime directory (see [`runtime_dir_spec`]).
    pub fn runtime_dir(&self) -> (r: String)
        ensures
            exists|root: Option<Seq<char>>, uid: u32|
                r@ == #[trigger] runtime_dir_spec(opt_text(self.runtime_env), root, uid),
    {
        match &self.runtime_env {
            Some(p) => {
                let r = p.clone();
                proof { assert(r@ == runtime_dir_spec(opt_text(self.runtime_env), None, 0u32)); }
                r
            },
            None => {
                let root = user_runtime_dir();
                let uid = current_uid();
                let ghost rv = opt_text(root);
                let r = runtime_dir_from(root, uid);
                proof { assert(r@ == runtime_dir_spec(opt_text(self.runtime_env), rv, uid)); }
                r
            },
        }
    }
}

} // verus!
