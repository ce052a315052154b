//! The daemon's PID file: where it is, what it holds, and what to do about
//! one that is already there.

use vstd::prelude::*;

use crate::config::paths::{join_path, path_join, runtime_dir_spec, Paths};
use crate::config::validation::path_exists;
use crate::text::{chars_of, dec, opt_text, parse_unsigned, parse_unsigned_chars, string_from_chars, trim, trim_str, u64_to_string};

verus! {

/// What can go wrong with the PID file.
#[derive(Debug)]
pub enum PidError {
    AlreadyRunning { pid: u32 },
    Io(String),
    Parse(String),
    ProcessCheck(String),
}

/// The daemon's PID file.
#[derive(Debug)]
pub struct PidFile {
    path: String,
    acquired: bool,
}

/// What to do about a PID file found in place.
#[derive(Debug, Clone, Copy, PartialEq, Eq, Structural)]
pub enum ExistingPidFile {
    /// Its daemon still runs: refuse to start.
    AlreadyRunning(u32),
    /// It is stale or unreadable: remove it.
    Remove,
}

/// The PID written in a PID file's text: the trimmed text as a `u32`.
pub open spec fn pid_of(contents: Seq<char>) -> Option<u32> {
    match parse_unsigned(trim(contents), 0xffff_ffff) {
        Some(n) => Some(n as u32),
        None => None,
    }
}

/// Reads the PID in a PID file's text; the error holds the trimmed text.
pub fn parse_pid(contents: &str) -> (r: Result<u32, PidError>)
    ensures
        match pid_of(contents@) {
            Some(p) => r matches Ok(q) && q == p,
            None => r matches Err(PidError::Parse(t)) && t@ == trim(contents@),
        },
{
    let t = trim_str(contents);
    match parse_unsigned_chars(t.as_slice(), 0xffff_ffff) {
        Some(n) => Ok(n as u32),
        None => Err(PidError::Parse(string_from_chars(t.as_slice()))),
    }
}

/// The `/proc` entry of a process: `/proc/` and the PID in decimal.
pub open spec fn proc_path_spec(pid: u32) -> Seq<char> {
    "/proc/"@ + dec(pid as nat)
}

/// The `/proc` entry of the process with this PID.
pub fn proc_path(pid: u32) -> (r: String)
    ensures
        r@ == proc_path_spec(pid),
{
    let id = u64_to_string(pid as u64);
    let mut p = "/proc/".to_string();
    p.append(id.as_str());
    p
}

/// Whether a PID file is stale, given what reading it gave and whether its
/// process runs.
pub open spec fn stale_spec(read: Result<u32, PidError>, running: bool) -> Result<bool, PidError> {
    match read {
        Ok(_) => Ok(!running),
        Err(e) => Err(e),
    }
}

/// Whether a PID file is stale: a file naming a process that does not run
/// is; a read error is passed on.
pub fn stale_from(read: Result<u32, PidError>, running: bool) -> (r: Result<bool, PidError>)
    ensures
        r == stale_spec(read, running),
{
    match read {
        Ok(_) => Ok(!running),
        Err(e) => Err(e),
    }
}

impl PidFile {
    pub closed spec fn path_spec(self) -> Seq<char> {
        self.path@
    }

    pub closed spec fn acquired_spec(self) -> bool {
        self.acquired
    }

    /// The PID file `palingenesis.pid` in the runtime directory of `paths`
    /// (`PALINGENESIS_RUNTIME` when set, see [`runtime_dir_spec`]), not
    /// acquired. Nothing is read or written.
    pub fn new(paths: &Paths) -> (r: Self)
        ensures
            !r.acquired_spec(),
            exists|root: Option<Seq<char>>, uid: u32|
                r.path_spec() == path_join(#[trigger] runtime_dir_spec(opt_text(paths.runtime_env), root, uid),
                    "palingenesis.pid"@),
    {
        let dir = paths.runtime_dir();
        PidFile { path: join_path(dir.as_str(), "palingenesis.pid"), acquired: false }
    }

    /// The PID file at `path`, not acquired.
    pub fn with_path(path: String) -> (r: Self)
        ensures
            !r.acquired_spec(),
            r.path_spec() == path@,
    {
        PidFile { path, acquired: false }
    }

    /// The PID file's path.
    pub fn path(&self) -> (r: &str)
        ensures
            r@ == self.path_spec(),
    {
        self.path.as_str()
    }

    /// Whether a process with this PID runs: whether [`proc_path`] of it
    /// exists. The answer depends on the machine at the time of the call,
    /// so only that the check succeeds is stated.
    pub fn is_process_running(pid: u32) -> (r: Result<bool, PidError>)
        ensures
            r is Ok,
    {
        let p = proc_path(pid);
        Ok(path_exists(p.as_str()))
    }

    /// What to do about a PID file found in place, given what reading it
    /// gave and whether its process runs: a running daemon's file is kept
    /// and starting is refused; any other file is removed.
    pub fn existing_action(read: &Result<u32, PidError>, running: bool) -> (r: ExistingPidFile)
        ensures
            match read {
                Ok(pid) => r == if running { ExistingPidFile::AlreadyRunning(*pid) } else { ExistingPidFile::Remove },
                Err(_) => r == ExistingPidFile::Remove,
            },
    {
        match read {
            Ok(pid) => if running { ExistingPidFile::AlreadyRunning(*pid) } else { ExistingPidFile::Remove },
            Err(_) => ExistingPidFile::Remove,
        }
    }

    /// Whether the PID file is stale, given what reading it gave: stale
    /// when its process does not run (see [`stale_from`]); a read error is
    /// passed on. Whether the process runs is asked of the machine.
    pub fn check_stale(&self, read: Result<u32, PidError>) -> (r: Result<bool, PidError>)
        ensures
            exists|running: bool| r == #[trigger] stale_spec(read, running),
    {
        let running = match &read {
            Ok(pid) => match Self::is_process_running(*pid) {
                Ok(b) => b,
                Err(e) => return Err(e),
            },
            Err(_) => false,
        };
        stale_from(read, running)
    }

    /// Records that this process now holds the PID file.
    pub fn mark_acquired(&mut self)
        ensures
            final(self).acquired_spec(),
            final(self).path_spec() == old(self).path_spec(),
    {
        self.acquired = true;
    }

    /// Gives the PID file up: returns whether the file is to be removed
    /// (only when this process held it); afterwards it is not held.
    pub fn release(&mut self) -> (r: bool)
        ensures
            r == old(self).acquired_spec(),
            !final(self).acquired_spec(),
            final(self).path_spec() == old(self).path_spec(),
    {
        let was = self.acquired;
        self.acquired = false;
        was
    }

    /// The text written into the PID file for process `pid`.
    pub fn contents_for(pid: u32) -> (r: String)
        ensures
            r@ == dec(pid as nat),
    {
        u64_to_string(pid as u64)
    }
}

/// Writing a PID and reading it back gives the same PID.
pub proof fn lemma_pid_round_trip(pid: u32)
    ensures
        pid_of(dec(pid as nat)) == Some(pid),
{
    crate::text::lemma_dec_parse(pid as nat, 0xffff_ffff);
}

} // verus!
