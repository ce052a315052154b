//! Which AI assistants are present on this machine.
//!
//! What the file system and the process table say of an assistant is
//! gathered by the caller into [`DetectionFacts`]; deciding from those facts
//! is done here.

use vstd::prelude::*;

use crate::config::paths::{join_path, path_join};
use crate::text::{chars_eq_str, chars_of, opt_text};

verus! {

/// An assistant this library knows how to look for.
#[derive(Debug, Clone)]
pub struct AssistantDefinition {
    pub name: String,
    pub session_dir: String,
    pub process_name: Option<String>,
}

/// How an assistant was found.
#[derive(Debug, Clone, Copy, PartialEq, Eq, Structural)]
pub enum DetectionMethod {
    Directory,
    Process,
    SessionFile,
}

impl DetectionMethod {
    /// The method's name.
    pub fn as_str(self) -> (r: &'static str)
        ensures
            r@ == match self {
                DetectionMethod::Directory => "directory"@,
                DetectionMethod::Process => "process"@,
                DetectionMethod::SessionFile => "session-file"@,
            },
    {
        match self {
            DetectionMethod::Directory => "directory",
            DetectionMethod::Process => "process",
            DetectionMethod::SessionFile => "session-file",
        }
    }
}

/// A detected assistant.
#[derive(Debug)]
pub struct DetectedAssistant {
    pub name: String,
    pub session_dir: String,
    pub detected_by: DetectionMethod,
    /// It has session files or a running process.
    pub active: bool,
}

/// All detected assistants.
#[derive(Debug)]
pub struct DetectionResult {
    pub assistants: Vec<DetectedAssistant>,
}

/// What was observed of an assistant.
#[derive(Debug, Clone, Copy)]
pub struct DetectionFacts {
    /// Its session directory, searched recursively, holds a session artifact.
    pub has_session_files: bool,
    /// Its session directory exists.
    pub dir_exists: bool,
    /// A process with its process name is running (false when it has none).
    pub process_running: bool,
}

/// The assistants looked for, given the home directory (`.` when unknown).
pub fn known_assistants(home_dir: &str) -> (r: Vec<AssistantDefinition>)
    ensures
        r@.len() == 1,
        r@[0].name@ == "opencode"@,
        r@[0].session_dir@ == path_join(home_dir@, ".opencode"@),
        opt_text(r@[0].process_name) == Some("opencode"@),
{
    let mut v: Vec<AssistantDefinition> = Vec::new();
    v.push(AssistantDefinition {
        name: "opencode".to_string(),
        session_dir: join_path(home_dir, ".opencode"),
        process_name: Some("opencode".to_string()),
    });
    v
}

/// How an assistant is detected from what was observed: by its session
/// files first, then by its running process, then by its directory; not at
/// all when none of them is there.
pub open spec fn detection_spec(f: DetectionFacts) -> Option<(DetectionMethod, bool)> {
    if !(f.has_session_files || f.dir_exists || f.process_running) {
        None
    } else {
        let method = if f.has_session_files {
            DetectionMethod::SessionFile
        } else if f.process_running {
            DetectionMethod::Process
        } else {
            DetectionMethod::Directory
        };
        Some((method, f.has_session_files || f.process_running))
    }
}

/// Detects one assistant from what was observed of it.
pub fn detect_assistant(definition: &AssistantDefinition, facts: DetectionFacts) -> (r: Option<DetectedAssistant>)
    ensures
        match detection_spec(facts) {
            None => r is None,
            Some((m, active)) => r matches Some(d) && d.name@ == definition.name@
                && d.session_dir@ == definition.session_dir@ && d.detected_by == m && d.active == active,
        },
{
    if !(facts.has_session_files || facts.dir_exists || facts.process_running) {
        return None;
    }
    let detected_by = if facts.has_session_files {
        DetectionMethod::SessionFile
    } else if facts.process_running {
        DetectionMethod::Process
    } else {
        DetectionMethod::Directory
    };
    Some(DetectedAssistant {
        name: definition.name.clone(),
        session_dir: definition.session_dir.clone(),
        detected_by,
        active: facts.has_session_files || facts.process_running,
    })
}

/// The names of the assistants detected among `observed`, in order.
pub open spec fn detected_names(observed: Seq<(AssistantDefinition, DetectionFacts)>) -> Seq<Seq<char>>
    decreases observed.len(),
{
    if observed.len() == 0 {
        seq![]
    } else {
        let rest = detected_names(observed.drop_last());
        if detection_spec(observed.last().1) is Some {
            rest.push(observed.last().0.name@)
        } else {
            rest
        }
    }
}

/// A detected assistant as plain values: name, session directory, how it
/// was detected, whether it is active.
pub open spec fn detected_view(d: DetectedAssistant) -> (Seq<char>, Seq<char>, DetectionMethod, bool) {
    (d.name@, d.session_dir@, d.detected_by, d.active)
}

/// The assistants detected among `observed`, in order, each as
/// [`detect_assistant`] gives it.
pub open spec fn detected_list(observed: Seq<(AssistantDefinition, DetectionFacts)>)
    -> Seq<(Seq<char>, Seq<char>, DetectionMethod, bool)>
    decreases observed.len(),
{
    if observed.len() == 0 {
        seq![]
    } else {
        let rest = detected_list(observed.drop_last());
        let (def, facts) = observed.last();
        match detection_spec(facts) {
            Some((m, active)) => rest.push((def.name@, def.session_dir@, m, active)),
            None => rest,
        }
    }
}

pub open spec fn assistant_names(v: Seq<DetectedAssistant>) -> Seq<Seq<char>> {
    v.map_values(|d: DetectedAssistant| d.name@)
}

/// Detects every observed assistant, keeping their order.
pub fn detect_assistants(observed: &Vec<(AssistantDefinition, DetectionFacts)>) -> (r: DetectionResult)
    ensures
        assistant_names(r.assistants@) == detected_names(observed@),
        r.assistants@.map_values(|d: DetectedAssistant| detected_view(d)) == detected_list(observed@),
{
    let n = observed.len();
    let mut out: Vec<DetectedAssistant> = Vec::new();
    let mut i: usize = 0;
    while i < n
        invariant
            n == observed@.len(),
            i <= n,
            assistant_names(out@) == detected_names(observed@.take(i as int)),
            out@.map_values(|d: DetectedAssistant| detected_view(d)) == detected_list(observed@.take(i as int)),
        decreases n - i,
    {
        proof {
            assert(observed@.take(i as int + 1).drop_last() =~= observed@.take(i as int));
            assert(observed@.take(i as int + 1).last() == observed@[i as int]);
        }
        let ghost before = assistant_names(out@);
        let ghost before_v = out@.map_values(|d: DetectedAssistant| detected_view(d));
        match detect_assistant(&observed[i].0, observed[i].1) {
            Some(d) => {
                let ghost dv = detected_view(d);
                out.push(d);
                proof {
                    assert(assistant_names(out@) =~= before.push(observed@[i as int].0.name@));
                    assert(out@.map_values(|d: DetectedAssistant| detected_view(d)) =~= before_v.push(dv));
                }
            },
            None => {},
        }
        i = i + 1;
    }
    proof { assert(observed@.take(n as int) =~= observed@); }
    DetectionResult { assistants: out }
}

/// `Path::extension` of a path text, by name: the part of the file name
/// after its last `.`, unless the name starts with its only `.`.
pub uninterp spec fn std_path_extension(p: Seq<char>) -> Option<Seq<char>>;

/// Calls `std::path::Path::extension`, as text.
#[verifier::external_body]
fn path_extension(p: &str) -> (r: Option<String>)
    ensures
        opt_text(r) == std_path_extension(p@),
{
    match std::path::Path::new(p).extension() {
        Some(e) => Some(e.to_string_lossy().into_owned()),
        None => None,
    }
}

/// Session artifacts are files with the extension `md`, `lock` or `sock`.
pub fn is_session_artifact(path: &str) -> (r: bool)
    ensures
        r == (std_path_extension(path@) == Some("md"@) || std_path_extension(path@) == Some("lock"@)
            || std_path_extension(path@) == Some("sock"@)),
{
    match path_extension(path) {
        Some(e) => {
            let c = chars_of(e.as_str());
            chars_eq_str(c.as_slice(), "md") || chars_eq_str(c.as_slice(), "lock") || chars_eq_str(c.as_slice(), "sock")
        },
        None => false,
    }
}

} // verus!
