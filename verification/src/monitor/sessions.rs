//! The sessions known from watch events, and what each event reports.

use vstd::prelude::*;

use crate::config::schema::{clone_opt_string, clone_strings};
use crate::monitor::session::{Session, SessionState, StepValue};
use crate::monitor::watcher::WatchEvent;
use crate::text::{chars_eq, chars_of};

verus! {

fn clone_step(s: &StepValue) -> (r: StepValue)
    ensures
        r == *s,
{
    match s {
        StepValue::Integer(i) => StepValue::Integer(*i),
        StepValue::String(t) => StepValue::String(t.clone()),
    }
}

fn clone_steps(v: &Vec<StepValue>) -> (r: Vec<StepValue>)
    ensures
        r@ == v@,
{
    let mut out: Vec<StepValue> = Vec::new();
    let mut i: usize = 0;
    while i < v.len()
        invariant
            i <= v@.len(),
            out@ == v@.take(i as int),
        decreases v@.len() - i,
    {
        out.push(clone_step(&v[i]));
        proof { assert(v@.take(i as int + 1) =~= v@.take(i as int).push(v@[i as int])); }
        i = i + 1;
    }
    proof { assert(v@.take(v@.len() as int) =~= v@); }
    out
}

/// Two session states record the same things.
pub open spec fn same_state(a: SessionState, b: SessionState) -> bool {
    &&& a.steps_completed@ == b.steps_completed@
    &&& a.last_step == b.last_step
    &&& a.status == b.status
    &&& a.workflow_type == b.workflow_type
    &&& a.project_name == b.project_name
    &&& a.input_documents@ == b.input_documents@
}

/// Two sessions are of the same file and record the same things.
pub open spec fn same_session(a: Session, b: Session) -> bool {
    a.path == b.path && same_state(a.state, b.state)
}

/// A copy of a session state.
pub fn clone_state(s: &SessionState) -> (r: SessionState)
    ensures
        same_state(r, *s),
{
    SessionState {
        steps_completed: clone_steps(&s.steps_completed),
        last_step: s.last_step,
        status: clone_opt_string(&s.status),
        workflow_type: clone_opt_string(&s.workflow_type),
        project_name: clone_opt_string(&s.project_name),
        input_documents: clone_strings(&s.input_documents),
    }
}

/// A copy of a session.
pub fn clone_session(s: &Session) -> (r: Session)
    ensures
        same_session(r, *s),
{
    Session { path: s.path.clone(), state: clone_state(&s.state) }
}

/// What the monitor reports.
#[derive(Debug)]
pub enum MonitorEvent {
    /// A session file was parsed; `previous` is what was known of it before.
    SessionChanged { session: Session, previous: Option<Session> },
    /// An assistant process started.
    ProcessStarted { info: crate::monitor::process::ProcessInfo },
    /// An assistant process stopped.
    ProcessStopped { info: crate::monitor::process::ProcessInfo, exit_code: Option<i32> },
    /// A session stopped, with why (the classification's reason).
    SessionStopped {
        session: Option<Session>,
        classification: crate::monitor::classifier::ClassificationResult,
        process_info: Option<crate::monitor::process::ProcessInfo>,
    },
    /// Something went wrong.
    Error { source: String, message: String, recoverable: bool },
}

/// The sessions by path, the later entry winning.
pub open spec fn session_map(entries: Seq<Session>) -> Map<Seq<char>, Session>
    decreases entries.len(),
{
    if entries.len() == 0 {
        Map::empty()
    } else {
        session_map(entries.drop_last()).insert(entries.last().path@, entries.last())
    }
}

pub open spec fn paths_unique(entries: Seq<Session>) -> bool {
    forall|i: int, j: int| 0 <= i < j < entries.len() ==> entries[i].path@ != entries[j].path@
}

proof fn lemma_session_map_domain(entries: Seq<Session>)
    ensures
        forall|k: Seq<char>| #[trigger] session_map(entries).dom().contains(k)
            <==> exists|i: int| 0 <= i < entries.len() && entries[i].path@ == k,
    decreases entries.len(),
{
    if entries.len() > 0 {
        lemma_session_map_domain(entries.drop_last());
        let t = entries.drop_last();
        assert forall|k: Seq<char>| #[trigger] session_map(entries).dom().contains(k)
            <==> exists|i: int| 0 <= i < entries.len() && entries[i].path@ == k by {
            if session_map(entries).dom().contains(k) && k != entries.last().path@ {
                assert(session_map(t).dom().contains(k));
                let i = choose|i: int| 0 <= i < t.len() && t[i].path@ == k;
                assert(t[i] == entries[i]);
                assert(entries[i].path@ == k);
            }
            if session_map(entries).dom().contains(k) && k == entries.last().path@ {
                assert(entries[entries.len() - 1].path@ == k);
            }
            if exists|i: int| 0 <= i < entries.len() && entries[i].path@ == k {
                let i = choose|i: int| 0 <= i < entries.len() && entries[i].path@ == k;
                if i < entries.len() - 1 {
                    assert(t[i].path@ == k);
                    assert(session_map(t).dom().contains(k));
                }
            }
        }
    }
}

proof fn lemma_session_map_at(entries: Seq<Session>, i: int)
    requires
        paths_unique(entries),
        0 <= i < entries.len(),
    ensures
        session_map(entries).dom().contains(entries[i].path@),
        session_map(entries)[entries[i].path@] == entries[i],
    decreases entries.len(),
{
    if i < entries.len() - 1 {
        let t = entries.drop_last();
        assert(t[i] == entries[i]);
        lemma_session_map_at(t, i);
        assert(entries[i].path@ != entries.last().path@);
    }
}

proof fn lemma_session_map_remove(entries: Seq<Session>, i: int)
    requires
        paths_unique(entries),
        0 <= i < entries.len(),
    ensures
        paths_unique(entries.remove(i)),
        session_map(entries.remove(i)) == session_map(entries).remove(entries[i].path@),
    decreases entries.len(),
{
    let k = entries[i].path@;
    let t = entries.drop_last();
    assert(paths_unique(t));
    if i == entries.len() - 1 {
        assert(entries.remove(i) =~= t);
        lemma_session_map_domain(t);
        assert(!session_map(t).dom().contains(k)) by {
            if session_map(t).dom().contains(k) {
                let j = choose|j: int| 0 <= j < t.len() && t[j].path@ == k;
                assert(entries[j].path@ == entries[i].path@);
            }
        }
        assert(session_map(entries).remove(k) =~= session_map(t));
    } else {
        lemma_session_map_remove(t, i);
        assert(entries.remove(i) =~= t.remove(i).push(entries.last()));
        assert(entries.remove(i).drop_last() =~= t.remove(i));
        assert(entries.last().path@ != k);
        assert(session_map(entries.remove(i)) =~= session_map(entries).remove(k));
        assert forall|a: int, b: int| 0 <= a < b < entries.remove(i).len() implies
            entries.remove(i)[a].path@ != entries.remove(i)[b].path@ by {
            let ia = if a < i { a } else { a + 1 };
            let ib = if b < i { b } else { b + 1 };
            assert(entries.remove(i)[a] == entries[ia]);
            assert(entries.remove(i)[b] == entries[ib]);
        }
    }
}

/// The sessions parsed from watch events, one per file.
#[derive(Debug)]
pub struct SessionParser {
    sessions: Vec<Session>,
}

impl SessionParser {
    /// The sessions known, by path.
    pub closed spec fn sessions(self) -> Map<Seq<char>, Session> {
        session_map(self.sessions@)
    }

    pub closed spec fn well_formed(self) -> bool {
        paths_unique(self.sessions@)
    }

    /// No session known.
    pub fn new() -> (r: Self)
        ensures
            r.well_formed(),
            r.sessions() == Map::<Seq<char>, Session>::empty(),
    {
        SessionParser { sessions: Vec::new() }
    }

    fn position(&self, path: &str) -> (r: Option<usize>)
        requires
            self.well_formed(),
        ensures
            match r {
                Some(i) => i < self.sessions@.len() && self.sessions@[i as int].path@ == path@,
                None => !self.sessions().dom().contains(path@),
            },
    {
        let b = chars_of(path);
        let n = self.sessions.len();
        let mut i: usize = 0;
        while i < n
            invariant
                n == self.sessions@.len(),
                i <= n,
                b@ == path@,
                forall|j: int| 0 <= j < i ==> self.sessions@[j].path@ != path@,
            decreases n - i,
        {
            let a = chars_of(self.sessions[i].path.as_str());
            if chars_eq(a.as_slice(), b.as_slice()) {
                return Some(i);
            }
            i = i + 1;
        }
        proof {
            lemma_session_map_domain(self.sessions@);
            if self.sessions().dom().contains(path@) {
                let j = choose|j: int| 0 <= j < self.sessions@.len() && self.sessions@[j].path@ == path@;
                assert(self.sessions@[j].path@ != path@);
            }
        }
        None
    }

    /// Records `session` for its path; returns what was known of that path.
    pub fn insert(&mut self, session: Session) -> (r: Option<Session>)
        requires
            old(self).well_formed(),
        ensures
            final(self).well_formed(),
            final(self).sessions() == old(self).sessions().insert(session.path@, session),
            r == if old(self).sessions().dom().contains(session.path@) {
                Some(old(self).sessions()[session.path@])
            } else {
                None::<Session>
            },
    {
        let previous = match self.position(session.path.as_str()) {
            Some(i) => {
                proof {
                    lemma_session_map_at(self.sessions@, i as int);
                    lemma_session_map_remove(self.sessions@, i as int);
                }
                Some(self.sessions.remove(i))
            },
            None => None,
        };
        let ghost before = self.sessions@;
        proof {
            lemma_session_map_domain(before);
            assert(!session_map(before).dom().contains(session.path@));
        }
        self.sessions.push(session);
        proof {
            assert(self.sessions@.drop_last() =~= before);
            assert forall|a: int, b: int| 0 <= a < b < self.sessions@.len() implies
                self.sessions@[a].path@ != self.sessions@[b].path@ by {
                if b == self.sessions@.len() - 1 {
                    assert(session_map(before).dom().contains(before[a].path@));
                }
            }
            assert(self.sessions() =~= old(self).sessions().insert(session.path@, session));
        }
        previous
    }

    /// Forgets the session of `path`.
    pub fn remove(&mut self, path: &str)
        requires
            old(self).well_formed(),
        ensures
            final(self).well_formed(),
            final(self).sessions() == old(self).sessions().remove(path@),
    {
        match self.position(path) {
            Some(i) => {
                proof { lemma_session_map_remove(self.sessions@, i as int); }
                let _ = self.sessions.remove(i);
            },
            None => {
                proof { assert(old(self).sessions().remove(path@) =~= old(self).sessions()); }
            },
        }
    }

    /// Handles a watch event; `parsed` is, for a created or modified file,
    /// what parsing it gave (its state, or why it could not be parsed).
    /// A parsed file is recorded and reported with what was known of it
    /// before; a parse failure or a watcher error is reported as a
    /// recoverable error; a deleted file is forgotten.
    pub fn handle_event(&mut self, event: WatchEvent, parsed: Option<Result<SessionState, String>>)
        -> (r: Option<MonitorEvent>)
        requires
            old(self).well_formed(),
            (event is FileCreated || event is FileModified) ==> parsed is Some,
        ensures
            final(self).well_formed(),
            match event {
                WatchEvent::FileCreated(path) | WatchEvent::FileModified(path) => match parsed {
                    Some(Ok(state)) => {
                        &&& final(self).sessions().dom() == old(self).sessions().dom().insert(path@)
                        &&& final(self).sessions().remove(path@) == old(self).sessions().remove(path@)
                        &&& same_session(final(self).sessions()[path@], Session { path, state })
                        &&& r matches Some(MonitorEvent::SessionChanged { session, previous })
                            && session == (Session { path, state })
                            && previous == if old(self).sessions().dom().contains(path@) {
                                Some(old(self).sessions()[path@])
                            } else {
                                None::<Session>
                            }
                    },
                    Some(Err(message)) => final(self).sessions() == old(self).sessions()
                        && r == Some(MonitorEvent::Error { source: r->0->source, message, recoverable: true })
                        && r->0->source@ == "session_parser"@,
                    None => false,
                },
                WatchEvent::FileDeleted(path) => final(self).sessions() == old(self).sessions().remove(path@)
                    && r is None,
                WatchEvent::DirectoryCreated(_) => final(self).sessions() == old(self).sessions() && r is None,
                WatchEvent::Error(message) => final(self).sessions() == old(self).sessions()
                    && r == Some(MonitorEvent::Error { source: r->0->source, message, recoverable: true })
                    && r->0->source@ == "watcher"@,
            },
    {
        match event {
            WatchEvent::FileCreated(path) | WatchEvent::FileModified(path) => match parsed {
                Some(Ok(state)) => {
                    let session = Session { path, state };
                    let stored = clone_session(&session);
                    let previous = self.insert(stored);
                    proof {
                        assert(final(self).sessions().remove(session.path@)
                            =~= old(self).sessions().remove(session.path@));
                    }
                    Some(MonitorEvent::SessionChanged { session, previous })
                },
                Some(Err(message)) => Some(MonitorEvent::Error {
                    source: "session_parser".to_string(),
                    message,
                    recoverable: true,
                }),
                None => None,
            },
            WatchEvent::FileDeleted(path) => {
                self.remove(path.as_str());
                None
            },
            WatchEvent::DirectoryCreated(_) => None,
            WatchEvent::Error(message) => Some(MonitorEvent::Error {
                source: "watcher".to_string(),
                message,
                recoverable: true,
            }),
        }
    }
}

} // verus!
