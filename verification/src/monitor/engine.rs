//! The monitor's decisions: which session is current, what each watch or
//! process event reports, and how a stop is classified.

use vstd::prelude::*;

use crate::monitor::classifier::{classify_spec, config_compiles, result_view, ClassifierConfig, ClassifierError, Reason,
    StopReasonClassifier};
use crate::monitor::process::{ProcessEvent, ProcessInfo};
use crate::monitor::session::{tail_text, Session, SessionState};
use crate::monitor::sessions::{clone_session, same_session, MonitorEvent, SessionParser};
use crate::monitor::watcher::WatchEvent;
use crate::text::{chars_eq, chars_of};

verus! {

/// How handing an event to the event channel went.
#[derive(Debug, Clone, Copy, PartialEq, Eq, Structural)]
pub enum SendOutcome {
    Sent,
    /// The channel was full; the event was dropped.
    Full,
    /// The channel is closed.
    Closed,
}

/// The classification of a stop: from the session file's text (or why it
/// could not be read) and the state its frontmatter records when there is a
/// current session, else from no text at all.
pub open spec fn stop_view(c: StopReasonClassifier, has_session: bool, text: Result<Seq<char>, Seq<char>>,
    state: Option<SessionState>, exit_code: Option<i32>) -> (Reason, nat, Seq<Seq<char>>) {
    if has_session {
        match text {
            Ok(t) => classify_spec(c.rate_sources(), c.context_sources(), c.user_exit_sources(), c.cfg(),
                tail_text(t, c.cfg().max_lines as nat), state, exit_code),
            Err(e) => (Reason::Unknown("Read error: "@ + e), 0nat, seq!["error: "@ + e]),
        }
    } else {
        classify_spec(c.rate_sources(), c.context_sources(), c.user_exit_sources(), c.cfg(), ""@, None, exit_code)
    }
}

pub open spec fn text_of(r: Result<&str, &str>) -> Result<Seq<char>, Seq<char>> {
    match r {
        Ok(t) => Ok(t@),
        Err(e) => Err(e@),
    }
}

/// Watches sessions and processes and reports what happens to them.
pub struct Monitor {
    classifier: StopReasonClassifier,
    parser: SessionParser,
    current_session: Option<Session>,
    errors_count: u64,
    dropped_events: u64,
}

impl Monitor {
    pub closed spec fn classifier_spec(self) -> StopReasonClassifier {
        self.classifier
    }

    pub closed spec fn sessions(self) -> Map<Seq<char>, Session> {
        self.parser.sessions()
    }

    pub closed spec fn current(self) -> Option<Session> {
        self.current_session
    }

    pub closed spec fn errors(self) -> u64 {
        self.errors_count
    }

    pub closed spec fn dropped(self) -> u64 {
        self.dropped_events
    }

    pub closed spec fn well_formed(self) -> bool {
        self.parser.well_formed()
    }

    /// A monitor classifying with `config`; no session known yet. Fails,
    /// as building its classifier does, when a pattern does not compile.
    pub fn with_config(config: ClassifierConfig) -> (r: Result<Self, ClassifierError>)
        ensures
            r is Ok <==> config_compiles(config),
            r matches Ok(m) ==> m.well_formed() && m.current() is None && m.errors() == 0 && m.dropped() == 0
                && m.sessions() == Map::<Seq<char>, Session>::empty() && m.classifier_spec().cfg() == config,
    {
        let classifier = match StopReasonClassifier::with_config(config) {
            Ok(c) => c,
            Err(e) => return Err(e),
        };
        Ok(Monitor {
            classifier,
            parser: SessionParser::new(),
            current_session: None,
            errors_count: 0,
            dropped_events: 0,
        })
    }

    /// Handles a watch event (see [`SessionParser::handle_event`] for
    /// `parsed`); returns the event to report, if any. The current session
    /// is dropped when its file is deleted and becomes the session just
    /// parsed; recoverable errors are counted.
    pub fn handle_watch_event(&mut self, event: WatchEvent, parsed: Option<Result<SessionState, String>>)
        -> (r: Option<MonitorEvent>)
        requires
            old(self).well_formed(),
            (event is FileCreated || event is FileModified) ==> parsed is Some,
        ensures
            final(self).well_formed(),
            final(self).classifier_spec() == old(self).classifier_spec(),
            final(self).dropped() == old(self).dropped(),
            r matches Some(MonitorEvent::SessionChanged { session, .. }) ==> final(self).current() matches Some(c)
                && same_session(c, session),
            !(r matches Some(MonitorEvent::SessionChanged { .. })) ==> final(self).current() == if event matches
                WatchEvent::FileDeleted(p) && old(self).current() matches Some(c) && c.path@ == p@ {
                None::<Session>
            } else {
                old(self).current()
            },
            final(self).errors() == if r matches Some(MonitorEvent::Error { recoverable: true, .. }) {
                old(self).errors().wrapping_add(1)
            } else {
                old(self).errors()
            },
            event is FileDeleted ==> r is None,
            event is DirectoryCreated ==> r is None,
            event is Error ==> r matches Some(MonitorEvent::Error { recoverable: true, .. }),
            (event is FileCreated || event is FileModified) ==> (parsed matches Some(Ok(_))
                <==> r matches Some(MonitorEvent::SessionChanged { .. })),
    {
        match &event {
            WatchEvent::FileDeleted(path) => {
                let clear = match &self.current_session {
                    Some(s) => {
                        let a = chars_of(s.path.as_str());
                        let b = chars_of(path.as_str());
                        chars_eq(a.as_slice(), b.as_slice())
                    },
                    None => false,
                };
                if clear {
                    self.current_session = None;
                }
            },
            _ => {},
        }
        let out = self.parser.handle_event(event, parsed);
        match &out {
            Some(MonitorEvent::SessionChanged { session, .. }) => {
                self.current_session = Some(clone_session(session));
            },
            Some(MonitorEvent::Error { recoverable, .. }) => {
                if *recoverable {
                    self.errors_count = self.errors_count.wrapping_add(1);
                }
            },
            _ => {},
        }
        out
    }

    /// Handles a process event; returns the events to report, in order. A
    /// start is reported as such; a stop is reported, then the session stop
    /// with its classification. `session_text` is the current session's
    /// file as read (or why it could not be), and `session_state` the state
    /// its frontmatter records; both are ignored without a current session.
    pub fn handle_process_event(&self, event: ProcessEvent, session_text: Result<&str, &str>,
        session_state: Option<&SessionState>) -> (r: Vec<MonitorEvent>)
        ensures
            match event {
                ProcessEvent::ProcessStarted(info) => r@.len() == 1
                    && r@[0] == (MonitorEvent::ProcessStarted { info }),
                ProcessEvent::ProcessStopped { info, exit_code } => {
                    &&& r@.len() == 2
                    &&& r@[0] matches MonitorEvent::ProcessStopped { info: i, exit_code: e }
                        && i.pid == info.pid && i.command_line@ == info.command_line@
                        && i.start_time == info.start_time && i.working_dir == info.working_dir && e == exit_code
                    &&& r@[1] matches MonitorEvent::SessionStopped { session, classification, process_info }
                        && process_info == Some(info)
                        && (session is Some <==> self.current() is Some)
                        && (session matches Some(s) ==> same_session(s, self.current()->0))
                        && result_view(classification) == stop_view(self.classifier_spec(), self.current() is Some,
                            text_of(session_text), match session_state { Some(s) => Some(*s), None => None },
                            exit_code)
                },
            },
    {
        let mut out: Vec<MonitorEvent> = Vec::new();
        match event {
            ProcessEvent::ProcessStarted(info) => {
                out.push(MonitorEvent::ProcessStarted { info });
            },
            ProcessEvent::ProcessStopped { info, exit_code } => {
                out.push(MonitorEvent::ProcessStopped { info: info.clone(), exit_code });
                let (session, classification) = match &self.current_session {
                    Some(s) => (Some(clone_session(s)), self.classifier.classify(session_text, session_state, exit_code)),
                    None => (None, self.classifier.classify_content("", exit_code)),
                };
                out.push(MonitorEvent::SessionStopped { session, classification, process_info: Some(info) });
            },
        }
        out
    }

    /// Records how sending a reported event went: a full channel drops the
    /// event and is counted. Returns whether it was sent.
    pub fn record_send(&mut self, outcome: SendOutcome) -> (r: bool)
        ensures
            r == (outcome == SendOutcome::Sent),
            final(self).dropped() == if outcome == SendOutcome::Full {
                old(self).dropped().wrapping_add(1)
            } else {
                old(self).dropped()
            },
            final(self).errors() == old(self).errors(),
            final(self).current() == old(self).current(),
            final(self).sessions() == old(self).sessions(),
            final(self).classifier_spec() == old(self).classifier_spec(),
            final(self).well_formed() == old(self).well_formed(),
    {
        match outcome {
            SendOutcome::Sent => true,
            SendOutcome::Full => {
                self.dropped_events = self.dropped_events.wrapping_add(1);
                false
            },
            SendOutcome::Closed => false,
        }
    }

    /// Number of recoverable errors seen.
    pub fn errors_count(&self) -> (r: u64)
        ensures
            r == self.errors(),
    {
        self.errors_count
    }

    /// Number of events dropped because the channel was full.
    pub fn dropped_events(&self) -> (r: u64)
        ensures
            r == self.dropped(),
    {
        self.dropped_events
    }
}

} // verus!
