//! What the daemon keeps while it runs: whether monitoring is paused, the
//! session and resume counters, and the configuration in force.

use vstd::prelude::*;

use crate::config::schema::{BotConfig, Config, DaemonConfig, MonitoringConfig};
use crate::config::validation::{
    config_facts_for, config_issues, config_notices, error_views, validate_config, warning_views, ValidationResult,
};
use crate::monitor::detection::{assistant_names, DetectionResult};

verus! {

#[verifier::external_type_specification]
#[verifier::external_body]
pub struct ExInstant(std::time::Instant);

/// Calls `std::time::Instant::now`.
#[verifier::external_body]
fn instant_now() -> (r: std::time::Instant) {
    std::time::Instant::now()
}

/// Calls `std::time::Instant::elapsed`; what it returns depends on the clock.
#[verifier::external_body]
fn instant_elapsed(i: &std::time::Instant) -> (r: std::time::Duration) {
    i.elapsed()
}

/// Calls `std::time::Duration::as_secs`.
#[verifier::external_body]
pub(crate) fn duration_secs(d: &std::time::Duration) -> (r: u64) {
    d.as_secs()
}

/// Status of the daemon as the control interfaces report it.
#[derive(Debug)]
pub struct DaemonStatus {
    /// `paused` or `monitoring`.
    pub state: String,
    pub uptime_secs: u64,
    pub current_session: Option<String>,
    pub saves_count: u64,
    pub total_resumes: u64,
}

pub open spec fn texts(v: Seq<String>) -> Seq<Seq<char>> {
    v.map_values(|s: String| s@)
}

/// The assistants monitored once auto-detection has run, and whether it is
/// active: configured assistants are kept as they are; otherwise, when
/// auto-detection is on, the detected ones are used.
pub open spec fn auto_detection_spec(configured: Seq<Seq<char>>, auto_detect: bool, detected: Seq<Seq<char>>)
    -> (Seq<Seq<char>>, bool)
{
    if configured.len() > 0 {
        (configured, false)
    } else if !auto_detect {
        (configured, false)
    } else if detected.len() == 0 {
        (configured, true)
    } else {
        (detected, true)
    }
}

/// `names` added to `list` in order, each only when not already there.
pub open spec fn merge_names(list: Seq<Seq<char>>, names: Seq<Seq<char>>) -> Seq<Seq<char>>
    decreases names.len(),
{
    if names.len() == 0 {
        list
    } else {
        let m = merge_names(list, names.drop_last());
        if m.contains(names.last()) {
            m
        } else {
            m.push(names.last())
        }
    }
}

proof fn lemma_merge_keeps(list: Seq<Seq<char>>, names: Seq<Seq<char>>)
    ensures
        forall|x: Seq<char>| list.contains(x) ==> #[trigger] merge_names(list, names).contains(x),
        forall|i: int| 0 <= i < names.len() ==> merge_names(list, names).contains(#[trigger] names[i]),
    decreases names.len(),
{
    if names.len() > 0 {
        let t = names.drop_last();
        lemma_merge_keeps(list, t);
        let m = merge_names(list, t);
        assert forall|x: Seq<char>| m.contains(x) implies #[trigger] merge_names(list, names).contains(x) by {
            if !m.contains(names.last()) {
                let k = choose|k: int| 0 <= k < m.len() && m[k] == x;
                assert(m.push(names.last())[k] == x);
            }
        }
        assert forall|i: int| 0 <= i < names.len() implies merge_names(list, names).contains(#[trigger] names[i]) by {
            if i < names.len() - 1 {
                assert(t[i] == names[i]);
                assert(m.contains(t[i]));
            } else if !m.contains(names.last()) {
                assert(m.push(names.last())[m.len() as int] == names.last());
            }
        }
    }
}

proof fn lemma_merge_present(list: Seq<Seq<char>>, names: Seq<Seq<char>>)
    requires
        forall|i: int| 0 <= i < names.len() ==> list.contains(#[trigger] names[i]),
    ensures
        merge_names(list, names) == list,
    decreases names.len(),
{
    if names.len() > 0 {
        let t = names.drop_last();
        assert forall|i: int| 0 <= i < t.len() implies list.contains(#[trigger] t[i]) by {
            assert(t[i] == names[i]);
        }
        lemma_merge_present(list, t);
        assert(list.contains(names[names.len() - 1]));
    }
}

/// Merging the same detected names a second time changes nothing: once
/// the monitored assistants have been refreshed with a detection, refreshing
/// them again with it leaves them as they are.
pub proof fn lemma_refresh_idempotent(list: Seq<Seq<char>>, detected: Seq<Seq<char>>)
    ensures
        merge_names(merge_names(list, detected), detected) == merge_names(list, detected),
{
    lemma_merge_keeps(list, detected);
    lemma_merge_present(merge_names(list, detected), detected);
}

/// Refreshing never drops a monitored assistant and always ends up
/// monitoring every detected one.
pub proof fn lemma_refresh_covers(list: Seq<Seq<char>>, detected: Seq<Seq<char>>)
    ensures
        forall|x: Seq<char>| list.contains(x) ==> #[trigger] merge_names(list, detected).contains(x),
        forall|i: int| 0 <= i < detected.len() ==> merge_names(list, detected).contains(#[trigger] detected[i]),
{
    lemma_merge_keeps(list, detected);
}

fn copy_strings(v: &Vec<String>) -> (r: Vec<String>)
    ensures
        texts(r@) == texts(v@),
{
    let mut out: Vec<String> = Vec::new();
    let mut i: usize = 0;
    while i < v.len()
        invariant
            i <= v@.len(),
            texts(out@) == texts(v@.take(i as int)),
        decreases v@.len() - i,
    {
        let ghost before = texts(out@);
        out.push(v[i].clone());
        proof {
            assert(texts(out@) =~= before.push(v@[i as int]@));
            assert(texts(v@.take(i as int + 1)) =~= texts(v@.take(i as int)).push(v@[i as int]@));
        }
        i = i + 1;
    }
    proof { assert(v@.take(v@.len() as int) =~= v@); }
    out
}

fn contains_text(list: &Vec<String>, name: &String) -> (r: bool)
    ensures
        r == texts(list@).contains(name@),
{
    let n = list.len();
    let mut i: usize = 0;
    while i < n
        invariant
            n == list@.len(),
            i <= n,
            forall|j: int| 0 <= j < i ==> list@[j]@ != name@,
        decreases n - i,
    {
        let a = crate::text::chars_of(list[i].as_str());
        let b = crate::text::chars_of(name.as_str());
        if crate::text::chars_eq(a.as_slice(), b.as_slice()) {
            proof { assert(texts(list@)[i as int] == name@); }
            return true;
        }
        i = i + 1;
    }
    proof {
        assert forall|j: int| 0 <= j < texts(list@).len() implies texts(list@)[j] != name@ by {
            assert(texts(list@)[j] == list@[j]@);
        }
    }
    false
}

/// Applies auto-detection to a configuration (see [`auto_detection_spec`]);
/// returns whether auto-detection is active.
pub fn apply_auto_detection(config: &mut Config, detected: &DetectionResult) -> (r: bool)
    ensures
        (texts(final(config).monitoring.assistants@), r) == auto_detection_spec(
            texts(old(config).monitoring.assistants@), old(config).monitoring.auto_detect,
            assistant_names(detected.assistants@)),
        final(config).daemon == old(config).daemon,
        final(config).monitoring.session_dir == old(config).monitoring.session_dir,
        final(config).monitoring.auto_detect == old(config).monitoring.auto_detect,
        final(config).monitoring.auto_detect_interval_secs == old(config).monitoring.auto_detect_interval_secs,
        final(config).monitoring.debounce_ms == old(config).monitoring.debounce_ms,
        final(config).monitoring.poll_interval_secs == old(config).monitoring.poll_interval_secs,
        final(config).resume == old(config).resume,
        final(config).notifications == old(config).notifications,
        final(config).otel == old(config).otel,
        final(config).opencode == old(config).opencode,
        final(config).mcp == old(config).mcp,
        final(config).bot == old(config).bot,
{
    if config.monitoring.assistants.len() > 0 {
        return false;
    }
    if !config.monitoring.auto_detect {
        return false;
    }
    if detected.assistants.len() == 0 {
        return true;
    }
    let n = detected.assistants.len();
    let mut names: Vec<String> = Vec::new();
    let mut i: usize = 0;
    while i < n
        invariant
            n == detected.assistants@.len(),
            i <= n,
            texts(names@) == assistant_names(detected.assistants@).take(i as int),
        decreases n - i,
    {
        let ghost before = texts(names@);
        names.push(detected.assistants[i].name.clone());
        proof {
            assert(texts(names@) =~= before.push(detected.assistants@[i as int].name@));
            assert(assistant_names(detected.assistants@).take(i as int + 1)
                =~= assistant_names(detected.assistants@).take(i as int).push(detected.assistants@[i as int].name@));
        }
        i = i + 1;
    }
    proof { assert(assistant_names(detected.assistants@).take(n as int) =~= assistant_names(detected.assistants@)); }
    config.monitoring.assistants = names;
    true
}

/// Two configurations agree on every setting but the monitored assistants.
pub open spec fn same_but_assistants(a: Config, b: Config) -> bool {
    &&& a.daemon == b.daemon
    &&& a.monitoring.session_dir == b.monitoring.session_dir
    &&& a.monitoring.auto_detect == b.monitoring.auto_detect
    &&& a.monitoring.auto_detect_interval_secs == b.monitoring.auto_detect_interval_secs
    &&& a.monitoring.debounce_ms == b.monitoring.debounce_ms
    &&& a.monitoring.poll_interval_secs == b.monitoring.poll_interval_secs
    &&& a.resume == b.resume
    &&& a.notifications == b.notifications
    &&& a.otel == b.otel
    &&& a.opencode == b.opencode
    &&& a.mcp == b.mcp
    &&& a.bot == b.bot
}

/// `c` installed after auto-detection against `detected`: every setting of
/// `c`, with the assistants and whether auto-detection is active as
/// [`auto_detection_spec`] gives them.
pub open spec fn installed(after: Config, active: bool, c: Config, detected: DetectionResult) -> bool {
    &&& same_but_assistants(after, c)
    &&& (texts(after.monitoring.assistants@), active) == auto_detection_spec(
        texts(c.monitoring.assistants@), c.monitoring.auto_detect, assistant_names(detected.assistants@))
}

/// What a reload with a loaded configuration `c` does, given whether `c`
/// validated: it installs `c`, or it fails with `Configuration validation
/// failed` and keeps the state as it was. Pause state and counters stay.
pub open spec fn reload_step(before: DaemonState, after: DaemonState, c: Config, valid: bool,
    detected: DetectionResult, r: Result<(), String>) -> bool {
    &&& (r is Ok <==> valid)
    &&& match r {
        Ok(_) => installed(after.config_spec(), after.auto_detect_spec(), c, detected)
            && after.paused_spec() == before.paused_spec()
            && after.sessions_spec() == before.sessions_spec()
            && after.resumes_spec() == before.resumes_spec(),
        Err(e) => e@ == "Configuration validation failed"@ && after == before,
    }
}

/// What pausing does: from monitoring it pauses; when already paused it
/// fails and stays paused. Nothing else changes.
pub open spec fn pause_step(before: DaemonState, after: DaemonState, r: Result<(), String>) -> bool {
    &&& match r {
        Ok(_) => !before.paused_spec(),
        Err(e) => before.paused_spec() && e@ == "Daemon already paused"@,
    }
    &&& after.paused_spec()
    &&& after.sessions_spec() == before.sessions_spec()
    &&& after.resumes_spec() == before.resumes_spec()
    &&& after.config_spec() == before.config_spec()
    &&& after.auto_detect_spec() == before.auto_detect_spec()
}

/// What resuming does: from paused it resumes and counts the resume; when
/// not paused it fails. Nothing else changes.
pub open spec fn resume_step(before: DaemonState, after: DaemonState, r: Result<(), String>) -> bool {
    &&& match r {
        Ok(_) => before.paused_spec() && after.resumes_spec() == before.resumes_spec().wrapping_add(1),
        Err(e) => !before.paused_spec() && e@ == "Daemon is not paused"@
            && after.resumes_spec() == before.resumes_spec(),
    }
    &&& !after.paused_spec()
    &&& after.sessions_spec() == before.sessions_spec()
    &&& after.config_spec() == before.config_spec()
    &&& after.auto_detect_spec() == before.auto_detect_spec()
}

/// Pausing a monitoring daemon and then resuming it succeeds both times and
/// leaves it monitoring, with one more resume counted and its configuration
/// and sessions as they were.
pub proof fn lemma_pause_then_resume(s0: DaemonState, s1: DaemonState, s2: DaemonState,
    r1: Result<(), String>, r2: Result<(), String>)
    requires
        !s0.paused_spec(),
        pause_step(s0, s1, r1),
        resume_step(s1, s2, r2),
    ensures
        r1 is Ok,
        r2 is Ok,
        !s2.paused_spec(),
        s2.resumes_spec() == s0.resumes_spec().wrapping_add(1),
        s2.sessions_spec() == s0.sessions_spec(),
        s2.config_spec() == s0.config_spec(),
{
}

/// Pausing twice fails the second time, and the daemon stays paused;
/// resuming twice fails the second time, and the daemon stays monitoring.
pub proof fn lemma_repeat_is_refused(s0: DaemonState, s1: DaemonState, s2: DaemonState,
    r1: Result<(), String>, r2: Result<(), String>)
    ensures
        pause_step(s0, s1, r1) && pause_step(s1, s2, r2) ==> r2 is Err && s2.paused_spec(),
        resume_step(s0, s1, r1) && resume_step(s1, s2, r2) ==> r2 is Err && !s2.paused_spec(),
{
}

/// The daemon's running state.
pub struct DaemonState {
    start_time: std::time::Instant,
    paused: bool,
    sessions_count: u64,
    resumes_count: u64,
    config: Config,
    auto_detect_active: bool,
}

impl DaemonState {
    pub closed spec fn paused_spec(self) -> bool {
        self.paused
    }

    pub closed spec fn sessions_spec(self) -> u64 {
        self.sessions_count
    }

    pub closed spec fn resumes_spec(self) -> u64 {
        self.resumes_count
    }

    pub closed spec fn config_spec(self) -> Config {
        self.config
    }

    pub closed spec fn auto_detect_spec(self) -> bool {
        self.auto_detect_active
    }

    /// A daemon starting with `config` (the configuration file's, or the
    /// default when it could not be loaded), after auto-detection against
    /// what `detected` found. Monitoring starts unpaused, with no sessions
    /// or resumes counted.
    pub fn new(config: Config, detected: &DetectionResult) -> (r: Self)
        ensures
            !r.paused_spec(),
            r.sessions_spec() == 0,
            r.resumes_spec() == 0,
            installed(r.config_spec(), r.auto_detect_spec(), config, *detected),
    {
        let mut config = config;
        let active = apply_auto_detection(&mut config, detected);
        DaemonState {
            start_time: instant_now(),
            paused: false,
            sessions_count: 0,
            resumes_count: 0,
            config,
            auto_detect_active: active,
        }
    }

    /// A daemon with `config` as it stands, auto-detection off (as for the
    /// MCP server).
    pub fn new_without_auto_detection(config: Config) -> (r: Self)
        ensures
            !r.paused_spec(),
            r.sessions_spec() == 0,
            r.resumes_spec() == 0,
            r.config_spec() == config,
            !r.auto_detect_spec(),
    {
        DaemonState {
            start_time: instant_now(),
            paused: false,
            sessions_count: 0,
            resumes_count: 0,
            config,
            auto_detect_active: false,
        }
    }

    /// Time since the daemon started.
    pub fn uptime(&self) -> std::time::Duration {
        instant_elapsed(&self.start_time)
    }

    /// Whole seconds since the daemon started; what it is depends on the
    /// clock.
    pub fn uptime_secs(&self) -> u64 {
        let up = self.uptime();
        duration_secs(&up)
    }

    /// Whether monitoring is paused.
    pub fn is_paused(&self) -> (r: bool)
        ensures
            r == self.paused_spec(),
    {
        self.paused
    }

    /// The daemon section of the configuration in force.
    pub fn daemon_config(&self) -> (r: Option<DaemonConfig>)
        ensures
            r == Some(self.config_spec().daemon),
    {
        Some(self.config.daemon.clone())
    }

    /// The monitoring section of the configuration in force.
    pub fn monitoring_config(&self) -> (r: Option<MonitoringConfig>)
        ensures
            r matches Some(m) && m.same(self.config_spec().monitoring),
    {
        Some(self.config.monitoring.clone())
    }

    /// The bot section of the configuration in force.
    pub fn bot_config(&self) -> (r: &BotConfig)
        ensures
            *r == self.config_spec().bot,
    {
        &self.config.bot
    }

    /// The configuration in force.
    pub fn config(&self) -> (r: &Config)
        ensures
            *r == self.config_spec(),
    {
        &self.config
    }

    /// Whether auto-detection is active.
    pub fn auto_detect_active(&self) -> (r: bool)
        ensures
            r == self.auto_detect_spec(),
    {
        self.auto_detect_active
    }

    /// Seconds between auto-detection runs: the configured interval, at
    /// least 1.
    pub fn auto_detect_interval(&self) -> (r: u64)
        ensures
            r == if self.config_spec().monitoring.auto_detect_interval_secs >= 1 {
                self.config_spec().monitoring.auto_detect_interval_secs
            } else {
                1
            },
    {
        let secs = self.config.monitoring.auto_detect_interval_secs;
        if secs >= 1 { secs } else { 1 }
    }

    /// Adds newly detected assistants to the monitored ones, when
    /// auto-detection is active and something was detected.
    pub fn refresh_auto_detected_assistants(&mut self, detected: &DetectionResult)
        ensures
            texts(final(self).config_spec().monitoring.assistants@) == if old(self).auto_detect_spec() {
                merge_names(texts(old(self).config_spec().monitoring.assistants@), assistant_names(detected.assistants@))
            } else {
                texts(old(self).config_spec().monitoring.assistants@)
            },
            final(self).paused_spec() == old(self).paused_spec(),
            final(self).sessions_spec() == old(self).sessions_spec(),
            final(self).resumes_spec() == old(self).resumes_spec(),
            final(self).auto_detect_spec() == old(self).auto_detect_spec(),
            same_but_assistants(final(self).config_spec(), old(self).config_spec()),
    {
        if !self.auto_detect_active {
            return;
        }
        let ghost names = assistant_names(detected.assistants@);
        let mut assistants = copy_strings(&self.config.monitoring.assistants);
        let n = detected.assistants.len();
        let mut i: usize = 0;
        proof { assert(names.take(0) =~= Seq::<Seq<char>>::empty()); }
        while i < n
            invariant
                n == detected.assistants@.len(),
                i <= n,
                names == assistant_names(detected.assistants@),
                texts(assistants@) == merge_names(texts(self.config.monitoring.assistants@), names.take(i as int)),
            decreases n - i,
        {
            proof {
                assert(names.take(i as int + 1).drop_last() =~= names.take(i as int));
                assert(names.take(i as int + 1).last() == detected.assistants@[i as int].name@);
            }
            let name = &detected.assistants[i].name;
            if !contains_text(&assistants, name) {
                let ghost before = texts(assistants@);
                assistants.push(name.clone());
                proof { assert(texts(assistants@) =~= before.push(name@)); }
            }
            i = i + 1;
        }
        proof { assert(names.take(n as int) =~= names); }
        self.config.monitoring.assistants = assistants;
    }

    /// The status reported to clients.
    pub fn get_status(&self) -> (r: DaemonStatus)
        ensures
            r.state@ == if self.paused_spec() { "paused"@ } else { "monitoring"@ },
            r.current_session is None,
            r.saves_count == self.sessions_spec(),
            r.total_resumes == self.resumes_spec(),
    {
        let up = self.uptime();
        DaemonStatus {
            state: if self.paused { "paused".to_string() } else { "monitoring".to_string() },
            uptime_secs: duration_secs(&up),
            current_session: None,
            saves_count: self.sessions_count,
            total_resumes: self.resumes_count,
        }
    }

    /// Pauses monitoring; an error when it is already paused.
    pub fn pause(&mut self) -> (r: Result<(), String>)
        ensures
            pause_step(*old(self), *final(self), r),
    {
        if self.paused {
            return Err("Daemon already paused".to_string());
        }
        self.paused = true;
        Ok(())
    }

    /// Resumes monitoring and counts the resume; an error when it is not
    /// paused.
    pub fn resume(&mut self) -> (r: Result<(), String>)
        ensures
            resume_step(*old(self), *final(self), r),
    {
        if !self.paused {
            return Err("Daemon is not paused".to_string());
        }
        self.paused = false;
        self.resumes_count = self.resumes_count.wrapping_add(1);
        Ok(())
    }

    /// Counts a new session.
    pub fn new_session(&mut self) -> (r: Result<(), String>)
        ensures
            r is Ok,
            final(self).sessions_spec() == old(self).sessions_spec().wrapping_add(1),
            final(self).paused_spec() == old(self).paused_spec(),
            final(self).resumes_spec() == old(self).resumes_spec(),
            final(self).config_spec() == old(self).config_spec(),
            final(self).auto_detect_spec() == old(self).auto_detect_spec(),
    {
        self.sessions_count = self.sessions_count.wrapping_add(1);
        Ok(())
    }

    /// Installs a loaded configuration `c` when its validation found no
    /// error (see [`reload_step`]); `validation` is what validating `c` gave.
    pub fn apply_reload(&mut self, c: Config, validation: &ValidationResult, detected: &DetectionResult)
        -> (r: Result<(), String>)
        ensures
            reload_step(*old(self), *final(self), c, validation.errors@.len() == 0, *detected, r),
    {
        if !validation.is_valid() {
            return Err("Configuration validation failed".to_string());
        }
        let mut new_config = c;
        let active = apply_auto_detection(&mut new_config, detected);
        self.config = new_config;
        self.auto_detect_active = active;
        Ok(())
    }

    /// Replaces the configuration with a newly loaded one when it loaded
    /// and validates; otherwise the configuration in force is kept and the
    /// error is returned. The configuration is validated against the file
    /// system (see [`validate_config`]) and then handed to
    /// [`DaemonState::apply_reload`].
    pub fn reload_config(&mut self, loaded: Result<Config, String>, detected: &DetectionResult)
        -> (r: Result<(), String>)
        ensures
            match loaded {
                Err(e) => r == Err::<(), String>(e) && *final(self) == *old(self),
                Ok(c) => exists|f| #[trigger] config_facts_for(c, f)
                    && reload_step(*old(self), *final(self), c, config_issues(c, f).len() == 0, *detected, r),
            },
    {
        let new_config = match loaded {
            Ok(c) => c,
            Err(e) => {
                return Err(e);
            },
        };
        let ghost c = new_config;
        let validation = validate_config(&new_config);
        let ghost f = choose|f| config_facts_for(c, f) && error_views(validation.errors@) == #[trigger] config_issues(c, f)
            && warning_views(validation.warnings@) == config_notices(c, f);
        let r = self.apply_reload(new_config, &validation, detected);
        proof {
            assert(config_facts_for(c, f) && error_views(validation.errors@) == config_issues(c, f));
            assert(error_views(validation.errors@).len() == validation.errors@.len());
        }
        r
    }
}

} // verus!
