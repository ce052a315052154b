//! What each notification channel sends for an event: titles, message text,
//! Discord embed fields, Slack section fields, severity markers and the ntfy
//! topic URL.

use vstd::prelude::*;

use crate::notify::events::{
    event_severity, event_timestamp, rfc3339_text, EventSeverity, NotificationEvent, Timestamp,
};
use crate::text::{chars_of, dec, string_from_chars, u64_to_string};

verus! {

/// Title of an event.
pub open spec fn title_text(e: NotificationEvent) -> Seq<char> {
    match e {
        NotificationEvent::SessionStopped { .. } => "Session stopped"@,
        NotificationEvent::ResumeAttempted { .. } => "Resume attempted"@,
        NotificationEvent::ResumeSucceeded { .. } => "Resume succeeded"@,
        NotificationEvent::ResumeFailed { .. } => "Resume failed"@,
        NotificationEvent::DaemonStarted { .. } => "Daemon started"@,
        NotificationEvent::DaemonStopped { .. } => "Daemon stopped"@,
    }
}

pub open spec fn ts_text(t: Timestamp) -> Seq<char> {
    rfc3339_text(t.secs_of(), t.nanos_of())
}

/// The message text of an event: what happened and when, then one
/// `Name: value` line per detail.
pub open spec fn message_text(e: NotificationEvent) -> Seq<char> {
    match e {
        NotificationEvent::SessionStopped { timestamp, session_path, stop_reason, details } =>
            "Session stopped at "@ + ts_text(timestamp) + ".\nSession: "@ + session_path@ + "\nReason: "@
                + stop_reason@ + match details {
                    Some(d) => "\nDetails: "@ + d@,
                    None => Seq::empty(),
                },
        NotificationEvent::ResumeAttempted { timestamp, session_path, strategy } =>
            "Resume attempted at "@ + ts_text(timestamp) + ".\nSession: "@ + session_path@ + "\nStrategy: "@
                + strategy@,
        NotificationEvent::ResumeSucceeded { timestamp, session_path, strategy, wait_time_secs } =>
            "Resume succeeded at "@ + ts_text(timestamp) + ".\nSession: "@ + session_path@ + "\nStrategy: "@
                + strategy@ + "\nWait time: "@ + dec(wait_time_secs as nat) + "s"@,
        NotificationEvent::ResumeFailed { timestamp, session_path, strategy, error } =>
            "Resume failed at "@ + ts_text(timestamp) + ".\nSession: "@ + session_path@ + "\nStrategy: "@
                + strategy@ + "\nError: "@ + error@,
        NotificationEvent::DaemonStarted { timestamp, version } =>
            "Daemon started at "@ + ts_text(timestamp) + ".\nVersion: "@ + version@,
        NotificationEvent::DaemonStopped { timestamp, reason } =>
            "Daemon stopped at "@ + ts_text(timestamp) + ".\nReason: "@ + reason@,
    }
}

/// A detail of an event: its name, its value, and whether Discord may show
/// it beside others.
pub struct Detail {
    pub name: Seq<char>,
    pub value: Seq<char>,
    pub inline: bool,
}

pub open spec fn detail(name: Seq<char>, value: Seq<char>, inline: bool) -> Detail {
    Detail { name, value, inline }
}

/// The details of an event, in the order the channels show them.
pub open spec fn event_details(e: NotificationEvent) -> Seq<Detail> {
    match e {
        NotificationEvent::SessionStopped { session_path, stop_reason, details, .. } =>
            seq![detail("Session"@, session_path@, true), detail("Reason"@, stop_reason@, true)]
                + match details {
                    Some(d) => seq![detail("Details"@, d@, false)],
                    None => Seq::empty(),
                },
        NotificationEvent::ResumeAttempted { session_path, strategy, .. } =>
            seq![detail("Session"@, session_path@, true), detail("Strategy"@, strategy@, true)],
        NotificationEvent::ResumeSucceeded { session_path, strategy, wait_time_secs, .. } =>
            seq![detail("Session"@, session_path@, true), detail("Strategy"@, strategy@, true),
                detail("Wait time"@, dec(wait_time_secs as nat) + "s"@, true)],
        NotificationEvent::ResumeFailed { session_path, strategy, error, .. } =>
            seq![detail("Session"@, session_path@, true), detail("Strategy"@, strategy@, true),
                detail("Error"@, error@, false)],
        NotificationEvent::DaemonStarted { version, .. } => seq![detail("Version"@, version@, true)],
        NotificationEvent::DaemonStopped { reason, .. } => seq![detail("Reason"@, reason@, true)],
    }
}

/// A field of a Discord embed.
#[derive(Debug)]
pub struct DiscordEmbedField {
    pub name: String,
    pub value: String,
    pub inline: bool,
}

/// A Slack text object.
#[derive(Debug)]
pub struct SlackText {
    /// `plain_text` or `mrkdwn`.
    pub text_type: String,
    pub text: String,
}

/// Discord embed fields show each detail as is.
pub open spec fn discord_field_matches(f: DiscordEmbedField, d: Detail) -> bool {
    f.name@ == d.name && f.value@ == d.value && f.inline == d.inline
}

/// Slack section fields show each detail as `*Name:*` and the value on the
/// next line, in Markdown.
pub open spec fn slack_field_matches(f: SlackText, d: Detail) -> bool {
    f.text_type@ == "mrkdwn"@ && f.text@ == "*"@ + d.name + ":*\n"@ + d.value
}

pub open spec fn discord_color(s: EventSeverity) -> u32 {
    match s {
        EventSeverity::Info => 0x00FF00,
        EventSeverity::Warning => 0xFFFF00,
        EventSeverity::Error => 0xFF0000,
    }
}

/// Title of an event.
pub fn event_title(event: &NotificationEvent) -> (r: &'static str)
    ensures
        r@ == title_text(*event),
{
    match event {
        NotificationEvent::SessionStopped { .. } => "Session stopped",
        NotificationEvent::ResumeAttempted { .. } => "Resume attempted",
        NotificationEvent::ResumeSucceeded { .. } => "Resume succeeded",
        NotificationEvent::ResumeFailed { .. } => "Resume failed",
        NotificationEvent::DaemonStarted { .. } => "Daemon started",
        NotificationEvent::DaemonStopped { .. } => "Daemon stopped",
    }
}

/// Embed colour for a severity: green, yellow or red.
pub fn severity_color(severity: EventSeverity) -> (r: u32)
    ensures
        r == discord_color(severity),
{
    match severity {
        EventSeverity::Info => 0x00FF00,
        EventSeverity::Warning => 0xFFFF00,
        EventSeverity::Error => 0xFF0000,
    }
}

/// Emoji put before Slack titles: information, warning or cross mark.
pub fn severity_emoji(severity: EventSeverity) -> (r: &'static str)
    ensures
        r@ == match severity {
            EventSeverity::Info => "\u{2139}\u{fe0f}"@,
            EventSeverity::Warning => "\u{26a0}\u{fe0f}"@,
            EventSeverity::Error => "\u{274c}"@,
        },
{
    match severity {
        EventSeverity::Info => "\u{2139}\u{fe0f}",
        EventSeverity::Warning => "\u{26a0}\u{fe0f}",
        EventSeverity::Error => "\u{274c}",
    }
}

/// ntfy tag for a severity: information, warning or red circle.
pub fn severity_tag(severity: EventSeverity) -> (r: &'static str)
    ensures
        r@ == match severity {
            EventSeverity::Info => "\u{2139}\u{fe0f}"@,
            EventSeverity::Warning => "\u{26a0}\u{fe0f}"@,
            EventSeverity::Error => "\u{1f534}"@,
        },
{
    match severity {
        EventSeverity::Info => "\u{2139}\u{fe0f}",
        EventSeverity::Warning => "\u{26a0}\u{fe0f}",
        EventSeverity::Error => "\u{1f534}",
    }
}

/// The message text of an event (see [`message_text`]).
pub fn format_event_message(event: &NotificationEvent) -> (r: String)
    ensures
        r@ == message_text(*event),
{
    let mut m = String::new();
    match event {
        NotificationEvent::SessionStopped { timestamp, session_path, stop_reason, details } => {
            let ts = timestamp.to_rfc3339();
            m.append("Session stopped at ");
            m.append(ts.as_str());
            m.append(".\nSession: ");
            m.append(session_path.as_str());
            m.append("\nReason: ");
            m.append(stop_reason.as_str());
            match details {
                Some(d) => {
                    m.append("\nDetails: ");
                    m.append(d.as_str());
                },
                None => {},
            }
        },
        NotificationEvent::ResumeAttempted { timestamp, session_path, strategy } => {
            let ts = timestamp.to_rfc3339();
            m.append("Resume attempted at ");
            m.append(ts.as_str());
            m.append(".\nSession: ");
            m.append(session_path.as_str());
            m.append("\nStrategy: ");
            m.append(strategy.as_str());
        },
        NotificationEvent::ResumeSucceeded { timestamp, session_path, strategy, wait_time_secs } => {
            let ts = timestamp.to_rfc3339();
            let w = u64_to_string(*wait_time_secs);
            m.append("Resume succeeded at ");
            m.append(ts.as_str());
            m.append(".\nSession: ");
            m.append(session_path.as_str());
            m.append("\nStrategy: ");
            m.append(strategy.as_str());
            m.append("\nWait time: ");
            m.append(w.as_str());
            m.append("s");
        },
        NotificationEvent::ResumeFailed { timestamp, session_path, strategy, error } => {
            let ts = timestamp.to_rfc3339();
            m.append("Resume failed at ");
            m.append(ts.as_str());
            m.append(".\nSession: ");
            m.append(session_path.as_str());
            m.append("\nStrategy: ");
            m.append(strategy.as_str());
            m.append("\nError: ");
            m.append(error.as_str());
        },
        NotificationEvent::DaemonStarted { timestamp, version } => {
            let ts = timestamp.to_rfc3339();
            m.append("Daemon started at ");
            m.append(ts.as_str());
            m.append(".\nVersion: ");
            m.append(version.as_str());
        },
        NotificationEvent::DaemonStopped { timestamp, reason } => {
            let ts = timestamp.to_rfc3339();
            m.append("Daemon stopped at ");
            m.append(ts.as_str());
            m.append(".\nReason: ");
            m.append(reason.as_str());
        },
    }
    proof { assert(m@ =~= message_text(*event)); }
    m
}

fn discord_field(name: &str, value: String, inline: bool) -> (r: DiscordEmbedField)
    ensures
        discord_field_matches(r, detail(name@, value@, inline)),
{
    DiscordEmbedField { name: name.to_string(), value, inline }
}

fn wait_text(secs: u64) -> (r: String)
    ensures
        r@ == dec(secs as nat) + "s"@,
{
    let mut w = u64_to_string(secs);
    w.append("s");
    w
}

/// Discord embed fields of an event: one per detail, in order.
pub fn event_fields(event: &NotificationEvent) -> (r: Vec<DiscordEmbedField>)
    ensures
        r@.len() == event_details(*event).len(),
        forall|i: int| 0 <= i < r@.len() ==> discord_field_matches(#[trigger] r@[i], event_details(*event)[i]),
{
    let mut v: Vec<DiscordEmbedField> = Vec::new();
    match event {
        NotificationEvent::SessionStopped { session_path, stop_reason, details, .. } => {
            v.push(discord_field("Session", session_path.clone(), true));
            v.push(discord_field("Reason", stop_reason.clone(), true));
            match details {
                Some(d) => {
                    v.push(discord_field("Details", d.clone(), false));
                },
                None => {},
            }
        },
        NotificationEvent::ResumeAttempted { session_path, strategy, .. } => {
            v.push(discord_field("Session", session_path.clone(), true));
            v.push(discord_field("Strategy", strategy.clone(), true));
        },
        NotificationEvent::ResumeSucceeded { session_path, strategy, wait_time_secs, .. } => {
            v.push(discord_field("Session", session_path.clone(), true));
            v.push(discord_field("Strategy", strategy.clone(), true));
            v.push(discord_field("Wait time", wait_text(*wait_time_secs), true));
        },
        NotificationEvent::ResumeFailed { session_path, strategy, error, .. } => {
            v.push(discord_field("Session", session_path.clone(), true));
            v.push(discord_field("Strategy", strategy.clone(), true));
            v.push(discord_field("Error", error.clone(), false));
        },
        NotificationEvent::DaemonStarted { version, .. } => {
            v.push(discord_field("Version", version.clone(), true));
        },
        NotificationEvent::DaemonStopped { reason, .. } => {
            v.push(discord_field("Reason", reason.clone(), true));
        },
    }
    v
}

fn slack_field(name: &str, value: String) -> (r: SlackText)
    ensures
        r.text_type@ == "mrkdwn"@,
        r.text@ == "*"@ + name@ + ":*\n"@ + value@,
{
    let mut t = "*".to_string();
    t.append(name);
    t.append(":*\n");
    t.append(value.as_str());
    SlackText { text_type: "mrkdwn".to_string(), text: t }
}

/// Slack section fields of an event: one per detail, in order.
pub fn slack_fields(event: &NotificationEvent) -> (r: Vec<SlackText>)
    ensures
        r@.len() == event_details(*event).len(),
        forall|i: int| 0 <= i < r@.len() ==> slack_field_matches(#[trigger] r@[i], event_details(*event)[i]),
{
    let mut v: Vec<SlackText> = Vec::new();
    match event {
        NotificationEvent::SessionStopped { session_path, stop_reason, details, .. } => {
            v.push(slack_field("Session", session_path.clone()));
            v.push(slack_field("Reason", stop_reason.clone()));
            match details {
                Some(d) => {
                    v.push(slack_field("Details", d.clone()));
                },
                None => {},
            }
        },
        NotificationEvent::ResumeAttempted { session_path, strategy, .. } => {
            v.push(slack_field("Session", session_path.clone()));
            v.push(slack_field("Strategy", strategy.clone()));
        },
        NotificationEvent::ResumeSucceeded { session_path, strategy, wait_time_secs, .. } => {
            v.push(slack_field("Session", session_path.clone()));
            v.push(slack_field("Strategy", strategy.clone()));
            v.push(slack_field("Wait time", wait_text(*wait_time_secs)));
        },
        NotificationEvent::ResumeFailed { session_path, strategy, error, .. } => {
            v.push(slack_field("Session", session_path.clone()));
            v.push(slack_field("Strategy", strategy.clone()));
            v.push(slack_field("Error", error.clone()));
        },
        NotificationEvent::DaemonStarted { version, .. } => {
            v.push(slack_field("Version", version.clone()));
        },
        NotificationEvent::DaemonStopped { reason, .. } => {
            v.push(slack_field("Reason", reason.clone()));
        },
    }
    v
}

/// Slack header text of an event: the severity emoji, a space, the title.
pub fn slack_title(event: &NotificationEvent) -> (r: String)
    ensures
        r@ == match event_severity(*event) {
            EventSeverity::Info => "\u{2139}\u{fe0f}"@,
            EventSeverity::Warning => "\u{26a0}\u{fe0f}"@,
            EventSeverity::Error => "\u{274c}"@,
        } + " "@ + title_text(*event),
{
    let mut t = severity_emoji(event.severity()).to_string();
    t.append(" ");
    t.append(event_title(event));
    t
}

/// `s` without trailing `c` characters (`trim_end_matches`).
pub open spec fn trim_end_char(s: Seq<char>, c: char) -> Seq<char>
    decreases s.len(),
{
    if s.len() > 0 && s.last() == c {
        trim_end_char(s.drop_last(), c)
    } else {
        s
    }
}

/// `s` without leading `c` characters (`trim_start_matches`).
pub open spec fn trim_start_char(s: Seq<char>, c: char) -> Seq<char>
    decreases s.len(),
{
    if s.len() > 0 && s[0] == c {
        trim_start_char(s.drop_first(), c)
    } else {
        s
    }
}

proof fn lemma_trim_end_char(s: Seq<char>, c: char, k: int)
    requires
        0 <= k <= s.len(),
        forall|j: int| k <= j < s.len() ==> s[j] == c,
    ensures
        trim_end_char(s, c) == trim_end_char(s.take(k), c),
    decreases s.len() - k,
{
    if k < s.len() {
        assert(s.drop_last().take(k) =~= s.take(k));
        lemma_trim_end_char(s.drop_last(), c, k);
    } else {
        assert(s.take(k) =~= s);
    }
}

proof fn lemma_trim_start_char(s: Seq<char>, c: char, k: int)
    requires
        0 <= k <= s.len(),
        forall|j: int| 0 <= j < k ==> s[j] == c,
    ensures
        trim_start_char(s, c) == trim_start_char(s.skip(k), c),
    decreases k,
{
    if k > 0 {
        assert(s.drop_first().skip(k - 1) =~= s.skip(k));
        lemma_trim_start_char(s.drop_first(), c, k - 1);
    } else {
        assert(s.skip(0) =~= s);
    }
}

/// The ntfy URL of a topic: the server without trailing slashes, `/`, the
/// topic without leading slashes.
pub fn ntfy_url(server: &str, topic: &str) -> (r: String)
    ensures
        r@ == trim_end_char(server@, '/') + "/"@ + trim_start_char(topic@, '/'),
{
    let s = chars_of(server);
    let t = chars_of(topic);
    let mut b: usize = s.len();
    while b > 0 && s[b - 1] == '/'
        invariant
            b <= s@.len(),
            forall|j: int| b <= j < s@.len() ==> s@[j] == '/',
        decreases b,
    {
        b = b - 1;
    }
    let mut a: usize = 0;
    while a < t.len() && t[a] == '/'
        invariant
            a <= t@.len(),
            forall|j: int| 0 <= j < a ==> t@[j] == '/',
        decreases t@.len() - a,
    {
        a = a + 1;
    }
    proof {
        lemma_trim_end_char(s@, '/', b as int);
        let u = s@.take(b as int);
        if u.len() > 0 {
            assert(u.last() == s@[b - 1]);
        }
        assert(trim_end_char(u, '/') == u);
        lemma_trim_start_char(t@, '/', a as int);
        let w = t@.skip(a as int);
        if w.len() > 0 {
            assert(w[0] == t@[a as int]);
        }
        assert(trim_start_char(w, '/') == w);
    }
    let mut out: Vec<char> = Vec::new();
    let mut i: usize = 0;
    while i < b
        invariant
            i <= b <= s@.len(),
            out@ == s@.take(i as int),
        decreases b - i,
    {
        out.push(s[i]);
        proof { assert(s@.take(i as int + 1) =~= s@.take(i as int).push(s@[i as int])); }
        i = i + 1;
    }
    out.push('/');
    let mut j: usize = a;
    while j < t.len()
        invariant
            a <= j <= t@.len(),
            out@ == s@.take(b as int) + seq!['/'] + t@.subrange(a as int, j as int),
        decreases t@.len() - j,
    {
        out.push(t[j]);
        proof {
            assert(t@.subrange(a as int, j as int + 1) =~= t@.subrange(a as int, j as int).push(t@[j as int]));
        }
        j = j + 1;
    }
    proof {
        assert(t@.subrange(a as int, t@.len() as int) =~= t@.skip(a as int));
        reveal_strlit("/");
        assert(out@ =~= trim_end_char(server@, '/') + "/"@ + trim_start_char(topic@, '/'));
    }
    string_from_chars(out.as_slice())
}

} // verus!
