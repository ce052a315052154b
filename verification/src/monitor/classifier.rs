//! Why a session stopped: rate limit, exhausted context, user exit,
//! completion, or unknown; read from the session's text, its exit code and
//! its frontmatter.
//!
//! Ratios are kept as integers: confidence in percent, token usage as the
//! number of tokens used out of the context size.

use vstd::prelude::*;

use crate::monitor::pattern::{regex_captures, regex_compiles, regex_find, Pattern};
use crate::monitor::session::{tail_lines, tail_text, SessionState};
use crate::text::{
    chars_eq_str, chars_of, contains, contains_chars, dec, dec_int, opt_text, parse_unsigned,
    parse_unsigned_chars, to_lowercase_string, u64_to_string, unicode_lowercase,
};

verus! {

// ---------------------------------------------------------------------------
// Types
// ---------------------------------------------------------------------------

/// Kind of user exit.
#[derive(Debug, Clone, Copy, PartialEq, Eq, Structural)]
pub enum UserExitType {
    CtrlC,
    ExitCommand,
    CleanExit,
    TerminalClosed,
    UserTerminated,
}

/// Where a rate limit's waiting time came from.
#[derive(Debug, Clone, Copy, PartialEq, Eq, Structural)]
pub enum RetryAfterSource {
    /// A `Retry-After` header.
    Header,
    /// A `retry_after` field of a response body.
    ResponseBody,
    /// A "try again in N seconds" text.
    TextParsed,
    /// The configured default.
    ConfigDefault,
}

/// A user-initiated exit.
#[derive(Debug)]
pub struct UserExitInfo {
    pub exit_type: UserExitType,
    pub exit_code: Option<i32>,
    pub message: Option<String>,
}

/// An exhausted context window.
#[derive(Debug)]
pub struct ContextExhaustionInfo {
    /// Tokens used, when the text says.
    pub tokens_used: Option<u32>,
    /// Context window size, when the text says or it could be inferred.
    pub context_size: Option<u32>,
    /// The matched error text.
    pub message: Option<String>,
}

/// A rate limit.
#[derive(Debug)]
pub struct RateLimitInfo {
    /// Seconds to wait before retrying.
    pub retry_after_secs: u64,
    pub source: RetryAfterSource,
    /// The matched error text.
    pub message: Option<String>,
}

/// Why a session stopped.
#[derive(Debug)]
pub enum StopReason {
    RateLimit(RateLimitInfo),
    ContextExhausted(Option<ContextExhaustionInfo>),
    UserExit(UserExitInfo),
    Completed,
    Unknown(String),
}

/// A classification with its confidence and the evidence it rests on.
#[derive(Debug)]
pub struct ClassificationResult {
    pub reason: StopReason,
    /// Confidence, in percent.
    pub confidence_percent: u32,
    pub evidence: Vec<String>,
}

/// Classifier settings.
#[derive(Debug)]
pub struct ClassifierConfig {
    /// Seconds to wait when the text gives no retry time.
    pub default_retry_wait_secs: u64,
    /// Lines read from the end of a session file.
    pub max_lines: usize,
    /// Token usage, in percent of the context size, taken as exhaustion.
    pub context_threshold_percent: u32,
    /// Context size assumed when no known model is named.
    pub default_context_size: u32,
    /// Known models (lower case) and their context sizes, tried in order.
    pub known_context_sizes: Vec<(String, u32)>,
    /// Further rate-limit patterns.
    pub extra_rate_limit_patterns: Vec<String>,
    /// Further context-exhaustion patterns.
    pub extra_context_patterns: Vec<String>,
}

/// A pattern of the configuration failed to compile.
#[derive(Debug)]
pub enum ClassifierError {
    Pattern(String),
}

impl Default for ClassifierConfig {
    fn default() -> (r: Self)
        ensures
            r.default_retry_wait_secs == 30,
            r.max_lines == 100,
            r.context_threshold_percent == 80,
            r.default_context_size == 200_000,
            model_views(r.known_context_sizes@) == seq![
                ("gpt-4 turbo"@, 128_000u32),
                ("gpt-4"@, 8_192u32),
            ],
            r.extra_rate_limit_patterns@.len() == 0,
            r.extra_context_patterns@.len() == 0,
    {
        let mut known: Vec<(String, u32)> = Vec::new();
        known.push(("gpt-4 turbo".to_string(), 128_000));
        known.push(("gpt-4".to_string(), 8_192));
        proof {
            assert(model_views(known@) =~= seq![
                ("gpt-4 turbo"@, 128_000u32),
                ("gpt-4"@, 8_192u32),
            ]);
        }
        ClassifierConfig {
            default_retry_wait_secs: 30,
            max_lines: 100,
            context_threshold_percent: 80,
            default_context_size: 200_000,
            known_context_sizes: known,
            extra_rate_limit_patterns: Vec::new(),
            extra_context_patterns: Vec::new(),
        }
    }
}

// ---------------------------------------------------------------------------
// Specification
// ---------------------------------------------------------------------------

pub open spec fn model_views(v: Seq<(String, u32)>) -> Seq<(Seq<char>, u32)> {
    v.map_values(|p: (String, u32)| (p.0@, p.1))
}

pub open spec fn texts(v: Seq<String>) -> Seq<Seq<char>> {
    v.map_values(|s: String| s@)
}

pub open spec fn sources(ps: Seq<Pattern>) -> Seq<Seq<char>> {
    ps.map_values(|p: Pattern| p.source_text())
}

pub open spec fn builtin_rate_limit_sources() -> Seq<Seq<char>> {
    seq![
        "(?i)rate[_-]?limit[_-]?error"@,
        "(?i)rate\\s+limit\\s+reached"@,
        "(?i)\\b429\\b"@,
        "(?i)too\\s+many\\s+requests"@,
        "(?i)quota\\s+exceeded"@,
        "(?i)overloaded[_-]?error|overloaded"@,
        "(?i)throttl"@,
    ]
}

pub open spec fn builtin_context_sources() -> Seq<Seq<char>> {
    seq![
        "(?i)context[_-]?length[_-]?exceeded"@,
        "(?i)maximum\\s+context\\s+length"@,
        "(?i)token\\s+limit\\s+exceeded"@,
        "(?i)conversation\\s+too\\s+long"@,
        "(?i)context\\s+window\\s+(?:full|exceeded|limit)"@,
        "(?i)max\\s*tokens?\\s+reached"@,
        "(?i)prompt\\s+is\\s+too\\s+long"@,
        "(?i)context\\s+(?:truncated|reset)"@,
        "(?i)conversation\\s+reset"@,
    ]
}

pub open spec fn builtin_user_exit_sources() -> Seq<Seq<char>> {
    seq![
        "(?im)^\\s*exit\\s*$"@,
        "(?im)^\\s*quit\\s*$"@,
        "(?im)^\\s*/bye\\s*$"@,
        "(?im)^\\s*goodbye\\s*$"@,
        "(?im)^\\s*done\\s*$"@,
        "(?i)keyboard\\s+interrupt"@,
        "(?i)interrupted\\s+by\\s+user"@,
        "(?i)sigint\\s+received"@,
    ]
}

pub open spec fn retry_header_source() -> Seq<char> {
    "(?i)retry-after[:\\s]+(\\d+)"@
}

pub open spec fn retry_json_source() -> Seq<char> {
    "\\\"retry_after\\\"\\s*:\\s*\\\"?(\\d+)\\\"?"@
}

pub open spec fn retry_text_source() -> Seq<char> {
    "(?i)try\\s+again\\s+in\\s+(\\d+)\\s*(?:seconds|second|sec|s)"@
}

pub open spec fn used_of_source() -> Seq<char> {
    "(?i)used\\s+(\\d{2,})\\s+of\\s+(\\d{2,})\\s+tokens"@
}

pub open spec fn fraction_source() -> Seq<char> {
    "(?i)(\\d{2,})\\s*/\\s*(\\d{2,})\\s*tokens?"@
}

pub open spec fn used_count_source() -> Seq<char> {
    "(?i)(\\d{2,})\\s*tokens?\\s*(?:used|consumed|spent)"@
}

/// Every pattern in `srcs` compiles.
pub open spec fn all_compile(srcs: Seq<Seq<char>>) -> bool {
    forall|i: int| 0 <= i < srcs.len() ==> #[trigger] regex_compiles(srcs[i])
}

/// The match of the first pattern, in order, that matches `text`.
pub open spec fn first_find(srcs: Seq<Seq<char>>, text: Seq<char>) -> Option<Seq<char>>
    decreases srcs.len(),
{
    if srcs.len() == 0 {
        None
    } else {
        match regex_find(srcs[0], text) {
            Some(m) => Some(m),
            None => first_find(srcs.drop_first(), text),
        }
    }
}

/// The number in capture group `g` of `src`'s first match in `text`, when
/// it parses and is at most `max`.
pub open spec fn captured_number(src: Seq<char>, text: Seq<char>, g: int, max: nat) -> Option<nat> {
    if !regex_compiles(src) {
        None
    } else {
        group_number(regex_captures(src, text), g, max)
    }
}

/// The number in group `g` of a match's groups, when it parses and is at
/// most `max`.
pub open spec fn group_number(caps: Option<Seq<Option<Seq<char>>>>, g: int, max: nat) -> Option<nat> {
    match caps {
        Some(groups) => if 0 <= g < groups.len() {
            match groups[g] {
                Some(t) => parse_unsigned(t, max),
                None => None,
            }
        } else {
            None
        },
        None => None,
    }
}

pub open spec fn u64_max() -> nat {
    0xffff_ffff_ffff_ffff
}

pub open spec fn u32_max() -> nat {
    0xffff_ffff
}

/// How long a rate limit asks to wait, and where that came from: a
/// `Retry-After` header, a `retry_after` field, a "try again in" text, or
/// the configured default, in that order.
pub open spec fn retry_after_spec(default_secs: u64, text: Seq<char>) -> (u64, RetryAfterSource) {
    match captured_number(retry_header_source(), text, 1, u64_max()) {
        Some(n) => (n as u64, RetryAfterSource::Header),
        None => match captured_number(retry_json_source(), text, 1, u64_max()) {
            Some(n) => (n as u64, RetryAfterSource::ResponseBody),
            None => match captured_number(retry_text_source(), text, 1, u64_max()) {
                Some(n) => (n as u64, RetryAfterSource::TextParsed),
                None => (default_secs, RetryAfterSource::ConfigDefault),
            },
        },
    }
}

/// Context size of the first known model named in the (lower-cased) text.
pub open spec fn model_size(models: Seq<(Seq<char>, u32)>, lowered: Seq<char>, default_size: u32) -> u32
    decreases models.len(),
{
    if models.len() == 0 {
        default_size
    } else if contains(lowered, models[0].0) {
        models[0].1
    } else {
        model_size(models.drop_first(), lowered, default_size)
    }
}

/// Tokens used and context size stated by the text: "used N of M tokens",
/// "N/M tokens", or "N tokens used" with the size of a named model.
pub open spec fn token_usage_spec(models: Seq<(Seq<char>, u32)>, default_size: u32, text: Seq<char>)
    -> Option<(u32, u32)>
{
    match (captured_number(used_of_source(), text, 1, u32_max()), captured_number(used_of_source(), text, 2, u32_max())) {
        (Some(u), Some(t)) => Some((u as u32, t as u32)),
        _ => match (captured_number(fraction_source(), text, 1, u32_max()),
            captured_number(fraction_source(), text, 2, u32_max())) {
            (Some(u), Some(t)) => Some((u as u32, t as u32)),
            _ => match captured_number(used_count_source(), text, 1, u32_max()) {
                Some(u) => Some((u as u32, model_size(models, unicode_lowercase(text), default_size))),
                None => None,
            },
        },
    }
}

/// `used / total` reaches `threshold` percent (a used count over an empty
/// context counts as exhausted, nothing over nothing does not).
pub open spec fn reaches_threshold(used: u32, total: u32, threshold: u32) -> bool {
    if total == 0 {
        used > 0
    } else {
        used * 100 >= threshold * total
    }
}

/// Token usage counts as exhausting the context exactly when it is at least
/// the threshold's share of it: more usage never un-exhausts, a full
/// context reaches any threshold up to 100%, and no usage of a non-empty
/// context reaches a positive threshold.
pub proof fn lemma_threshold_is_a_lower_bound(used: u32, more: u32, total: u32, threshold: u32)
    ensures
        total > 0 ==> (reaches_threshold(used, total, threshold)
            <==> (used as int) * 100 >= (threshold as int) * (total as int)),
        reaches_threshold(used, total, threshold) && used <= more ==> reaches_threshold(more, total, threshold),
        total > 0 && threshold <= 100 ==> reaches_threshold(total, total, threshold),
        total > 0 && threshold > 0 ==> !reaches_threshold(0, total, threshold),
        total > 0 && (used as int) * 100 < (threshold as int) * (total as int) ==> !reaches_threshold(used, total, threshold),
{
    if total > 0 {
        assert((used as int) * 100 <= (more as int) * 100 || more < used) by (nonlinear_arith);
        assert(threshold <= 100 ==> (threshold as int) * (total as int) <= (total as int) * 100) by (nonlinear_arith);
        assert(threshold > 0 ==> (threshold as int) * (total as int) > 0) by (nonlinear_arith)
            requires total > 0;
    }
}

/// `n / d` rounded to the nearest integer, ties to even.
pub open spec fn round_half_even(n: nat, d: nat) -> nat
    recommends
        d > 0,
{
    let q = n / d;
    let r = n % d;
    if 2 * r > d {
        q + 1
    } else if 2 * r < d {
        q
    } else if q % 2 == 0 {
        q
    } else {
        q + 1
    }
}

/// The usage percentage as shown in evidence.
pub open spec fn usage_percent_text(used: u32, total: u32) -> Seq<char> {
    if total == 0 {
        "inf"@
    } else {
        dec(round_half_even(used as nat * 100, total as nat))
    }
}

/// Context exhaustion: (tokens used, context size, matched text, evidence).
pub open spec fn context_spec(
    ctx: Seq<Seq<char>>,
    models: Seq<(Seq<char>, u32)>,
    default_size: u32,
    threshold: u32,
    text: Seq<char>,
) -> Option<(Option<u32>, Option<u32>, Option<Seq<char>>, Seq<char>)> {
    match first_find(ctx, text) {
        Some(m) => match token_usage_spec(models, default_size, text) {
            Some((u, t)) => Some((Some(u), Some(t), Some(m), "matched context pattern: "@ + m)),
            None => Some((None, None, Some(m), "matched context pattern: "@ + m)),
        },
        None => match token_usage_spec(models, default_size, text) {
            Some((u, t)) => if reaches_threshold(u, t, threshold) {
                Some((Some(u), Some(t), None,
                    "token usage "@ + usage_percent_text(u, t) + "% exceeds threshold "@ + dec(threshold as nat) + "%"@))
            } else {
                None
            },
            None => None,
        },
    }
}

/// With no context pattern in the text, the text reports an exhausted
/// context exactly when its token usage is at least the threshold's share
/// of its context size, and then with that usage and size.
pub proof fn lemma_usage_decides_exhaustion(ctx: Seq<Seq<char>>, models: Seq<(Seq<char>, u32)>, default_size: u32,
    threshold: u32, text: Seq<char>, used: u32, total: u32)
    requires
        first_find(ctx, text) is None,
        token_usage_spec(models, default_size, text) == Some((used, total)),
        total > 0,
    ensures
        context_spec(ctx, models, default_size, threshold, text) is Some
            <==> (used as int) * 100 >= (threshold as int) * (total as int),
        context_spec(ctx, models, default_size, threshold, text) matches Some((u, t, m, _))
            ==> u == Some(used) && t == Some(total) && m is None,
{
    lemma_threshold_is_a_lower_bound(used, used, total, threshold);
}

/// Where a rate limit's wait comes from, in order of precedence: a
/// `Retry-After` header wins, then a `retry_after` field, then a "try again
/// in" text; only with none of them does the configured default apply.
pub proof fn lemma_retry_after_precedence(default_secs: u64, text: Seq<char>, n: nat)
    ensures
        captured_number(retry_header_source(), text, 1, u64_max()) == Some(n)
            ==> retry_after_spec(default_secs, text) == (n as u64, RetryAfterSource::Header),
        captured_number(retry_header_source(), text, 1, u64_max()) is None
            && captured_number(retry_json_source(), text, 1, u64_max()) == Some(n)
            ==> retry_after_spec(default_secs, text) == (n as u64, RetryAfterSource::ResponseBody),
        captured_number(retry_header_source(), text, 1, u64_max()) is None
            && captured_number(retry_json_source(), text, 1, u64_max()) is None
            && captured_number(retry_text_source(), text, 1, u64_max()) == Some(n)
            ==> retry_after_spec(default_secs, text) == (n as u64, RetryAfterSource::TextParsed),
        retry_after_spec(default_secs, text).1 == RetryAfterSource::ConfigDefault
            ==> retry_after_spec(default_secs, text).0 == default_secs
                && captured_number(retry_header_source(), text, 1, u64_max()) is None
                && captured_number(retry_json_source(), text, 1, u64_max()) is None
                && captured_number(retry_text_source(), text, 1, u64_max()) is None,
        retry_after_spec(default_secs, text).1 == RetryAfterSource::Header
            ==> captured_number(retry_header_source(), text, 1, u64_max())
                == Some(retry_after_spec(default_secs, text).0 as nat),
{
}

/// The lower-cased text mentions an error.
pub open spec fn has_error_indicators(text: Seq<char>) -> bool {
    let l = unicode_lowercase(text);
    contains(l, "error"@) || contains(l, "exception"@) || contains(l, "failed"@) || contains(l, "panic"@)
        || contains(l, "crash"@)
}

/// User exit: (kind, exit code, message, evidence).
pub open spec fn user_exit_spec(user: Seq<Seq<char>>, text: Seq<char>, exit_code: Option<i32>)
    -> Option<(UserExitType, Option<i32>, Option<Seq<char>>, Seq<char>)>
{
    if exit_code == Some(130i32) {
        Some((UserExitType::CtrlC, exit_code, Some("User pressed Ctrl+C"@), "exit code 130 (SIGINT/Ctrl+C)"@))
    } else if exit_code == Some(143i32) {
        Some((UserExitType::UserTerminated, exit_code, Some("Process terminated"@), "exit code 143 (SIGTERM)"@))
    } else if exit_code == Some(129i32) {
        Some((UserExitType::TerminalClosed, exit_code, Some("Terminal closed"@), "exit code 129 (SIGHUP)"@))
    } else if exit_code is Some && exit_code != Some(0i32) {
        None
    } else if has_error_indicators(text) {
        None
    } else {
        match first_find(user, text) {
            Some(m) => Some((UserExitType::ExitCommand, exit_code, Some(m), "matched user exit pattern: "@ + m)),
            None => if exit_code == Some(0i32) {
                Some((UserExitType::CleanExit, Some(0i32), None, "clean exit code 0"@))
            } else {
                None
            },
        }
    }
}

/// Evidence that the session's frontmatter marks it finished: its status is
/// `complete`, or it is not `in-progress` and has completed as many steps as
/// its last step.
pub open spec fn completion_spec(s: Option<SessionState>) -> Option<Seq<char>> {
    match s {
        None => None,
        Some(st) => if opt_text(st.status) == Some("complete"@) {
            Some("session status is complete"@)
        } else {
            match st.last_step {
                Some(ls) => if opt_text(st.status) != Some("in-progress"@) && ls >= 0
                    && st.steps_completed@.len() >= ls {
                    Some("stepsCompleted "@ + dec(st.steps_completed@.len()) + " reached lastStep "@ + dec_int(ls as int))
                } else {
                    None
                },
                None => None,
            }
        },
    }
}

/// `base` percent raised by 3 for each piece of evidence after the first,
/// at most 98.
pub open spec fn confidence_spec(evidence_len: nat, base: nat) -> nat {
    let extra = if evidence_len >= 1 { 3 * (evidence_len - 1) } else { 0 };
    if base + extra < 98 { (base + extra) as nat } else { 98 }
}

/// Abstract stop reason.
pub enum Reason {
    RateLimit(u64, RetryAfterSource, Option<Seq<char>>),
    ContextExhausted(Option<(Option<u32>, Option<u32>, Option<Seq<char>>)>),
    UserExit(UserExitType, Option<i32>, Option<Seq<char>>),
    Completed,
    Unknown(Seq<char>),
}

pub open spec fn reason_view(r: StopReason) -> Reason {
    match r {
        StopReason::RateLimit(i) => Reason::RateLimit(i.retry_after_secs, i.source, opt_text(i.message)),
        StopReason::ContextExhausted(c) => Reason::ContextExhausted(match c {
            Some(i) => Some((i.tokens_used, i.context_size, opt_text(i.message))),
            None => None,
        }),
        StopReason::UserExit(i) => Reason::UserExit(i.exit_type, i.exit_code, opt_text(i.message)),
        StopReason::Completed => Reason::Completed,
        StopReason::Unknown(s) => Reason::Unknown(s@),
    }
}

/// The classification of a text: rate limit first, then completion (when the
/// frontmatter is known), context exhaustion, user exit, and otherwise
/// unknown; with the confidence and evidence of the rule that fired.
pub open spec fn classify_spec(
    rate: Seq<Seq<char>>,
    ctx: Seq<Seq<char>>,
    user: Seq<Seq<char>>,
    cfg: ClassifierConfig,
    text: Seq<char>,
    session: Option<SessionState>,
    exit_code: Option<i32>,
) -> (Reason, nat, Seq<Seq<char>>) {
    match first_find(rate, text) {
        Some(m) => {
            let (secs, src) = retry_after_spec(cfg.default_retry_wait_secs, text);
            (Reason::RateLimit(secs, src, Some(m)), confidence_spec(1, 85), seq!["matched pattern: "@ + m])
        },
        None => match completion_spec(session) {
            Some(ev) => (Reason::Completed, 95, seq![ev]),
            None => match context_spec(ctx, model_views(cfg.known_context_sizes@), cfg.default_context_size,
                cfg.context_threshold_percent, text) {
                Some((u, t, m, ev)) => (Reason::ContextExhausted(Some((u, t, m))), confidence_spec(1, 78), seq![ev]),
                None => match user_exit_spec(user, text, exit_code) {
                    Some((k, c, m, ev)) => (Reason::UserExit(k, c, m), confidence_spec(1, 75), seq![ev]),
                    None => (Reason::Unknown("No matching patterns"@), 20, seq![]),
                },
            },
        },
    }
}

/// Rate-limit evidence decides the classification whatever else the text
/// or the session shows; a session recorded as complete, without such
/// evidence, is classified as completed.
pub proof fn lemma_classification_priority(rate: Seq<Seq<char>>, ctx: Seq<Seq<char>>, user: Seq<Seq<char>>,
    cfg: ClassifierConfig, text: Seq<char>, session: Option<SessionState>, exit_code: Option<i32>)
    ensures
        first_find(rate, text) is Some ==> classify_spec(rate, ctx, user, cfg, text, session, exit_code).0 is RateLimit,
        session matches Some(st) ==> (first_find(rate, text) is None && opt_text(st.status) == Some("complete"@)
            ==> classify_spec(rate, ctx, user, cfg, text, session, exit_code).0 is Completed),
{
}

/// A classification's confidence is a percentage: never above 98 for what
/// patterns suggest, 95 for a completed session, 20 when nothing matched.
pub proof fn lemma_confidence_bounded(rate: Seq<Seq<char>>, ctx: Seq<Seq<char>>, user: Seq<Seq<char>>,
    cfg: ClassifierConfig, text: Seq<char>, session: Option<SessionState>, exit_code: Option<i32>)
    ensures
        classify_spec(rate, ctx, user, cfg, text, session, exit_code).1 <= 98,
{
}

// ---------------------------------------------------------------------------
// Classifier
// ---------------------------------------------------------------------------

pub open spec fn strs(v: Seq<&str>) -> Seq<Seq<char>> {
    v.map_values(|s: &str| s@)
}

fn builtin_rate_limit_patterns() -> (r: Vec<&'static str>)
    ensures
        strs(r@) == builtin_rate_limit_sources(),
{
    let r = vec![
        "(?i)rate[_-]?limit[_-]?error",
        "(?i)rate\\s+limit\\s+reached",
        "(?i)\\b429\\b",
        "(?i)too\\s+many\\s+requests",
        "(?i)quota\\s+exceeded",
        "(?i)overloaded[_-]?error|overloaded",
        "(?i)throttl",
    ];
    proof { assert(strs(r@) =~= builtin_rate_limit_sources()); }
    r
}

fn builtin_context_patterns() -> (r: Vec<&'static str>)
    ensures
        strs(r@) == builtin_context_sources(),
{
    let r = vec![
        "(?i)context[_-]?length[_-]?exceeded",
        "(?i)maximum\\s+context\\s+length",
        "(?i)token\\s+limit\\s+exceeded",
        "(?i)conversation\\s+too\\s+long",
        "(?i)context\\s+window\\s+(?:full|exceeded|limit)",
        "(?i)max\\s*tokens?\\s+reached",
        "(?i)prompt\\s+is\\s+too\\s+long",
        "(?i)context\\s+(?:truncated|reset)",
        "(?i)conversation\\s+reset",
    ];
    proof { assert(strs(r@) =~= builtin_context_sources()); }
    r
}

fn builtin_user_exit_patterns() -> (r: Vec<&'static str>)
    ensures
        strs(r@) == builtin_user_exit_sources(),
{
    let r = vec![
        "(?im)^\\s*exit\\s*$",
        "(?im)^\\s*quit\\s*$",
        "(?im)^\\s*/bye\\s*$",
        "(?im)^\\s*goodbye\\s*$",
        "(?im)^\\s*done\\s*$",
        "(?i)keyboard\\s+interrupt",
        "(?i)interrupted\\s+by\\s+user",
        "(?i)sigint\\s+received",
    ];
    proof { assert(strs(r@) =~= builtin_user_exit_sources()); }
    r
}

/// Compiles `srcs` in order onto the end of `out`.
fn compile_strs(out: &mut Vec<Pattern>, srcs: &Vec<&str>) -> (r: Result<(), ClassifierError>)
    ensures
        r is Ok <==> all_compile(strs(srcs@)),
        r is Ok ==> sources(final(out)@) == sources(old(out)@) + strs(srcs@),
{
    let n = srcs.len();
    let mut i: usize = 0;
    while i < n
        invariant
            n == srcs@.len(),
            i <= n,
            sources(out@) == sources(old(out)@) + strs(srcs@).take(i as int),
            forall|j: int| 0 <= j < i ==> #[trigger] regex_compiles(strs(srcs@)[j]),
        decreases n - i,
    {
        match Pattern::new(srcs[i]) {
            Ok(p) => {
                let ghost before = sources(out@);
                out.push(p);
                proof {
                    assert(sources(out@) =~= before.push(p.source_text()));
                    assert(strs(srcs@).take(i as int + 1) =~= strs(srcs@).take(i as int).push(srcs@[i as int]@));
                }
            },
            Err(e) => {
                proof { assert(!regex_compiles(strs(srcs@)[i as int])); }
                return Err(ClassifierError::Pattern(e));
            },
        }
        i = i + 1;
    }
    proof { assert(strs(srcs@).take(n as int) =~= strs(srcs@)); }
    Ok(())
}

/// Compiles `srcs` in order onto the end of `out`.
fn compile_strings(out: &mut Vec<Pattern>, srcs: &Vec<String>) -> (r: Result<(), ClassifierError>)
    ensures
        r is Ok <==> all_compile(texts(srcs@)),
        r is Ok ==> sources(final(out)@) == sources(old(out)@) + texts(srcs@),
{
    let n = srcs.len();
    let mut i: usize = 0;
    while i < n
        invariant
            n == srcs@.len(),
            i <= n,
            sources(out@) == sources(old(out)@) + texts(srcs@).take(i as int),
            forall|j: int| 0 <= j < i ==> #[trigger] regex_compiles(texts(srcs@)[j]),
        decreases n - i,
    {
        match Pattern::new(srcs[i].as_str()) {
            Ok(p) => {
                let ghost before = sources(out@);
                out.push(p);
                proof {
                    assert(sources(out@) =~= before.push(p.source_text()));
                    assert(texts(srcs@).take(i as int + 1) =~= texts(srcs@).take(i as int).push(srcs@[i as int]@));
                }
            },
            Err(e) => {
                proof { assert(!regex_compiles(texts(srcs@)[i as int])); }
                return Err(ClassifierError::Pattern(e));
            },
        }
        i = i + 1;
    }
    proof { assert(texts(srcs@).take(n as int) =~= texts(srcs@)); }
    Ok(())
}

/// Classifies why sessions stopped.
pub struct StopReasonClassifier {
    config: ClassifierConfig,
    rate_limit_patterns: Vec<Pattern>,
    context_patterns: Vec<Pattern>,
    user_exit_patterns: Vec<Pattern>,
}


/// Every pattern a classifier for `config` uses compiles: the built-in ones
/// followed by the configured extra ones.
pub open spec fn config_compiles(config: ClassifierConfig) -> bool {
    &&& all_compile(builtin_rate_limit_sources() + texts(config.extra_rate_limit_patterns@))
    &&& all_compile(builtin_context_sources() + texts(config.extra_context_patterns@))
    &&& all_compile(builtin_user_exit_sources())
}

impl StopReasonClassifier {
    pub closed spec fn cfg(self) -> ClassifierConfig {
        self.config
    }

    pub closed spec fn rate_sources(self) -> Seq<Seq<char>> {
        sources(self.rate_limit_patterns@)
    }

    pub closed spec fn context_sources(self) -> Seq<Seq<char>> {
        sources(self.context_patterns@)
    }

    pub closed spec fn user_exit_sources(self) -> Seq<Seq<char>> {
        sources(self.user_exit_patterns@)
    }

    /// A classifier with the default configuration.
    pub fn new() -> (r: Result<Self, ClassifierError>)
        ensures
            r is Ok <==> all_compile(builtin_rate_limit_sources()) && all_compile(builtin_context_sources())
                && all_compile(builtin_user_exit_sources()),
            r matches Ok(c) ==> c.rate_sources() == builtin_rate_limit_sources()
                && c.context_sources() == builtin_context_sources()
                && c.user_exit_sources() == builtin_user_exit_sources(),
    {
        let r = Self::with_config(ClassifierConfig::default());
        proof {
            assert(builtin_rate_limit_sources() + Seq::<Seq<char>>::empty() =~= builtin_rate_limit_sources());
            assert(builtin_context_sources() + Seq::<Seq<char>>::empty() =~= builtin_context_sources());
        }
        r
    }

    /// A classifier for `config`: the built-in patterns followed by the
    /// configured extra ones. Fails when a pattern does not compile.
    pub fn with_config(config: ClassifierConfig) -> (r: Result<Self, ClassifierError>)
        ensures
            r is Ok <==> config_compiles(config),
            r matches Ok(c) ==> c.cfg() == config
                && c.rate_sources() == builtin_rate_limit_sources() + texts(config.extra_rate_limit_patterns@)
                && c.context_sources() == builtin_context_sources() + texts(config.extra_context_patterns@)
                && c.user_exit_sources() == builtin_user_exit_sources(),
    {
        let ghost rb = builtin_rate_limit_sources();
        let ghost re = texts(config.extra_rate_limit_patterns@);
        let ghost cb = builtin_context_sources();
        let ghost ce = texts(config.extra_context_patterns@);
        let mut rate: Vec<Pattern> = Vec::new();
        let r1 = compile_strs(&mut rate, &builtin_rate_limit_patterns());
        if r1.is_err() {
            proof { assert(!all_compile(rb + re)) by {
                let j = choose|j: int| 0 <= j < rb.len() && !regex_compiles(rb[j]);
                assert((rb + re)[j] == rb[j]);
            } }
            return Err(r1.unwrap_err());
        }
        let r2 = compile_strings(&mut rate, &config.extra_rate_limit_patterns);
        if r2.is_err() {
            proof { assert(!all_compile(rb + re)) by {
                let j = choose|j: int| 0 <= j < re.len() && !regex_compiles(re[j]);
                assert((rb + re)[rb.len() + j] == re[j]);
            } }
            return Err(r2.unwrap_err());
        }
        proof {
            assert(sources(rate@) =~= rb + re);
            assert(all_compile(rb + re)) by {
                assert forall|j: int| 0 <= j < (rb + re).len() implies #[trigger] regex_compiles((rb + re)[j]) by {
                    if j < rb.len() { assert((rb + re)[j] == rb[j]); } else { assert((rb + re)[j] == re[j - rb.len()]); }
                }
            }
        }
        let mut ctx: Vec<Pattern> = Vec::new();
        let r3 = compile_strs(&mut ctx, &builtin_context_patterns());
        if r3.is_err() {
            proof { assert(!all_compile(cb + ce)) by {
                let j = choose|j: int| 0 <= j < cb.len() && !regex_compiles(cb[j]);
                assert((cb + ce)[j] == cb[j]);
            } }
            return Err(r3.unwrap_err());
        }
        let r4 = compile_strings(&mut ctx, &config.extra_context_patterns);
        if r4.is_err() {
            proof { assert(!all_compile(cb + ce)) by {
                let j = choose|j: int| 0 <= j < ce.len() && !regex_compiles(ce[j]);
                assert((cb + ce)[cb.len() + j] == ce[j]);
            } }
            return Err(r4.unwrap_err());
        }
        proof {
            assert(sources(ctx@) =~= cb + ce);
            assert(all_compile(cb + ce)) by {
                assert forall|j: int| 0 <= j < (cb + ce).len() implies #[trigger] regex_compiles((cb + ce)[j]) by {
                    if j < cb.len() { assert((cb + ce)[j] == cb[j]); } else { assert((cb + ce)[j] == ce[j - cb.len()]); }
                }
            }
        }
        let mut user: Vec<Pattern> = Vec::new();
        let r5 = compile_strs(&mut user, &builtin_user_exit_patterns());
        if r5.is_err() {
            return Err(r5.unwrap_err());
        }
        proof { assert(sources(user@) =~= builtin_user_exit_sources()); }
        Ok(StopReasonClassifier { config, rate_limit_patterns: rate, context_patterns: ctx, user_exit_patterns: user })
    }
}

pub open spec fn session_opt(s: Option<&SessionState>) -> Option<SessionState> {
    match s {
        Some(x) => Some(*x),
        None => None,
    }
}

pub open spec fn result_view(r: ClassificationResult) -> (Reason, nat, Seq<Seq<char>>) {
    (reason_view(r.reason), r.confidence_percent as nat, texts(r.evidence@))
}

/// The match of the first pattern, in order, that matches `text`.
fn first_match(ps: &Vec<Pattern>, text: &str) -> (r: Option<String>)
    ensures
        opt_text(r) == first_find(sources(ps@), text@),
{
    let n = ps.len();
    let mut i: usize = 0;
    proof { assert(sources(ps@).skip(0) =~= sources(ps@)); }
    while i < n
        invariant
            n == ps@.len(),
            i <= n,
            first_find(sources(ps@), text@) == first_find(sources(ps@).skip(i as int), text@),
        decreases n - i,
    {
        proof {
            assert(sources(ps@).skip(i as int)[0] == ps@[i as int].source_text());
            assert(sources(ps@).skip(i as int).drop_first() =~= sources(ps@).skip(i as int + 1));
        }
        match ps[i].find(text) {
            Some(m) => {
                return Some(m);
            },
            None => {},
        }
        i = i + 1;
    }
    None
}

/// The groups of the first match of a freshly compiled `src` in `text`;
/// nothing when `src` does not compile.
fn capture_groups(src: &str, text: &str) -> (r: Option<Vec<Option<String>>>)
    ensures
        regex_compiles(src@) ==> crate::monitor::pattern::groups_view(r) == regex_captures(src@, text@),
        !regex_compiles(src@) ==> r is None,
{
    match Pattern::new(src) {
        Ok(p) => p.captures(text),
        Err(_) => None,
    }
}

fn group_num(caps: &Option<Vec<Option<String>>>, g: usize, max: u64) -> (r: Option<u64>)
    ensures
        match r {
            Some(n) => group_number(crate::monitor::pattern::groups_view(*caps), g as int, max as nat) == Some(n as nat),
            None => group_number(crate::monitor::pattern::groups_view(*caps), g as int, max as nat) is None,
        },
{
    match caps {
        Some(groups) => {
            if g < groups.len() {
                match &groups[g] {
                    Some(t) => {
                        let c = chars_of(t.as_str());
                        parse_unsigned_chars(c.as_slice(), max)
                    },
                    None => None,
                }
            } else {
                None
            }
        },
        None => None,
    }
}

fn capture_number(src: &str, text: &str, g: usize, max: u64) -> (r: Option<u64>)
    ensures
        match r {
            Some(n) => captured_number(src@, text@, g as int, max as nat) == Some(n as nat),
            None => captured_number(src@, text@, g as int, max as nat) is None,
        },
{
    let caps = capture_groups(src, text);
    group_num(&caps, g, max)
}

fn capture_pair(src: &str, text: &str) -> (r: Option<(u32, u32)>)
    ensures
        match r {
            Some((u, t)) => captured_number(src@, text@, 1, u32_max()) == Some(u as nat)
                && captured_number(src@, text@, 2, u32_max()) == Some(t as nat),
            None => !(captured_number(src@, text@, 1, u32_max()) is Some
                && captured_number(src@, text@, 2, u32_max()) is Some),
        },
{
    let caps = capture_groups(src, text);
    let u = group_num(&caps, 1, 0xffff_ffff);
    let t = group_num(&caps, 2, 0xffff_ffff);
    match (u, t) {
        (Some(a), Some(b)) => Some((a as u32, b as u32)),
        _ => None,
    }
}

/// `base` percent raised by 3 for each piece of evidence after the first,
/// at most 98.
pub fn confidence_from_evidence(evidence_len: usize, base: u32) -> (r: u32)
    requires
        base <= 98,
    ensures
        r == confidence_spec(evidence_len as nat, base as nat),
{
    let k: u64 = if evidence_len >= 1 { (evidence_len - 1) as u64 } else { 0 };
    if k > 40 {
        return 98;
    }
    let extra: u64 = 3 * k;
    if (base as u64) + extra < 98 {
        (base as u64 + extra) as u32
    } else {
        98
    }
}

/// `n / d` rounded to the nearest integer, ties to even.
fn round_half_even_exec(n: u64, d: u64) -> (r: u64)
    requires
        d > 0,
        n < 0x4000_0000_0000_0000u64,
        d < 0x4000_0000_0000_0000u64,
    ensures
        r == round_half_even(n as nat, d as nat),
{
    let q = n / d;
    let r = n % d;
    if 2 * r > d {
        q + 1
    } else if 2 * r < d {
        q
    } else if q % 2 == 0 {
        q
    } else {
        q + 1
    }
}

fn usage_text(used: u32, total: u32) -> (r: String)
    ensures
        r@ == usage_percent_text(used, total),
{
    if total == 0 {
        "inf".to_string()
    } else {
        let n = (used as u64) * 100;
        u64_to_string(round_half_even_exec(n, total as u64))
    }
}

/// The session's frontmatter marks it finished; the evidence says why.
pub fn completion_evidence(session: Option<&SessionState>) -> (r: Option<String>)
    ensures
        opt_text(r) == completion_spec(session_opt(session)),
{
    match session {
        None => None,
        Some(st) => {
            let complete = match &st.status {
                Some(s) => {
                    let c = chars_of(s.as_str());
                    chars_eq_str(c.as_slice(), "complete")
                },
                None => false,
            };
            if complete {
                return Some("session status is complete".to_string());
            }
            match st.last_step {
                Some(ls) => {
                    let in_progress = match &st.status {
                        Some(s) => {
                            let c = chars_of(s.as_str());
                            chars_eq_str(c.as_slice(), "in-progress")
                        },
                        None => false,
                    };
                    let count = st.steps_completed.len();
                    if !in_progress && ls >= 0 && (count as u64) >= (ls as u64) {
                        let mut ev = "stepsCompleted ".to_string();
                        let cs = u64_to_string(count as u64);
                        ev.append(cs.as_str());
                        ev.append(" reached lastStep ");
                        let ls_text = u64_to_string(ls as u64);
                        ev.append(ls_text.as_str());
                        proof { assert(dec_int(ls as int) == dec(ls as nat)); }
                        Some(ev)
                    } else {
                        None
                    }
                },
                None => None,
            }
        },
    }
}

/// The lower-cased text mentions an error.
pub fn has_error_indicators_text(text: &str) -> (r: bool)
    ensures
        r == has_error_indicators(text@),
{
    let l = to_lowercase_string(text);
    let lc = chars_of(l.as_str());
    let e1 = chars_of("error");
    let e2 = chars_of("exception");
    let e3 = chars_of("failed");
    let e4 = chars_of("panic");
    let e5 = chars_of("crash");
    contains_chars(lc.as_slice(), e1.as_slice()) || contains_chars(lc.as_slice(), e2.as_slice())
        || contains_chars(lc.as_slice(), e3.as_slice()) || contains_chars(lc.as_slice(), e4.as_slice())
        || contains_chars(lc.as_slice(), e5.as_slice())
}

impl StopReasonClassifier {
    /// How long a rate limit asks to wait (see [`retry_after_spec`]).
    pub fn extract_retry_after(&self, text: &str) -> (r: (u64, RetryAfterSource))
        ensures
            r == retry_after_spec(self.cfg().default_retry_wait_secs, text@),
    {
        let h = "(?i)retry-after[:\\s]+(\\d+)";
        let j = "\\\"retry_after\\\"\\s*:\\s*\\\"?(\\d+)\\\"?";
        let t = "(?i)try\\s+again\\s+in\\s+(\\d+)\\s*(?:seconds|second|sec|s)";
        match capture_number(h, text, 1, 0xffff_ffff_ffff_ffff) {
            Some(n) => (n, RetryAfterSource::Header),
            None => match capture_number(j, text, 1, 0xffff_ffff_ffff_ffff) {
                Some(n) => (n, RetryAfterSource::ResponseBody),
                None => match capture_number(t, text, 1, 0xffff_ffff_ffff_ffff) {
                    Some(n) => (n, RetryAfterSource::TextParsed),
                    None => (self.config.default_retry_wait_secs, RetryAfterSource::ConfigDefault),
                },
            },
        }
    }

    /// Context size of the first known model the text names, or the default.
    pub fn infer_context_size(&self, text: &str) -> (r: u32)
        ensures
            r == model_size(model_views(self.cfg().known_context_sizes@), unicode_lowercase(text@),
                self.cfg().default_context_size),
    {
        let l = to_lowercase_string(text);
        let lc = chars_of(l.as_str());
        let models = &self.config.known_context_sizes;
        let ghost mv = model_views(models@);
        let n = models.len();
        let mut i: usize = 0;
        proof { assert(mv.skip(0) =~= mv); }
        while i < n
            invariant
                n == models@.len(),
                i <= n,
                models@ == self.config.known_context_sizes@,
                mv == model_views(models@),
                lc@ == unicode_lowercase(text@),
                model_size(mv, lc@, self.config.default_context_size)
                    == model_size(mv.skip(i as int), lc@, self.config.default_context_size),
            decreases n - i,
        {
            proof {
                assert(mv.skip(i as int)[0] == (models@[i as int].0@, models@[i as int].1));
                assert(mv.skip(i as int).drop_first() =~= mv.skip(i as int + 1));
            }
            let mc = chars_of(models[i].0.as_str());
            if contains_chars(lc.as_slice(), mc.as_slice()) {
                proof {
                    let rest = mv.skip(i as int);
                    assert(rest.len() > 0);
                    assert(rest[0].0 == mc@);
                    assert(model_size(rest, lc@, self.config.default_context_size) == rest[0].1);
                    assert(self.cfg().known_context_sizes@ == models@);
                    assert(model_views(self.cfg().known_context_sizes@) == mv);
                    assert(model_size(mv, lc@, self.config.default_context_size) == rest[0].1);
                }
                return models[i].1;
            }
            i = i + 1;
        }
        self.config.default_context_size
    }

    /// Tokens used and context size stated by the text (see
    /// [`token_usage_spec`]).
    pub fn extract_token_usage(&self, text: &str) -> (r: Option<(u32, u32)>)
        ensures
            r == token_usage_spec(model_views(self.cfg().known_context_sizes@), self.cfg().default_context_size,
                text@),
    {
        let p1 = "(?i)used\\s+(\\d{2,})\\s+of\\s+(\\d{2,})\\s+tokens";
        let p2 = "(?i)(\\d{2,})\\s*/\\s*(\\d{2,})\\s*tokens?";
        let p3 = "(?i)(\\d{2,})\\s*tokens?\\s*(?:used|consumed|spent)";
        match capture_pair(p1, text) {
            Some(x) => Some(x),
            None => match capture_pair(p2, text) {
                Some(x) => Some(x),
                None => match capture_number(p3, text, 1, 0xffff_ffff) {
                    Some(u) => Some((u as u32, self.infer_context_size(text))),
                    None => None,
                },
            },
        }
    }

    fn detect_context_exhaustion(&self, text: &str) -> (r: Option<(Option<u32>, Option<u32>, Option<String>, String)>)
        ensures
            match r {
                Some((u, t, m, ev)) => context_spec(self.context_sources(), model_views(self.cfg().known_context_sizes@),
                    self.cfg().default_context_size, self.cfg().context_threshold_percent, text@)
                    == Some::<(Option<u32>, Option<u32>, Option<Seq<char>>, Seq<char>)>((u, t, opt_text(m), ev@)),
                None => context_spec(self.context_sources(), model_views(self.cfg().known_context_sizes@),
                    self.cfg().default_context_size, self.cfg().context_threshold_percent, text@) is None,
            },
    {
        match first_match(&self.context_patterns, text) {
            Some(m) => {
                let mut ev = "matched context pattern: ".to_string();
                ev.append(m.as_str());
                match self.extract_token_usage(text) {
                    Some((u, t)) => Some((Some(u), Some(t), Some(m), ev)),
                    None => Some((None, None, Some(m), ev)),
                }
            },
            None => match self.extract_token_usage(text) {
                Some((u, t)) => {
                    let thr = self.config.context_threshold_percent;
                    let reached = if t == 0 {
                        u > 0
                    } else {
                        let a: u64 = thr as u64;
                        let b: u64 = t as u64;
                        proof {
                            assert(a * b <= 0xffff_ffffu64 * 0xffff_ffffu64) by (nonlinear_arith)
                                requires
                                    a <= 0xffff_ffffu64,
                                    b <= 0xffff_ffffu64,
                            ;
                        }
                        (u as u64) * 100 >= a * b
                    };
                    if reached {
                        let mut ev = "token usage ".to_string();
                        let pct = usage_text(u, t);
                        ev.append(pct.as_str());
                        ev.append("% exceeds threshold ");
                        let ts = u64_to_string(thr as u64);
                        ev.append(ts.as_str());
                        ev.append("%");
                        Some((Some(u), Some(t), None, ev))
                    } else {
                        None
                    }
                },
                None => None,
            },
        }
    }

    fn detect_user_exit(&self, text: &str, exit_code: Option<i32>)
        -> (r: Option<(UserExitType, Option<i32>, Option<String>, String)>)
        ensures
            match r {
                Some((k, c, m, ev)) => user_exit_spec(self.user_exit_sources(), text@, exit_code)
                    == Some::<(UserExitType, Option<i32>, Option<Seq<char>>, Seq<char>)>((k, c, opt_text(m), ev@)),
                None => user_exit_spec(self.user_exit_sources(), text@, exit_code) is None,
            },
    {
        match exit_code {
            Some(code) => {
                if code == 130 {
                    return Some((UserExitType::CtrlC, exit_code, Some("User pressed Ctrl+C".to_string()),
                        "exit code 130 (SIGINT/Ctrl+C)".to_string()));
                } else if code == 143 {
                    return Some((UserExitType::UserTerminated, exit_code, Some("Process terminated".to_string()),
                        "exit code 143 (SIGTERM)".to_string()));
                } else if code == 129 {
                    return Some((UserExitType::TerminalClosed, exit_code, Some("Terminal closed".to_string()),
                        "exit code 129 (SIGHUP)".to_string()));
                } else if code != 0 {
                    return None;
                }
            },
            None => {},
        }
        if has_error_indicators_text(text) {
            return None;
        }
        match first_match(&self.user_exit_patterns, text) {
            Some(m) => {
                let mut ev = "matched user exit pattern: ".to_string();
                ev.append(m.as_str());
                Some((UserExitType::ExitCommand, exit_code, Some(m), ev))
            },
            None => {
                if exit_code == Some(0i32) {
                    Some((UserExitType::CleanExit, Some(0i32), None, "clean exit code 0".to_string()))
                } else {
                    None
                }
            },
        }
    }

    /// Classifies a text, checking completion against the session's
    /// frontmatter when it is known (see [`classify_spec`]).
    pub fn classify_with_session(&self, content: &str, session: Option<&SessionState>, exit_code: Option<i32>)
        -> (r: ClassificationResult)
        ensures
            result_view(r) == classify_spec(self.rate_sources(), self.context_sources(), self.user_exit_sources(),
                self.cfg(), content@, session_opt(session), exit_code),
    {
        let mut evidence: Vec<String> = Vec::new();
        match first_match(&self.rate_limit_patterns, content) {
            Some(m) => {
                let mut ev = "matched pattern: ".to_string();
                ev.append(m.as_str());
                evidence.push(ev);
                let (secs, source) = self.extract_retry_after(content);
                let confidence = confidence_from_evidence(evidence.len(), 85);
                let r = ClassificationResult {
                    reason: StopReason::RateLimit(RateLimitInfo { retry_after_secs: secs, source, message: Some(m) }),
                    confidence_percent: confidence,
                    evidence,
                };
                proof { assert(texts(r.evidence@) =~= seq![ev@]); }
                return r;
            },
            None => {},
        }
        match completion_evidence(session) {
            Some(ev) => {
                evidence.push(ev);
                let r = ClassificationResult { reason: StopReason::Completed, confidence_percent: 95, evidence };
                proof { assert(texts(r.evidence@) =~= seq![ev@]); }
                return r;
            },
            None => {},
        }
        match self.detect_context_exhaustion(content) {
            Some((u, t, m, ev)) => {
                evidence.push(ev);
                let confidence = confidence_from_evidence(evidence.len(), 78);
                let r = ClassificationResult {
                    reason: StopReason::ContextExhausted(Some(ContextExhaustionInfo {
                        tokens_used: u,
                        context_size: t,
                        message: m,
                    })),
                    confidence_percent: confidence,
                    evidence,
                };
                proof { assert(texts(r.evidence@) =~= seq![ev@]); }
                return r;
            },
            None => {},
        }
        match self.detect_user_exit(content, exit_code) {
            Some((k, c, m, ev)) => {
                evidence.push(ev);
                let confidence = confidence_from_evidence(evidence.len(), 75);
                let r = ClassificationResult {
                    reason: StopReason::UserExit(UserExitInfo { exit_type: k, exit_code: c, message: m }),
                    confidence_percent: confidence,
                    evidence,
                };
                proof { assert(texts(r.evidence@) =~= seq![ev@]); }
                return r;
            },
            None => {},
        }
        let r = ClassificationResult {
            reason: StopReason::Unknown("No matching patterns".to_string()),
            confidence_percent: 20,
            evidence,
        };
        proof { assert(texts(r.evidence@) =~= Seq::<Seq<char>>::empty()); }
        r
    }

    /// Classifies a text whose session frontmatter is not consulted.
    pub fn classify_content(&self, content: &str, exit_code: Option<i32>) -> (r: ClassificationResult)
        ensures
            result_view(r) == classify_spec(self.rate_sources(), self.context_sources(), self.user_exit_sources(),
                self.cfg(), content@, None, exit_code),
    {
        self.classify_with_session(content, None, exit_code)
    }
}

impl StopReason {
    /// Rate limits and exhausted contexts are resumed automatically.
    pub fn should_auto_resume(&self) -> (r: bool)
        ensures
            r == (*self is RateLimit || *self is ContextExhausted),
    {
        match self {
            StopReason::RateLimit(_) => true,
            StopReason::ContextExhausted(_) => true,
            StopReason::UserExit(_) => false,
            StopReason::Completed => false,
            StopReason::Unknown(_) => false,
        }
    }

    /// The reason label used in metrics; none for unknown reasons.
    pub fn metrics_reason_label(&self) -> (r: Option<&'static str>)
        ensures
            match *self {
                StopReason::RateLimit(_) => r matches Some(l) && l@ == "rate_limit"@,
                StopReason::ContextExhausted(_) => r matches Some(l) && l@ == "context_exhausted"@,
                StopReason::UserExit(_) | StopReason::Completed => r matches Some(l) && l@ == "manual"@,
                StopReason::Unknown(_) => r is None,
            },
    {
        match self {
            StopReason::RateLimit(_) => Some("rate_limit"),
            StopReason::ContextExhausted(_) => Some("context_exhausted"),
            StopReason::UserExit(_) | StopReason::Completed => Some("manual"),
            StopReason::Unknown(_) => None,
        }
    }
}

impl StopReasonClassifier {
    /// Classifies a session file from what reading it gave: its text (of
    /// which the last `max_lines` lines are used) or the read error. The
    /// frontmatter, when it could be parsed, is checked for completion.
    pub fn classify(&self, read: Result<&str, &str>, session: Option<&SessionState>, exit_code: Option<i32>)
        -> (r: ClassificationResult)
        ensures
            match read {
                Ok(text) => result_view(r) == classify_spec(self.rate_sources(), self.context_sources(),
                    self.user_exit_sources(), self.cfg(), tail_text(text@, self.cfg().max_lines as nat),
                    session_opt(session), exit_code),
                Err(e) => result_view(r) == (Reason::Unknown("Read error: "@ + e@), 0nat,
                    seq!["error: "@ + e@]),
            },
    {
        match read {
            Ok(text) => {
                let content = tail_lines(text, self.config.max_lines);
                self.classify_with_session(content.as_str(), session, exit_code)
            },
            Err(e) => {
                let mut reason = "Read error: ".to_string();
                reason.append(e);
                let mut ev = "error: ".to_string();
                ev.append(e);
                let mut evidence: Vec<String> = Vec::new();
                evidence.push(ev);
                let r = ClassificationResult { reason: StopReason::Unknown(reason), confidence_percent: 0, evidence };
                proof { assert(texts(r.evidence@) =~= seq![ev@]); }
                r
            },
        }
    }
}

} // verus!
