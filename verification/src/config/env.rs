//! Configuration overrides taken from `PALINGENESIS_*` environment variables.
//!
//! The variables are handed in as a list of (name, value) pairs; a name that
//! occurs more than once counts with its first value. All values that must
//! parse are checked before anything is changed, so a configuration is either
//! updated as a whole or left as it was.

use vstd::prelude::*;

use crate::config::schema::{
    clone_opt_string, Config, DiscordConfig, NotificationsConfig, NtfyConfig, OtelConfig, SlackConfig, WebhookConfig,
};
use crate::text::{opt_text, chars_eq_str, chars_of, parse_unsigned, parse_unsigned_chars, string_from_chars, trim, trim_chars};

verus! {

// ---------------------------------------------------------------------------
// Environment lookup
// ---------------------------------------------------------------------------

/// Environment variables, as (name, value) pairs.
pub struct EnvVars {
    pub vars: Vec<(String, String)>,
}

/// The value of the first variable named `key`.
pub open spec fn lookup(vars: Seq<(String, String)>, key: Seq<char>) -> Option<Seq<char>>
    decreases vars.len(),
{
    if vars.len() == 0 {
        None
    } else if vars[0].0@ == key {
        Some(vars[0].1@)
    } else {
        lookup(vars.drop_first(), key)
    }
}

impl EnvVars {
    /// The value of the first variable named `key`.
    pub fn get(&self, key: &str) -> (r: Option<String>)
        ensures
            match r {
                Some(v) => lookup(self.vars@, key@) == Some(v@),
                None => lookup(self.vars@, key@) is None,
            },
    {
        let n = self.vars.len();
        let mut i: usize = 0;
        proof { assert(self.vars@.skip(0) =~= self.vars@); }
        while i < n
            invariant
                n == self.vars@.len(),
                i <= n,
                lookup(self.vars@, key@) == lookup(self.vars@.skip(i as int), key@),
            decreases n - i,
        {
            proof { assert(self.vars@.skip(i as int).drop_first() =~= self.vars@.skip(i as int + 1)); }
            if string_eq_str(&self.vars[i].0, key) {
                return Some(self.vars[i].1.clone());
            }
            i = i + 1;
        }
        None
    }
}

fn string_eq_str(a: &String, b: &str) -> (r: bool)
    ensures
        r == (a@ == b@),
{
    let v = chars_of(a.as_str());
    chars_eq_str(v.as_slice(), b)
}

// ---------------------------------------------------------------------------
// Values
// ---------------------------------------------------------------------------

/// `bool::from_str`: exactly `true` or `false`.
pub open spec fn parse_bool_text(s: Seq<char>) -> Option<bool> {
    if s == "true"@ {
        Some(true)
    } else if s == "false"@ {
        Some(false)
    } else {
        None
    }
}

/// A flag's text names its value: `true` reads as true and `false` as
/// false, and no other text reads as either.
pub proof fn lemma_bool_text_names_value(s: Seq<char>)
    ensures
        parse_bool_text(s) == Some(true) <==> s == "true"@,
        parse_bool_text(s) == Some(false) <==> s == "false"@,
{
    reveal_strlit("true");
    reveal_strlit("false");
    assert("true"@ != "false"@) by { assert("true"@.len() != "false"@.len()); }
}

/// The type a variable's value must parse as.
#[derive(Clone, Copy, PartialEq, Eq, Structural, Debug)]
pub enum EnvValueKind {
    Bool,
    U16,
    U32,
    U64,
}

pub open spec fn kind_max(k: EnvValueKind) -> nat {
    match k {
        EnvValueKind::Bool => 1,
        EnvValueKind::U16 => 0xffff,
        EnvValueKind::U32 => 0xffff_ffff,
        EnvValueKind::U64 => 0xffff_ffff_ffff_ffff,
    }
}

/// Whether a value parses as the given kind.
pub open spec fn parses_as(k: EnvValueKind, v: Seq<char>) -> bool {
    match k {
        EnvValueKind::Bool => parse_bool_text(v) is Some,
        _ => parse_unsigned(v, kind_max(k)) is Some,
    }
}

/// A variable whose value does not parse as it must.
#[derive(Debug)]
pub struct EnvOverrideError {
    pub key: String,
    pub expected: EnvValueKind,
    /// The value given.
    pub value: String,
}

/// `u16::from_str`'s error, as text, for a value it refuses.
pub uninterp spec fn u16_parse_error(value: Seq<char>) -> Seq<char>;

/// `u32::from_str`'s error, as text, for a value it refuses.
pub uninterp spec fn u32_parse_error(value: Seq<char>) -> Seq<char>;

/// `u64::from_str`'s error, as text, for a value it refuses.
pub uninterp spec fn u64_parse_error(value: Seq<char>) -> Seq<char>;

/// Calls `u16::from_str` and, when it fails, `ParseIntError`'s `to_string`.
/// Its documentation: the text is an optional `+` and then digits, and the
/// value must fit the type; anything else fails.
#[verifier::external_body]
fn u16_error_text(value: &str) -> (r: Option<String>)
    ensures
        r is None <==> parse_unsigned(value@, 0xffff) is Some,
        r matches Some(t) ==> t@ == u16_parse_error(value@),
{
    value.parse::<u16>().err().map(|e| e.to_string())
}

/// Calls `u32::from_str` and, when it fails, `ParseIntError`'s `to_string`
/// (see [`u16_error_text`]).
#[verifier::external_body]
fn u32_error_text(value: &str) -> (r: Option<String>)
    ensures
        r is None <==> parse_unsigned(value@, 0xffff_ffff) is Some,
        r matches Some(t) ==> t@ == u32_parse_error(value@),
{
    value.parse::<u32>().err().map(|e| e.to_string())
}

/// Calls `u64::from_str` and, when it fails, `ParseIntError`'s `to_string`
/// (see [`u16_error_text`]).
#[verifier::external_body]
fn u64_error_text(value: &str) -> (r: Option<String>)
    ensures
        r is None <==> parse_unsigned(value@, 0xffff_ffff_ffff_ffff) is Some,
        r matches Some(t) ==> t@ == u64_parse_error(value@),
{
    value.parse::<u64>().err().map(|e| e.to_string())
}

/// Why a number of this kind was refused, as text.
pub open spec fn parse_error_text(k: EnvValueKind, value: Seq<char>) -> Seq<char> {
    match k {
        EnvValueKind::U16 => u16_parse_error(value),
        EnvValueKind::U32 => u32_parse_error(value),
        _ => u64_parse_error(value),
    }
}

/// What an override error reads: `<VAR> must be true/false` for a flag,
/// else `<VAR> is invalid: ` and why the number was refused.
pub open spec fn override_error_text(key: Seq<char>, k: EnvValueKind, value: Seq<char>) -> Seq<char> {
    match k {
        EnvValueKind::Bool => key + " must be true/false"@,
        _ => key + " is invalid: "@ + parse_error_text(k, value),
    }
}

impl EnvOverrideError {
    /// The error's text (see [`override_error_text`]); for a number that
    /// did parse, only `<VAR> is invalid: `.
    pub fn to_string(&self) -> (r: String)
        ensures
            !parses_as(self.expected, self.value@) ==>
                r@ == override_error_text(self.key@, self.expected, self.value@),
    {
        let mut t = self.key.clone();
        match self.expected {
            EnvValueKind::Bool => {
                t.append(" must be true/false");
            },
            k => {
                t.append(" is invalid: ");
                let reason = match k {
                    EnvValueKind::U16 => u16_error_text(self.value.as_str()),
                    EnvValueKind::U32 => u32_error_text(self.value.as_str()),
                    _ => u64_error_text(self.value.as_str()),
                };
                match reason {
                    Some(m) => t.append(m.as_str()),
                    None => {},
                }
            },
        }
        t
    }
}

/// The variables whose values are parsed, in the order they are applied.
pub open spec fn checked_key(i: int) -> Seq<char> {
    if i == 0 { "PALINGENESIS_HTTP_ENABLED"@ }
    else if i == 1 { "PALINGENESIS_HTTP_PORT"@ }
    else if i == 2 { "PALINGENESIS_AUTO_DETECT"@ }
    else if i == 3 { "PALINGENESIS_DEBOUNCE_MS"@ }
    else if i == 4 { "PALINGENESIS_POLL_INTERVAL_SECS"@ }
    else if i == 5 { "PALINGENESIS_OPENCODE_ENABLED"@ }
    else if i == 6 { "PALINGENESIS_OPENCODE_SERVE_PORT"@ }
    else if i == 7 { "PALINGENESIS_OPENCODE_AUTO_RESTART"@ }
    else if i == 8 { "PALINGENESIS_OPENCODE_RESTART_DELAY_MS"@ }
    else if i == 9 { "PALINGENESIS_OPENCODE_HEALTH_CHECK_INTERVAL"@ }
    else if i == 10 { "PALINGENESIS_RESUME_ENABLED"@ }
    else if i == 11 { "PALINGENESIS_RESUME_BASE_DELAY_SECS"@ }
    else if i == 12 { "PALINGENESIS_RESUME_MAX_DELAY_SECS"@ }
    else if i == 13 { "PALINGENESIS_RESUME_MAX_RETRIES"@ }
    else if i == 14 { "PALINGENESIS_RESUME_JITTER"@ }
    else if i == 15 { "PALINGENESIS_RESUME_BACKUP_COUNT"@ }
    else if i == 16 { "PALINGENESIS_NOTIFICATIONS_ENABLED"@ }
    else if i == 17 { "PALINGENESIS_OTEL_ENABLED"@ }
    else if i == 18 { "PALINGENESIS_OTEL_TRACES"@ }
    else if i == 19 { "PALINGENESIS_OTEL_METRICS"@ }
    else { "PALINGENESIS_OTEL_METRICS_ENABLED"@ }
}

pub open spec fn checked_kind(i: int) -> EnvValueKind {
    if i == 1 || i == 6 { EnvValueKind::U16 }
    else if i == 13 || i == 15 { EnvValueKind::U32 }
    else if i == 3 || i == 4 || i == 8 || i == 9 || i == 11 || i == 12 { EnvValueKind::U64 }
    else { EnvValueKind::Bool }
}

pub open spec fn checked_count() -> int {
    21
}

/// The `i`-th parsed variable is absent or parses.
pub open spec fn check_ok(vars: Seq<(String, String)>, i: int) -> bool {
    match lookup(vars, checked_key(i)) {
        Some(v) => parses_as(checked_kind(i), v),
        None => true,
    }
}

/// Every parsed variable is absent or parses.
pub open spec fn env_values_ok(vars: Seq<(String, String)>) -> bool {
    forall|i: int| 0 <= i < checked_count() ==> #[trigger] check_ok(vars, i)
}

fn checked_entry(i: usize) -> (r: (&'static str, EnvValueKind))
    requires
        i < 21,
    ensures
        r.0@ == checked_key(i as int),
        r.1 == checked_kind(i as int),
{
    match i {
        0 => ("PALINGENESIS_HTTP_ENABLED", EnvValueKind::Bool),
        1 => ("PALINGENESIS_HTTP_PORT", EnvValueKind::U16),
        2 => ("PALINGENESIS_AUTO_DETECT", EnvValueKind::Bool),
        3 => ("PALINGENESIS_DEBOUNCE_MS", EnvValueKind::U64),
        4 => ("PALINGENESIS_POLL_INTERVAL_SECS", EnvValueKind::U64),
        5 => ("PALINGENESIS_OPENCODE_ENABLED", EnvValueKind::Bool),
        6 => ("PALINGENESIS_OPENCODE_SERVE_PORT", EnvValueKind::U16),
        7 => ("PALINGENESIS_OPENCODE_AUTO_RESTART", EnvValueKind::Bool),
        8 => ("PALINGENESIS_OPENCODE_RESTART_DELAY_MS", EnvValueKind::U64),
        9 => ("PALINGENESIS_OPENCODE_HEALTH_CHECK_INTERVAL", EnvValueKind::U64),
        10 => ("PALINGENESIS_RESUME_ENABLED", EnvValueKind::Bool),
        11 => ("PALINGENESIS_RESUME_BASE_DELAY_SECS", EnvValueKind::U64),
        12 => ("PALINGENESIS_RESUME_MAX_DELAY_SECS", EnvValueKind::U64),
        13 => ("PALINGENESIS_RESUME_MAX_RETRIES", EnvValueKind::U32),
        14 => ("PALINGENESIS_RESUME_JITTER", EnvValueKind::Bool),
        15 => ("PALINGENESIS_RESUME_BACKUP_COUNT", EnvValueKind::U32),
        16 => ("PALINGENESIS_NOTIFICATIONS_ENABLED", EnvValueKind::Bool),
        17 => ("PALINGENESIS_OTEL_ENABLED", EnvValueKind::Bool),
        18 => ("PALINGENESIS_OTEL_TRACES", EnvValueKind::Bool),
        19 => ("PALINGENESIS_OTEL_METRICS", EnvValueKind::Bool),
        _ => ("PALINGENESIS_OTEL_METRICS_ENABLED", EnvValueKind::Bool),
    }
}

/// `bool::from_str`.
pub fn parse_bool(s: &str) -> (r: Option<bool>)
    ensures
        r == parse_bool_text(s@),
{
    let v = chars_of(s);
    if chars_eq_str(v.as_slice(), "true") {
        Some(true)
    } else if chars_eq_str(v.as_slice(), "false") {
        Some(false)
    } else {
        None
    }
}

fn kind_max_exec(k: EnvValueKind) -> (r: u64)
    ensures
        r == kind_max(k),
{
    match k {
        EnvValueKind::Bool => 1,
        EnvValueKind::U16 => 0xffff,
        EnvValueKind::U32 => 0xffff_ffff,
        EnvValueKind::U64 => 0xffff_ffff_ffff_ffff,
    }
}

fn value_parses(k: EnvValueKind, v: &str) -> (r: bool)
    ensures
        r == parses_as(k, v@),
{
    match k {
        EnvValueKind::Bool => parse_bool(v).is_some(),
        _ => {
            let c = chars_of(v);
            parse_unsigned_chars(c.as_slice(), kind_max_exec(k)).is_some()
        },
    }
}

/// Checks, in order, that every variable whose value must parse does; the
/// error names the first one that does not.
pub fn check_env_values(env: &EnvVars) -> (r: Result<(), EnvOverrideError>)
    ensures
        r is Ok <==> env_values_ok(env.vars@),
        r matches Err(e) ==> exists|i: int|
            0 <= i < checked_count() && e.key@ == checked_key(i) && e.expected == checked_kind(i)
            && lookup(env.vars@, checked_key(i)) == Some(e.value@)
            && !check_ok(env.vars@, i) && forall|j: int| 0 <= j < i ==> #[trigger] check_ok(env.vars@, j),
{
    let mut i: usize = 0;
    while i < 21
        invariant
            i <= 21,
            forall|j: int| 0 <= j < i ==> #[trigger] check_ok(env.vars@, j),
        decreases 21 - i,
    {
        let (key, kind) = checked_entry(i);
        match env.get(key) {
            Some(v) => {
                if !value_parses(kind, v.as_str()) {
                    proof { assert(!check_ok(env.vars@, i as int)); }
                    return Err(EnvOverrideError { key: key.to_string(), expected: kind, value: v });
                }
            },
            None => {},
        }
        proof { assert(check_ok(env.vars@, i as int)); }
        i = i + 1;
    }
    Ok(())
}

// ---------------------------------------------------------------------------
// What an override does
// ---------------------------------------------------------------------------

pub open spec fn pick_text(old: Seq<char>, v: Option<Seq<char>>) -> Seq<char> {
    match v {
        Some(x) => x,
        None => old,
    }
}

pub open spec fn pick_opt_text(old: Option<Seq<char>>, v: Option<Seq<char>>) -> Option<Seq<char>> {
    match v {
        Some(x) => Some(x),
        None => old,
    }
}

pub open spec fn pick_bool(old: bool, v: Option<Seq<char>>) -> bool {
    match v {
        Some(x) => match parse_bool_text(x) {
            Some(b) => b,
            None => old,
        },
        None => old,
    }
}

pub open spec fn pick_num(old: nat, v: Option<Seq<char>>, max: nat) -> nat {
    match v {
        Some(x) => match parse_unsigned(x, max) {
            Some(n) => n,
            None => old,
        },
        None => old,
    }
}


/// Number of non-empty trimmed items among `fields`, in order.
pub open spec fn nonempty_trimmed(fields: Seq<Seq<char>>) -> Seq<Seq<char>>
    decreases fields.len(),
{
    if fields.len() == 0 {
        seq![]
    } else {
        let r = nonempty_trimmed(fields.drop_last());
        let t = trim(fields.last());
        if t.len() > 0 {
            r.push(t)
        } else {
            r
        }
    }
}

/// `str::split(sep)`: the fields between separators (at least one).
pub open spec fn split_on(s: Seq<char>, sep: char) -> Seq<Seq<char>>
    decreases s.len(),
{
    if s.len() == 0 {
        seq![seq![]]
    } else {
        let r = split_on(s.drop_last(), sep);
        if s.last() == sep {
            r.push(seq![])
        } else {
            r.update(r.len() - 1, r.last().push(s.last()))
        }
    }
}

/// A comma-separated list: each item trimmed, empty items dropped.
pub open spec fn comma_list(s: Seq<char>) -> Seq<Seq<char>> {
    nonempty_trimmed(split_on(s, ','))
}

pub open spec fn texts(v: Seq<String>) -> Seq<Seq<char>> {
    v.map_values(|s: String| s@)
}

pub open spec fn pick_list(old: Seq<Seq<char>>, v: Option<Seq<char>>) -> Seq<Seq<char>> {
    match v {
        Some(x) => comma_list(x),
        None => old,
    }
}

/// The (name, value) entry recorded for a variable, if it is set.
pub open spec fn entry(vars: Seq<(String, String)>, key: Seq<char>) -> Seq<(Seq<char>, Seq<char>)> {
    match lookup(vars, key) {
        Some(v) => seq![(key, v)],
        None => seq![],
    }
}

pub open spec fn pair_views(v: Seq<(String, String)>) -> Seq<(Seq<char>, Seq<char>)> {
    v.map_values(|p: (String, String)| (p.0@, p.1@))
}

pub open spec fn is_set(vars: Seq<(String, String)>, key: Seq<char>) -> bool {
    lookup(vars, key) is Some
}

// ---------------------------------------------------------------------------
// Applying single overrides
// ---------------------------------------------------------------------------

/// Splits a comma-separated list, trimming each item and dropping empty ones.
pub fn parse_list(value: &str) -> (r: Vec<String>)
    ensures
        texts(r@) == comma_list(value@),
{
    let s = chars_of(value);
    let n = s.len();
    let mut fields: Vec<Vec<char>> = Vec::new();
    let mut cur: Vec<char> = Vec::new();
    let mut i: usize = 0;
    proof { assert(s@.take(0) =~= Seq::<char>::empty()); }
    while i < n
        invariant
            n == s@.len(),
            i <= n,
            split_on(s@.take(i as int), ',') == crate::text::views(fields@).push(cur@),
        decreases n - i,
    {
        let ghost pre = s@.take(i as int);
        proof {
            assert(s@.take(i as int + 1).drop_last() =~= pre);
            assert(s@.take(i as int + 1).last() == s@[i as int]);
        }
        if s[i] == ',' {
            fields.push(cur);
            cur = Vec::new();
            proof {
                assert(crate::text::views(fields@).push(cur@) =~= split_on(pre, ',').push(seq![]));
            }
        } else {
            let ghost old_cur = cur@;
            cur.push(s[i]);
            proof {
                let r = split_on(pre, ',');
                assert(r.update(r.len() - 1, r.last().push(s@[i as int])) =~= crate::text::views(fields@).push(cur@));
            }
        }
        i = i + 1;
    }
    proof { assert(s@.take(n as int) =~= s@); }
    fields.push(cur);
    let ghost all = crate::text::views(fields@);
    proof { assert(all =~= split_on(s@, ',')); }
    let m = fields.len();
    let mut out: Vec<String> = Vec::new();
    let mut k: usize = 0;
    proof { assert(all.take(0) =~= Seq::<Seq<char>>::empty()); }
    while k < m
        invariant
            m == fields@.len(),
            k <= m,
            all == crate::text::views(fields@),
            texts(out@) == nonempty_trimmed(all.take(k as int)),
        decreases m - k,
    {
        proof {
            assert(all.take(k as int + 1).drop_last() =~= all.take(k as int));
            assert(all.take(k as int + 1).last() == fields@[k as int]@);
        }
        let t = trim_chars(fields[k].as_slice());
        if t.len() > 0 {
            out.push(string_from_chars(t.as_slice()));
            proof { assert(texts(out@) =~= nonempty_trimmed(all.take(k as int)).push(t@)); }
        }
        k = k + 1;
    }
    proof { assert(all.take(m as int) =~= all); }
    out
}

fn record(ov: &mut Vec<(String, String)>, key: &str, value: String)
    ensures
        pair_views(final(ov)@) == pair_views(old(ov)@).push((key@, value@)),
{
    let p = (key.to_string(), value);
    ov.push(p);
    proof { assert(pair_views(final(ov)@) =~= pair_views(old(ov)@).push((p.0@, p.1@))); }
}

proof fn lemma_no_entry(ov: Seq<(String, String)>, vars: Seq<(String, String)>, key: Seq<char>)
    requires
        lookup(vars, key) is None,
    ensures
        pair_views(ov) + entry(vars, key) == pair_views(ov),
{
    assert(pair_views(ov) + entry(vars, key) =~= pair_views(ov));
}

fn set_text(env: &EnvVars, key: &str, target: &mut String, ov: &mut Vec<(String, String)>)
    ensures
        final(target)@ == pick_text(old(target)@, lookup(env.vars@, key@)),
        pair_views(final(ov)@) == pair_views(old(ov)@) + entry(env.vars@, key@),
{
    match env.get(key) {
        Some(v) => {
            *target = v.clone();
            record(ov, key, v);
        },
        None => {
            proof { lemma_no_entry(ov@, env.vars@, key@); }
        },
    }
}

fn set_opt_text(env: &EnvVars, key: &str, target: &mut Option<String>, ov: &mut Vec<(String, String)>)
    ensures
        opt_text(*final(target)) == pick_opt_text(opt_text(*old(target)), lookup(env.vars@, key@)),
        pair_views(final(ov)@) == pair_views(old(ov)@) + entry(env.vars@, key@),
{
    match env.get(key) {
        Some(v) => {
            *target = Some(v.clone());
            record(ov, key, v);
        },
        None => {
            proof { lemma_no_entry(ov@, env.vars@, key@); }
        },
    }
}

fn set_bool(env: &EnvVars, key: &str, target: &mut bool, ov: &mut Vec<(String, String)>)
    ensures
        *final(target) == pick_bool(*old(target), lookup(env.vars@, key@)),
        pair_views(final(ov)@) == pair_views(old(ov)@) + entry(env.vars@, key@),
{
    match env.get(key) {
        Some(v) => {
            match parse_bool(v.as_str()) {
                Some(b) => {
                    *target = b;
                },
                None => {},
            }
            record(ov, key, v);
        },
        None => {
            proof { lemma_no_entry(ov@, env.vars@, key@); }
        },
    }
}

fn env_number(env: &EnvVars, key: &str, max: u64, ov: &mut Vec<(String, String)>) -> (r: Option<u64>)
    ensures
        match lookup(env.vars@, key@) {
            Some(x) => match parse_unsigned(x, max as nat) {
                Some(n) => r == Some(n as u64),
                None => r is None,
            },
            None => r is None,
        },
        pair_views(final(ov)@) == pair_views(old(ov)@) + entry(env.vars@, key@),
{
    match env.get(key) {
        Some(v) => {
            let c = chars_of(v.as_str());
            let n = parse_unsigned_chars(c.as_slice(), max);
            record(ov, key, v);
            n
        },
        None => {
            proof { lemma_no_entry(ov@, env.vars@, key@); }
            None
        },
    }
}

fn set_u64(env: &EnvVars, key: &str, target: &mut u64, ov: &mut Vec<(String, String)>)
    ensures
        *final(target) == pick_num(*old(target) as nat, lookup(env.vars@, key@), 0xffff_ffff_ffff_ffff),
        pair_views(final(ov)@) == pair_views(old(ov)@) + entry(env.vars@, key@),
{
    match env_number(env, key, 0xffff_ffff_ffff_ffff, ov) {
        Some(n) => {
            *target = n;
        },
        None => {},
    }
}

fn set_u32(env: &EnvVars, key: &str, target: &mut u32, ov: &mut Vec<(String, String)>)
    ensures
        *final(target) == pick_num(*old(target) as nat, lookup(env.vars@, key@), 0xffff_ffff),
        pair_views(final(ov)@) == pair_views(old(ov)@) + entry(env.vars@, key@),
{
    match env_number(env, key, 0xffff_ffff, ov) {
        Some(n) => {
            *target = n as u32;
        },
        None => {},
    }
}

fn set_u16(env: &EnvVars, key: &str, target: &mut u16, ov: &mut Vec<(String, String)>)
    ensures
        *final(target) == pick_num(*old(target) as nat, lookup(env.vars@, key@), 0xffff),
        pair_views(final(ov)@) == pair_views(old(ov)@) + entry(env.vars@, key@),
{
    match env_number(env, key, 0xffff, ov) {
        Some(n) => {
            *target = n as u16;
        },
        None => {},
    }
}

fn set_opt_u64(env: &EnvVars, key: &str, target: &mut Option<u64>, ov: &mut Vec<(String, String)>)
    ensures
        *final(target) == match lookup(env.vars@, key@) {
            Some(x) => match parse_unsigned(x, 0xffff_ffff_ffff_ffff) {
                Some(n) => Some(n as u64),
                None => *old(target),
            },
            None => *old(target),
        },
        pair_views(final(ov)@) == pair_views(old(ov)@) + entry(env.vars@, key@),
{
    match env_number(env, key, 0xffff_ffff_ffff_ffff, ov) {
        Some(n) => {
            *target = Some(n);
        },
        None => {},
    }
}

fn set_list(env: &EnvVars, key: &str, target: &mut Vec<String>, ov: &mut Vec<(String, String)>)
    ensures
        texts(final(target)@) == pick_list(texts(old(target)@), lookup(env.vars@, key@)),
        pair_views(final(ov)@) == pair_views(old(ov)@) + entry(env.vars@, key@),
{
    match env.get(key) {
        Some(v) => {
            *target = parse_list(v.as_str());
            record(ov, key, v);
        },
        None => {
            proof { lemma_no_entry(ov@, env.vars@, key@); }
        },
    }
}

// ---------------------------------------------------------------------------
// Sections
// ---------------------------------------------------------------------------

pub open spec fn daemon_entries(v: Seq<(String, String)>) -> Seq<(Seq<char>, Seq<char>)> {
    entry(v, "PALINGENESIS_LOG_LEVEL"@) + entry(v, "PALINGENESIS_HTTP_ENABLED"@)
        + entry(v, "PALINGENESIS_HTTP_PORT"@) + entry(v, "PALINGENESIS_HTTP_BIND"@)
        + entry(v, "PALINGENESIS_PID_FILE"@) + entry(v, "PALINGENESIS_SOCKET_PATH"@)
        + entry(v, "PALINGENESIS_LOG_FILE"@)
}

pub open spec fn monitoring_entries(v: Seq<(String, String)>) -> Seq<(Seq<char>, Seq<char>)> {
    entry(v, "PALINGENESIS_SESSION_DIR"@) + entry(v, "PALINGENESIS_ASSISTANTS"@)
        + entry(v, "PALINGENESIS_AUTO_DETECT"@) + entry(v, "PALINGENESIS_DEBOUNCE_MS"@)
        + entry(v, "PALINGENESIS_POLL_INTERVAL_SECS"@)
}

pub open spec fn opencode_entries(v: Seq<(String, String)>) -> Seq<(Seq<char>, Seq<char>)> {
    entry(v, "PALINGENESIS_OPENCODE_ENABLED"@) + entry(v, "PALINGENESIS_OPENCODE_SERVE_PORT"@)
        + entry(v, "PALINGENESIS_OPENCODE_SERVE_HOSTNAME"@) + entry(v, "PALINGENESIS_OPENCODE_AUTO_RESTART"@)
        + entry(v, "PALINGENESIS_OPENCODE_RESTART_DELAY_MS"@)
        + entry(v, "PALINGENESIS_OPENCODE_HEALTH_CHECK_INTERVAL"@)
}

pub open spec fn resume_entries(v: Seq<(String, String)>) -> Seq<(Seq<char>, Seq<char>)> {
    entry(v, "PALINGENESIS_RESUME_ENABLED"@) + entry(v, "PALINGENESIS_RESUME_BASE_DELAY_SECS"@)
        + entry(v, "PALINGENESIS_RESUME_MAX_DELAY_SECS"@) + entry(v, "PALINGENESIS_RESUME_MAX_RETRIES"@)
        + entry(v, "PALINGENESIS_RESUME_JITTER"@) + entry(v, "PALINGENESIS_RESUME_BACKUP_COUNT"@)
}

pub open spec fn ntfy_entries(v: Seq<(String, String)>) -> Seq<(Seq<char>, Seq<char>)> {
    if is_set(v, "PALINGENESIS_NTFY_TOPIC"@) {
        entry(v, "PALINGENESIS_NTFY_SERVER"@) + entry(v, "PALINGENESIS_NTFY_PRIORITY"@)
            + entry(v, "PALINGENESIS_NTFY_TOPIC"@)
    } else {
        seq![]
    }
}

pub open spec fn notification_entries(v: Seq<(String, String)>) -> Seq<(Seq<char>, Seq<char>)> {
    entry(v, "PALINGENESIS_NOTIFICATIONS_ENABLED"@) + entry(v, "PALINGENESIS_WEBHOOK_URL"@)
        + ntfy_entries(v) + entry(v, "PALINGENESIS_DISCORD_WEBHOOK_URL"@)
        + entry(v, "PALINGENESIS_SLACK_WEBHOOK_URL"@)
}

pub open spec fn otel_entries(v: Seq<(String, String)>) -> Seq<(Seq<char>, Seq<char>)> {
    entry(v, "PALINGENESIS_OTEL_ENABLED"@) + entry(v, "PALINGENESIS_OTEL_ENDPOINT"@)
        + entry(v, "PALINGENESIS_OTEL_SERVICE_NAME"@) + entry(v, "PALINGENESIS_OTEL_TRACES"@)
        + entry(v, "PALINGENESIS_OTEL_METRICS"@) + entry(v, "PALINGENESIS_OTEL_METRICS_ENABLED"@)
        + entry(v, "PALINGENESIS_OTEL_PROTOCOL"@)
}

/// Every (name, value) recorded by [`apply_env_overrides`], in order.
pub open spec fn override_entries(v: Seq<(String, String)>) -> Seq<(Seq<char>, Seq<char>)> {
    daemon_entries(v) + monitoring_entries(v) + opencode_entries(v) + resume_entries(v)
        + notification_entries(v) + otel_entries(v)
}

pub open spec fn daemon_applied(o: Config, n: Config, v: Seq<(String, String)>) -> bool {
    &&& n.daemon.log_level@ == pick_text(o.daemon.log_level@, lookup(v, "PALINGENESIS_LOG_LEVEL"@))
    &&& n.daemon.http_enabled == pick_bool(o.daemon.http_enabled, lookup(v, "PALINGENESIS_HTTP_ENABLED"@))
    &&& n.daemon.http_port == pick_num(o.daemon.http_port as nat, lookup(v, "PALINGENESIS_HTTP_PORT"@), 0xffff)
    &&& n.daemon.http_bind@ == pick_text(o.daemon.http_bind@, lookup(v, "PALINGENESIS_HTTP_BIND"@))
    &&& opt_text(n.daemon.pid_file) == pick_opt_text(opt_text(o.daemon.pid_file), lookup(v, "PALINGENESIS_PID_FILE"@))
    &&& opt_text(n.daemon.socket_path)
        == pick_opt_text(opt_text(o.daemon.socket_path), lookup(v, "PALINGENESIS_SOCKET_PATH"@))
    &&& opt_text(n.daemon.log_file) == pick_opt_text(opt_text(o.daemon.log_file), lookup(v, "PALINGENESIS_LOG_FILE"@))
}

pub open spec fn monitoring_applied(o: Config, n: Config, v: Seq<(String, String)>) -> bool {
    &&& n.monitoring.session_dir@ == pick_text(o.monitoring.session_dir@, lookup(v, "PALINGENESIS_SESSION_DIR"@))
    &&& texts(n.monitoring.assistants@)
        == pick_list(texts(o.monitoring.assistants@), lookup(v, "PALINGENESIS_ASSISTANTS"@))
    &&& n.monitoring.auto_detect == pick_bool(o.monitoring.auto_detect, lookup(v, "PALINGENESIS_AUTO_DETECT"@))
    &&& n.monitoring.debounce_ms
        == pick_num(o.monitoring.debounce_ms as nat, lookup(v, "PALINGENESIS_DEBOUNCE_MS"@), 0xffff_ffff_ffff_ffff)
    &&& n.monitoring.poll_interval_secs == match lookup(v, "PALINGENESIS_POLL_INTERVAL_SECS"@) {
        Some(x) => match parse_unsigned(x, 0xffff_ffff_ffff_ffff) {
            Some(k) => Some(k as u64),
            None => o.monitoring.poll_interval_secs,
        },
        None => o.monitoring.poll_interval_secs,
    }
    &&& n.monitoring.auto_detect_interval_secs == o.monitoring.auto_detect_interval_secs
}

pub open spec fn opencode_applied(o: Config, n: Config, v: Seq<(String, String)>) -> bool {
    &&& n.opencode.enabled == pick_bool(o.opencode.enabled, lookup(v, "PALINGENESIS_OPENCODE_ENABLED"@))
    &&& n.opencode.serve_port
        == pick_num(o.opencode.serve_port as nat, lookup(v, "PALINGENESIS_OPENCODE_SERVE_PORT"@), 0xffff)
    &&& n.opencode.serve_hostname@
        == pick_text(o.opencode.serve_hostname@, lookup(v, "PALINGENESIS_OPENCODE_SERVE_HOSTNAME"@))
    &&& n.opencode.auto_restart == pick_bool(o.opencode.auto_restart, lookup(v, "PALINGENESIS_OPENCODE_AUTO_RESTART"@))
    &&& n.opencode.restart_delay_ms == pick_num(o.opencode.restart_delay_ms as nat,
        lookup(v, "PALINGENESIS_OPENCODE_RESTART_DELAY_MS"@), 0xffff_ffff_ffff_ffff)
    &&& n.opencode.health_check_interval == pick_num(o.opencode.health_check_interval as nat,
        lookup(v, "PALINGENESIS_OPENCODE_HEALTH_CHECK_INTERVAL"@), 0xffff_ffff_ffff_ffff)
    &&& n.opencode.health_port == o.opencode.health_port
    &&& n.opencode.poll_interval_ms == o.opencode.poll_interval_ms
    &&& n.opencode.health_timeout_ms == o.opencode.health_timeout_ms
}

pub open spec fn resume_applied(o: Config, n: Config, v: Seq<(String, String)>) -> bool {
    &&& n.resume.enabled == pick_bool(o.resume.enabled, lookup(v, "PALINGENESIS_RESUME_ENABLED"@))
    &&& n.resume.base_delay_secs == pick_num(o.resume.base_delay_secs as nat,
        lookup(v, "PALINGENESIS_RESUME_BASE_DELAY_SECS"@), 0xffff_ffff_ffff_ffff)
    &&& n.resume.max_delay_secs == pick_num(o.resume.max_delay_secs as nat,
        lookup(v, "PALINGENESIS_RESUME_MAX_DELAY_SECS"@), 0xffff_ffff_ffff_ffff)
    &&& n.resume.max_retries
        == pick_num(o.resume.max_retries as nat, lookup(v, "PALINGENESIS_RESUME_MAX_RETRIES"@), 0xffff_ffff)
    &&& n.resume.jitter == pick_bool(o.resume.jitter, lookup(v, "PALINGENESIS_RESUME_JITTER"@))
    &&& n.resume.backup_count
        == pick_num(o.resume.backup_count as nat, lookup(v, "PALINGENESIS_RESUME_BACKUP_COUNT"@), 0xffff_ffff)
}

pub open spec fn notifications_applied(o: Config, n: Config, v: Seq<(String, String)>) -> bool {
    &&& n.notifications.enabled == (pick_bool(o.notifications.enabled, lookup(v, "PALINGENESIS_NOTIFICATIONS_ENABLED"@))
        || is_set(v, "PALINGENESIS_WEBHOOK_URL"@) || is_set(v, "PALINGENESIS_NTFY_TOPIC"@)
        || is_set(v, "PALINGENESIS_DISCORD_WEBHOOK_URL"@) || is_set(v, "PALINGENESIS_SLACK_WEBHOOK_URL"@))
    &&& match lookup(v, "PALINGENESIS_WEBHOOK_URL"@) {
        Some(u) => n.notifications.webhook matches Some(w) && w.url@ == u && w.headers is None,
        None => n.notifications.webhook == o.notifications.webhook,
    }
    &&& match lookup(v, "PALINGENESIS_NTFY_TOPIC"@) {
        Some(t) => n.notifications.ntfy matches Some(c) && c.topic@ == t
            && opt_text(c.server) == lookup(v, "PALINGENESIS_NTFY_SERVER"@)
            && opt_text(c.priority) == lookup(v, "PALINGENESIS_NTFY_PRIORITY"@),
        None => n.notifications.ntfy == o.notifications.ntfy,
    }
    &&& match lookup(v, "PALINGENESIS_DISCORD_WEBHOOK_URL"@) {
        Some(u) => n.notifications.discord matches Some(d) && d.webhook_url@ == u,
        None => n.notifications.discord == o.notifications.discord,
    }
    &&& match lookup(v, "PALINGENESIS_SLACK_WEBHOOK_URL"@) {
        Some(u) => n.notifications.slack matches Some(d) && d.webhook_url@ == u,
        None => n.notifications.slack == o.notifications.slack,
    }
}

pub open spec fn any_otel_set(v: Seq<(String, String)>) -> bool {
    ||| is_set(v, "PALINGENESIS_OTEL_ENABLED"@)
    ||| is_set(v, "PALINGENESIS_OTEL_ENDPOINT"@)
    ||| is_set(v, "PALINGENESIS_OTEL_SERVICE_NAME"@)
    ||| is_set(v, "PALINGENESIS_OTEL_TRACES"@)
    ||| is_set(v, "PALINGENESIS_OTEL_METRICS"@)
    ||| is_set(v, "PALINGENESIS_OTEL_METRICS_ENABLED"@)
    ||| is_set(v, "PALINGENESIS_OTEL_PROTOCOL"@)
}

/// The telemetry section an override starts from: the configured one, or the
/// default when there is none.
pub open spec fn otel_base_matches(o: Option<OtelConfig>, b: OtelConfig) -> bool {
    match o {
        Some(c) => b == c,
        None => !b.enabled && b.endpoint is None && b.service_name@ == "palingenesis"@ && b.traces
            && b.metrics && b.metrics_enabled && b.protocol@ == "http"@,
    }
}

pub open spec fn otel_applied(o: Config, n: Config, v: Seq<(String, String)>) -> bool {
    if !any_otel_set(v) {
        n.otel == o.otel
    } else {
        exists|b: OtelConfig| #[trigger] otel_base_matches(o.otel, b) && (n.otel matches Some(c)
            && c.enabled == pick_bool(b.enabled, lookup(v, "PALINGENESIS_OTEL_ENABLED"@))
            && opt_text(c.endpoint) == pick_opt_text(opt_text(b.endpoint), lookup(v, "PALINGENESIS_OTEL_ENDPOINT"@))
            && c.service_name@ == pick_text(b.service_name@, lookup(v, "PALINGENESIS_OTEL_SERVICE_NAME"@))
            && c.traces == pick_bool(b.traces, lookup(v, "PALINGENESIS_OTEL_TRACES"@))
            && c.metrics == pick_bool(b.metrics, lookup(v, "PALINGENESIS_OTEL_METRICS"@))
            && c.metrics_enabled == pick_bool(b.metrics_enabled, lookup(v, "PALINGENESIS_OTEL_METRICS_ENABLED"@))
            && c.protocol@ == pick_text(b.protocol@, lookup(v, "PALINGENESIS_OTEL_PROTOCOL"@)))
    }
}

/// The new configuration is the old one with every set variable applied.
pub open spec fn overrides_applied(o: Config, n: Config, v: Seq<(String, String)>) -> bool {
    &&& daemon_applied(o, n, v)
    &&& monitoring_applied(o, n, v)
    &&& opencode_applied(o, n, v)
    &&& resume_applied(o, n, v)
    &&& notifications_applied(o, n, v)
    &&& otel_applied(o, n, v)
    &&& n.mcp == o.mcp
    &&& n.bot == o.bot
}

/// A flag variable sets its setting to the value it names, whatever the
/// setting was: `true` turns it on and `false` off. So, after the
/// overrides, `PALINGENESIS_HTTP_ENABLED=true` leaves HTTP enabled and
/// `=false` leaves it disabled.
pub proof fn lemma_flag_sets_named_value(old: bool, o: Config, n: Config, v: Seq<(String, String)>)
    ensures
        pick_bool(old, Some("true"@)),
        !pick_bool(old, Some("false"@)),
        overrides_applied(o, n, v) && lookup(v, "PALINGENESIS_HTTP_ENABLED"@) == Some("true"@)
            ==> n.daemon.http_enabled,
        overrides_applied(o, n, v) && lookup(v, "PALINGENESIS_HTTP_ENABLED"@) == Some("false"@)
            ==> !n.daemon.http_enabled,
{
    lemma_bool_text_names_value("true"@);
    lemma_bool_text_names_value("false"@);
}

fn apply_daemon(config: &mut Config, env: &EnvVars, ov: &mut Vec<(String, String)>)
    ensures
        daemon_applied(*old(config), *final(config), env.vars@),
        pair_views(final(ov)@) == pair_views(old(ov)@) + daemon_entries(env.vars@),
        final(config).monitoring == old(config).monitoring,
        final(config).opencode == old(config).opencode,
        final(config).resume == old(config).resume,
        final(config).notifications == old(config).notifications,
        final(config).otel == old(config).otel,
        final(config).mcp == old(config).mcp,
        final(config).bot == old(config).bot,
{
    let ghost p0 = pair_views(ov@);
    set_text(env, "PALINGENESIS_LOG_LEVEL", &mut config.daemon.log_level, ov);
    set_bool(env, "PALINGENESIS_HTTP_ENABLED", &mut config.daemon.http_enabled, ov);
    set_u16(env, "PALINGENESIS_HTTP_PORT", &mut config.daemon.http_port, ov);
    set_text(env, "PALINGENESIS_HTTP_BIND", &mut config.daemon.http_bind, ov);
    set_opt_text(env, "PALINGENESIS_PID_FILE", &mut config.daemon.pid_file, ov);
    set_opt_text(env, "PALINGENESIS_SOCKET_PATH", &mut config.daemon.socket_path, ov);
    set_opt_text(env, "PALINGENESIS_LOG_FILE", &mut config.daemon.log_file, ov);
    proof { assert(pair_views(ov@) =~= p0 + daemon_entries(env.vars@)); }
}

fn apply_monitoring(config: &mut Config, env: &EnvVars, ov: &mut Vec<(String, String)>)
    ensures
        monitoring_applied(*old(config), *final(config), env.vars@),
        pair_views(final(ov)@) == pair_views(old(ov)@) + monitoring_entries(env.vars@),
        final(config).daemon == old(config).daemon,
        final(config).opencode == old(config).opencode,
        final(config).resume == old(config).resume,
        final(config).notifications == old(config).notifications,
        final(config).otel == old(config).otel,
        final(config).mcp == old(config).mcp,
        final(config).bot == old(config).bot,
{
    let ghost p0 = pair_views(ov@);
    set_text(env, "PALINGENESIS_SESSION_DIR", &mut config.monitoring.session_dir, ov);
    set_list(env, "PALINGENESIS_ASSISTANTS", &mut config.monitoring.assistants, ov);
    set_bool(env, "PALINGENESIS_AUTO_DETECT", &mut config.monitoring.auto_detect, ov);
    set_u64(env, "PALINGENESIS_DEBOUNCE_MS", &mut config.monitoring.debounce_ms, ov);
    set_opt_u64(env, "PALINGENESIS_POLL_INTERVAL_SECS", &mut config.monitoring.poll_interval_secs, ov);
    proof { assert(pair_views(ov@) =~= p0 + monitoring_entries(env.vars@)); }
}

fn apply_opencode(config: &mut Config, env: &EnvVars, ov: &mut Vec<(String, String)>)
    ensures
        opencode_applied(*old(config), *final(config), env.vars@),
        pair_views(final(ov)@) == pair_views(old(ov)@) + opencode_entries(env.vars@),
        final(config).daemon == old(config).daemon,
        final(config).monitoring == old(config).monitoring,
        final(config).resume == old(config).resume,
        final(config).notifications == old(config).notifications,
        final(config).otel == old(config).otel,
        final(config).mcp == old(config).mcp,
        final(config).bot == old(config).bot,
{
    let ghost p0 = pair_views(ov@);
    set_bool(env, "PALINGENESIS_OPENCODE_ENABLED", &mut config.opencode.enabled, ov);
    set_u16(env, "PALINGENESIS_OPENCODE_SERVE_PORT", &mut config.opencode.serve_port, ov);
    set_text(env, "PALINGENESIS_OPENCODE_SERVE_HOSTNAME", &mut config.opencode.serve_hostname, ov);
    set_bool(env, "PALINGENESIS_OPENCODE_AUTO_RESTART", &mut config.opencode.auto_restart, ov);
    set_u64(env, "PALINGENESIS_OPENCODE_RESTART_DELAY_MS", &mut config.opencode.restart_delay_ms, ov);
    set_u64(env, "PALINGENESIS_OPENCODE_HEALTH_CHECK_INTERVAL", &mut config.opencode.health_check_interval, ov);
    proof { assert(pair_views(ov@) =~= p0 + opencode_entries(env.vars@)); }
}

fn apply_resume(config: &mut Config, env: &EnvVars, ov: &mut Vec<(String, String)>)
    ensures
        resume_applied(*old(config), *final(config), env.vars@),
        pair_views(final(ov)@) == pair_views(old(ov)@) + resume_entries(env.vars@),
        final(config).daemon == old(config).daemon,
        final(config).monitoring == old(config).monitoring,
        final(config).opencode == old(config).opencode,
        final(config).notifications == old(config).notifications,
        final(config).otel == old(config).otel,
        final(config).mcp == old(config).mcp,
        final(config).bot == old(config).bot,
{
    let ghost p0 = pair_views(ov@);
    set_bool(env, "PALINGENESIS_RESUME_ENABLED", &mut config.resume.enabled, ov);
    set_u64(env, "PALINGENESIS_RESUME_BASE_DELAY_SECS", &mut config.resume.base_delay_secs, ov);
    set_u64(env, "PALINGENESIS_RESUME_MAX_DELAY_SECS", &mut config.resume.max_delay_secs, ov);
    set_u32(env, "PALINGENESIS_RESUME_MAX_RETRIES", &mut config.resume.max_retries, ov);
    set_bool(env, "PALINGENESIS_RESUME_JITTER", &mut config.resume.jitter, ov);
    set_u32(env, "PALINGENESIS_RESUME_BACKUP_COUNT", &mut config.resume.backup_count, ov);
    proof { assert(pair_views(ov@) =~= p0 + resume_entries(env.vars@)); }
}

fn apply_webhook(n: &mut NotificationsConfig, env: &EnvVars, ov: &mut Vec<(String, String)>)
    ensures
        final(n).enabled == (old(n).enabled || is_set(env.vars@, "PALINGENESIS_WEBHOOK_URL"@)),
        match lookup(env.vars@, "PALINGENESIS_WEBHOOK_URL"@) {
            Some(u) => final(n).webhook matches Some(w) && w.url@ == u && w.headers is None,
            None => final(n).webhook == old(n).webhook,
        },
        final(n).ntfy == old(n).ntfy,
        final(n).discord == old(n).discord,
        final(n).slack == old(n).slack,
        pair_views(final(ov)@) == pair_views(old(ov)@) + entry(env.vars@, "PALINGENESIS_WEBHOOK_URL"@),
{
    match env.get("PALINGENESIS_WEBHOOK_URL") {
        Some(url) => {
            n.webhook = Some(WebhookConfig { url: url.clone(), headers: None });
            n.enabled = true;
            record(ov, "PALINGENESIS_WEBHOOK_URL", url);
        },
        None => {
            proof { lemma_no_entry(ov@, env.vars@, "PALINGENESIS_WEBHOOK_URL"@); }
        },
    }
}

fn apply_ntfy(n: &mut NotificationsConfig, env: &EnvVars, ov: &mut Vec<(String, String)>)
    ensures
        final(n).enabled == (old(n).enabled || is_set(env.vars@, "PALINGENESIS_NTFY_TOPIC"@)),
        match lookup(env.vars@, "PALINGENESIS_NTFY_TOPIC"@) {
            Some(t) => final(n).ntfy matches Some(c) && c.topic@ == t
                && opt_text(c.server) == lookup(env.vars@, "PALINGENESIS_NTFY_SERVER"@)
                && opt_text(c.priority) == lookup(env.vars@, "PALINGENESIS_NTFY_PRIORITY"@),
            None => final(n).ntfy == old(n).ntfy,
        },
        final(n).webhook == old(n).webhook,
        final(n).discord == old(n).discord,
        final(n).slack == old(n).slack,
        pair_views(final(ov)@) == pair_views(old(ov)@) + ntfy_entries(env.vars@),
{
    let ghost p0 = pair_views(ov@);
    match env.get("PALINGENESIS_NTFY_TOPIC") {
        Some(topic) => {
            let server = env.get("PALINGENESIS_NTFY_SERVER");
            match &server {
                Some(v) => { record(ov, "PALINGENESIS_NTFY_SERVER", v.clone()); },
                None => { proof { lemma_no_entry(ov@, env.vars@, "PALINGENESIS_NTFY_SERVER"@); } },
            }
            let priority = env.get("PALINGENESIS_NTFY_PRIORITY");
            match &priority {
                Some(v) => { record(ov, "PALINGENESIS_NTFY_PRIORITY", v.clone()); },
                None => { proof { lemma_no_entry(ov@, env.vars@, "PALINGENESIS_NTFY_PRIORITY"@); } },
            }
            n.ntfy = Some(NtfyConfig { topic: topic.clone(), server, priority });
            n.enabled = true;
            record(ov, "PALINGENESIS_NTFY_TOPIC", topic);
            proof { assert(pair_views(ov@) =~= p0 + ntfy_entries(env.vars@)); }
        },
        None => {
            proof { assert(pair_views(ov@) =~= p0 + ntfy_entries(env.vars@)); }
        },
    }
}

fn apply_chat_webhooks(n: &mut NotificationsConfig, env: &EnvVars, ov: &mut Vec<(String, String)>)
    ensures
        final(n).enabled == (old(n).enabled || is_set(env.vars@, "PALINGENESIS_DISCORD_WEBHOOK_URL"@)
            || is_set(env.vars@, "PALINGENESIS_SLACK_WEBHOOK_URL"@)),
        match lookup(env.vars@, "PALINGENESIS_DISCORD_WEBHOOK_URL"@) {
            Some(u) => final(n).discord matches Some(d) && d.webhook_url@ == u,
            None => final(n).discord == old(n).discord,
        },
        match lookup(env.vars@, "PALINGENESIS_SLACK_WEBHOOK_URL"@) {
            Some(u) => final(n).slack matches Some(d) && d.webhook_url@ == u,
            None => final(n).slack == old(n).slack,
        },
        final(n).webhook == old(n).webhook,
        final(n).ntfy == old(n).ntfy,
        pair_views(final(ov)@) == pair_views(old(ov)@) + entry(env.vars@, "PALINGENESIS_DISCORD_WEBHOOK_URL"@)
            + entry(env.vars@, "PALINGENESIS_SLACK_WEBHOOK_URL"@),
{
    let ghost p0 = pair_views(ov@);
    match env.get("PALINGENESIS_DISCORD_WEBHOOK_URL") {
        Some(url) => {
            n.discord = Some(DiscordConfig { webhook_url: url.clone() });
            n.enabled = true;
            record(ov, "PALINGENESIS_DISCORD_WEBHOOK_URL", url);
        },
        None => {
            proof { lemma_no_entry(ov@, env.vars@, "PALINGENESIS_DISCORD_WEBHOOK_URL"@); }
        },
    }
    match env.get("PALINGENESIS_SLACK_WEBHOOK_URL") {
        Some(url) => {
            n.slack = Some(SlackConfig { webhook_url: url.clone() });
            n.enabled = true;
            record(ov, "PALINGENESIS_SLACK_WEBHOOK_URL", url);
        },
        None => {
            proof { lemma_no_entry(ov@, env.vars@, "PALINGENESIS_SLACK_WEBHOOK_URL"@); }
        },
    }
}

#[verifier::spinoff_prover]
#[verifier::rlimit(40)]
fn apply_notifications(config: &mut Config, env: &EnvVars, ov: &mut Vec<(String, String)>)
    ensures
        notifications_applied(*old(config), *final(config), env.vars@),
        pair_views(final(ov)@) == pair_views(old(ov)@) + notification_entries(env.vars@),
        final(config).daemon == old(config).daemon,
        final(config).monitoring == old(config).monitoring,
        final(config).opencode == old(config).opencode,
        final(config).resume == old(config).resume,
        final(config).otel == old(config).otel,
        final(config).mcp == old(config).mcp,
        final(config).bot == old(config).bot,
{
    let ghost p0 = pair_views(ov@);
    set_bool(env, "PALINGENESIS_NOTIFICATIONS_ENABLED", &mut config.notifications.enabled, ov);
    apply_webhook(&mut config.notifications, env, ov);
    apply_ntfy(&mut config.notifications, env, ov);
    apply_chat_webhooks(&mut config.notifications, env, ov);
    proof { assert(pair_views(ov@) =~= p0 + notification_entries(env.vars@)); }
}

fn env_has(env: &EnvVars, key: &str) -> (r: bool)
    ensures
        r == is_set(env.vars@, key@),
{
    env.get(key).is_some()
}

fn apply_otel(config: &mut Config, env: &EnvVars, ov: &mut Vec<(String, String)>)
    ensures
        otel_applied(*old(config), *final(config), env.vars@),
        pair_views(final(ov)@) == pair_views(old(ov)@) + otel_entries(env.vars@),
        final(config).daemon == old(config).daemon,
        final(config).monitoring == old(config).monitoring,
        final(config).opencode == old(config).opencode,
        final(config).resume == old(config).resume,
        final(config).notifications == old(config).notifications,
        final(config).mcp == old(config).mcp,
        final(config).bot == old(config).bot,
{
    let any = env_has(env, "PALINGENESIS_OTEL_ENABLED") || env_has(env, "PALINGENESIS_OTEL_ENDPOINT")
        || env_has(env, "PALINGENESIS_OTEL_SERVICE_NAME") || env_has(env, "PALINGENESIS_OTEL_TRACES")
        || env_has(env, "PALINGENESIS_OTEL_METRICS") || env_has(env, "PALINGENESIS_OTEL_METRICS_ENABLED")
        || env_has(env, "PALINGENESIS_OTEL_PROTOCOL");
    if !any {
        proof { assert(pair_views(ov@) =~= pair_views(ov@) + otel_entries(env.vars@)); }
        return;
    }
    let mut o: OtelConfig = match &config.otel {
        Some(b) => b.clone(),
        None => OtelConfig::default(),
    };
    let ghost b = o;
    proof { assert(otel_base_matches(old(config).otel, b)); }
    apply_otel_fields(&mut o, env, ov);
    config.otel = Some(o);
}

fn apply_otel_fields(o: &mut OtelConfig, env: &EnvVars, ov: &mut Vec<(String, String)>)
    ensures
        final(o).enabled == pick_bool(old(o).enabled, lookup(env.vars@, "PALINGENESIS_OTEL_ENABLED"@)),
        opt_text(final(o).endpoint)
            == pick_opt_text(opt_text(old(o).endpoint), lookup(env.vars@, "PALINGENESIS_OTEL_ENDPOINT"@)),
        final(o).service_name@ == pick_text(old(o).service_name@, lookup(env.vars@, "PALINGENESIS_OTEL_SERVICE_NAME"@)),
        final(o).traces == pick_bool(old(o).traces, lookup(env.vars@, "PALINGENESIS_OTEL_TRACES"@)),
        final(o).metrics == pick_bool(old(o).metrics, lookup(env.vars@, "PALINGENESIS_OTEL_METRICS"@)),
        final(o).metrics_enabled
            == pick_bool(old(o).metrics_enabled, lookup(env.vars@, "PALINGENESIS_OTEL_METRICS_ENABLED"@)),
        final(o).protocol@ == pick_text(old(o).protocol@, lookup(env.vars@, "PALINGENESIS_OTEL_PROTOCOL"@)),
        pair_views(final(ov)@) == pair_views(old(ov)@) + otel_entries(env.vars@),
{
    let ghost p0 = pair_views(ov@);
    set_bool(env, "PALINGENESIS_OTEL_ENABLED", &mut o.enabled, ov);
    set_opt_text(env, "PALINGENESIS_OTEL_ENDPOINT", &mut o.endpoint, ov);
    set_text(env, "PALINGENESIS_OTEL_SERVICE_NAME", &mut o.service_name, ov);
    set_bool(env, "PALINGENESIS_OTEL_TRACES", &mut o.traces, ov);
    set_bool(env, "PALINGENESIS_OTEL_METRICS", &mut o.metrics, ov);
    set_bool(env, "PALINGENESIS_OTEL_METRICS_ENABLED", &mut o.metrics_enabled, ov);
    set_text(env, "PALINGENESIS_OTEL_PROTOCOL", &mut o.protocol, ov);
    proof { assert(pair_views(ov@) =~= p0 + otel_entries(env.vars@)); }
}

/// An environment variable's value wins over what the configuration says;
/// a setting whose variable is not set keeps its value.
pub proof fn lemma_variable_wins(o: Config, n: Config, v: Seq<(String, String)>)
    requires
        overrides_applied(o, n, v),
    ensures
        lookup(v, "PALINGENESIS_LOG_LEVEL"@) matches Some(x) ==> n.daemon.log_level@ == x,
        lookup(v, "PALINGENESIS_LOG_LEVEL"@) is None ==> n.daemon.log_level@ == o.daemon.log_level@,
        lookup(v, "PALINGENESIS_HTTP_BIND"@) matches Some(x) ==> n.daemon.http_bind@ == x,
        lookup(v, "PALINGENESIS_PID_FILE"@) matches Some(x) ==> opt_text(n.daemon.pid_file) == Some(x),
        lookup(v, "PALINGENESIS_HTTP_PORT"@) matches Some(x) ==> (parse_unsigned(x, 0xffff) matches Some(p)
            ==> n.daemon.http_port == p),
        n.mcp == o.mcp,
        n.bot == o.bot,
{
}

/// With no variable set, nothing is overridden: no override is reported and
/// every daemon setting keeps its value.
pub proof fn lemma_empty_environment(o: Config, n: Config)
    requires
        overrides_applied(o, n, Seq::<(String, String)>::empty()),
    ensures
        override_entries(Seq::<(String, String)>::empty()).len() == 0,
        n.daemon.log_level@ == o.daemon.log_level@,
        n.daemon.http_enabled == o.daemon.http_enabled,
        n.daemon.http_port == o.daemon.http_port,
        n.daemon.http_bind@ == o.daemon.http_bind@,
        opt_text(n.daemon.pid_file) == opt_text(o.daemon.pid_file),
        opt_text(n.daemon.socket_path) == opt_text(o.daemon.socket_path),
        opt_text(n.daemon.log_file) == opt_text(o.daemon.log_file),
{
    let v = Seq::<(String, String)>::empty();
    assert(daemon_entries(v) =~= Seq::<(Seq<char>, Seq<char>)>::empty());
    assert(monitoring_entries(v) =~= Seq::<(Seq<char>, Seq<char>)>::empty());
    assert(opencode_entries(v) =~= Seq::<(Seq<char>, Seq<char>)>::empty());
    assert(resume_entries(v) =~= Seq::<(Seq<char>, Seq<char>)>::empty());
    assert(notification_entries(v) =~= Seq::<(Seq<char>, Seq<char>)>::empty());
    assert(otel_entries(v) =~= Seq::<(Seq<char>, Seq<char>)>::empty());
}

/// Applies the `PALINGENESIS_*` variables of `env` to `config` and returns
/// the (name, value) pairs that were applied, in order.
///
/// Values that must parse (booleans and integers) are all checked first: if
/// one does not parse, the error names the first such variable and the
/// configuration is left unchanged. A notification channel that is set up
/// from the environment also enables notifications; any telemetry variable
/// creates the telemetry section from its defaults when it is missing.
pub fn apply_env_overrides(config: &mut Config, env: &EnvVars) -> (r: Result<Vec<(String, String)>, EnvOverrideError>)
    ensures
        match r {
            Err(e) => {
                &&& *final(config) == *old(config)
                &&& exists|i: int|
                    0 <= i < checked_count() && e.key@ == checked_key(i) && e.expected == checked_kind(i)
                    && lookup(env.vars@, checked_key(i)) == Some(e.value@)
                    && !check_ok(env.vars@, i) && forall|j: int| 0 <= j < i ==> #[trigger] check_ok(env.vars@, j)
            },
            Ok(ov) => {
                &&& env_values_ok(env.vars@)
                &&& pair_views(ov@) == override_entries(env.vars@)
                &&& overrides_applied(*old(config), *final(config), env.vars@)
            },
        },
{
    match check_env_values(env) {
        Err(e) => {
            return Err(e);
        },
        Ok(()) => {},
    }
    let mut ov: Vec<(String, String)> = Vec::new();
    let ghost c0 = *config;
    apply_daemon(config, env, &mut ov);
    let ghost c1 = *config;
    apply_monitoring(config, env, &mut ov);
    let ghost c2 = *config;
    apply_opencode(config, env, &mut ov);
    let ghost c3 = *config;
    apply_resume(config, env, &mut ov);
    let ghost c4 = *config;
    apply_notifications(config, env, &mut ov);
    let ghost c5 = *config;
    apply_otel(config, env, &mut ov);
    proof {
        assert(pair_views(ov@) =~= override_entries(env.vars@));
        assert(daemon_applied(c0, *config, env.vars@));
        assert(monitoring_applied(c0, *config, env.vars@));
        assert(opencode_applied(c0, *config, env.vars@));
        assert(resume_applied(c0, *config, env.vars@));
        assert(notifications_applied(c0, *config, env.vars@));
    }
    Ok(ov)
}

} // verus!
