//! Tracking `opencode` processes: recognising them from their command lines
//! and telling, poll after poll, which started and which stopped.

use vstd::prelude::*;

use crate::text::{
    chars_of, contains, contains_chars, opt_text, parse_signed, parse_signed_chars, split_whitespace, trim,
    views, words,
};

verus! {

/// A watched process.
#[derive(Debug)]
pub struct ProcessInfo {
    pub pid: u32,
    /// The command line, one argument per item.
    pub command_line: Vec<String>,
    /// Start time, in seconds since the Unix epoch, when known.
    pub start_time: Option<u64>,
    /// Working directory, when known.
    pub working_dir: Option<String>,
}

impl Clone for ProcessInfo {
    fn clone(&self) -> (r: Self)
        ensures
            r.pid == self.pid,
            r.command_line@ == self.command_line@,
            r.start_time == self.start_time,
            r.working_dir == self.working_dir,
    {
        ProcessInfo {
            pid: self.pid,
            command_line: crate::config::schema::clone_strings(&self.command_line),
            start_time: self.start_time,
            working_dir: crate::config::schema::clone_opt_string(&self.working_dir),
        }
    }
}

/// What the process monitor reports.
#[derive(Debug)]
pub enum ProcessEvent {
    ProcessStarted(ProcessInfo),
    ProcessStopped { info: ProcessInfo, exit_code: Option<i32> },
}

/// Why processes could not be listed.
#[derive(Debug)]
pub enum ProcessError {
    Io(String),
    EnumerationFailed(String),
    PermissionDenied,
}

/// Lists the `opencode` processes of the machine.
pub trait ProcessEnumerator {
    fn list_opencode_processes(&self) -> Result<Vec<ProcessInfo>, ProcessError>;

    /// The exit code of a finished process, when it can still be read.
    fn try_get_exit_code(&self, pid: u32) -> Option<i32>;
}

/// Gives the process monitor its settings.
pub trait ProcessStateAccess: Sized {
    /// The milliseconds between polls that this state gives. An
    /// implementation says so by defining it; left alone, it is some fixed
    /// value for each state.
    open spec fn poll_interval_of(&self) -> u64 {
        arbitrary::<spec_fn(Self) -> u64>()(*self)
    }

    /// Milliseconds between polls.
    fn process_poll_interval_ms(&self) -> (r: u64)
        ensures
            r == self.poll_interval_of(),
    ;
}

/// Process monitor settings.
#[derive(Debug, Clone, Copy, PartialEq, Eq)]
pub struct ProcessMonitor {
    /// Milliseconds between polls.
    pub poll_interval_ms: u64,
}

impl ProcessMonitor {
    /// Polls every second.
    pub fn new() -> (r: Self)
        ensures
            r.poll_interval_ms == 1000,
    {
        ProcessMonitor { poll_interval_ms: 1000 }
    }

    /// The same monitor polling every `interval_ms` milliseconds.
    pub fn with_poll_interval(self, interval_ms: u64) -> (r: Self)
        ensures
            r.poll_interval_ms == interval_ms,
    {
        ProcessMonitor { poll_interval_ms: interval_ms }
    }

    /// A monitor polling as often as `state` says.
    pub fn from_state<S: ProcessStateAccess>(state: &S) -> (r: Self)
        ensures
            r.poll_interval_ms == state.poll_interval_of(),
    {
        ProcessMonitor { poll_interval_ms: state.process_poll_interval_ms() }
    }
}

// ---------------------------------------------------------------------------
// Command lines
// ---------------------------------------------------------------------------

/// `String::from_utf8_lossy`: the bytes decoded as UTF-8, each invalid
/// sequence replaced by U+FFFD.
pub uninterp spec fn utf8_lossy(bytes: Seq<u8>) -> Seq<char>;

/// Calls `String::from_utf8_lossy`. ASCII bytes are valid UTF-8, each
/// decoding to the character with its code.
#[verifier::external_body]
pub(crate) fn from_utf8_lossy(bytes: &[u8]) -> (r: String)
    ensures
        r@ == utf8_lossy(bytes@),
        (forall|i: int| 0 <= i < bytes@.len() ==> #[trigger] bytes@[i] < 0x80)
            ==> r@ == bytes@.map_values(|b: u8| b as char),
{
    String::from_utf8_lossy(bytes).into_owned()
}

/// The non-empty NUL-separated fields of `b` from `start` to its end.
pub open spec fn nul_fields(b: Seq<u8>) -> Seq<Seq<u8>>
    decreases b.len(),
{
    if b.len() == 0 {
        seq![]
    } else {
        let i = last_nul(b);
        proof { lemma_last_nul_bounds(b); }
        let head = if i < 0 { seq![] } else { nul_fields(b.take(i)) };
        let tail = b.skip(i + 1);
        if tail.len() > 0 {
            head.push(tail)
        } else {
            head
        }
    }
}

/// Index of the last NUL byte of `b`, or -1.
pub open spec fn last_nul(b: Seq<u8>) -> int
    decreases b.len(),
{
    if b.len() == 0 {
        -1
    } else if b.last() == 0 {
        b.len() - 1
    } else {
        last_nul(b.drop_last())
    }
}

pub open spec fn lossy_all(fields: Seq<Seq<u8>>) -> Seq<Seq<char>> {
    fields.map_values(|f: Seq<u8>| utf8_lossy(f))
}

pub open spec fn nonempty(v: Seq<Seq<char>>) -> Seq<Seq<char>>
    decreases v.len(),
{
    if v.len() == 0 {
        seq![]
    } else if v.last().len() > 0 {
        nonempty(v.drop_last()).push(v.last())
    } else {
        nonempty(v.drop_last())
    }
}

/// A `/proc/<pid>/cmdline` file's arguments: its non-empty NUL-separated
/// fields, decoded leniently, empty results dropped.
pub open spec fn cmdline_spec(b: Seq<u8>) -> Seq<Seq<char>> {
    nonempty(lossy_all(nul_fields(b)))
}

pub open spec fn texts(v: Seq<String>) -> Seq<Seq<char>> {
    v.map_values(|s: String| s@)
}

pub proof fn lemma_last_nul_bounds(b: Seq<u8>)
    ensures
        -1 <= last_nul(b) < b.len(),
        last_nul(b) >= 0 ==> b[last_nul(b)] == 0,
        forall|j: int| last_nul(b) < j < b.len() ==> b[j] != 0,
    decreases b.len(),
{
    if b.len() > 0 && b.last() != 0 {
        lemma_last_nul_bounds(b.drop_last());
        assert forall|j: int| last_nul(b) < j < b.len() implies b[j] != 0 by {
            if j < b.len() - 1 {
                assert(b.drop_last()[j] == b[j]);
            }
        }
    }
}


/// Splits a `/proc/<pid>/cmdline` file into arguments (see [`cmdline_spec`]).
pub fn parse_cmdline(bytes: &[u8]) -> (r: Vec<String>)
    ensures
        texts(r@) == cmdline_spec(bytes@),
{
    let n = bytes.len();
    let mut fields: Vec<Vec<u8>> = Vec::new();
    let mut start: usize = 0;
    let mut idx: usize = 0;
    while idx < n
        invariant
            n == bytes@.len(),
            start <= idx <= n,
            start == 0 || bytes@[start - 1] == 0,
            forall|j: int| start <= j < idx ==> bytes@[j] != 0,
            byte_views(fields@) == (if start == 0 { seq![] } else { nul_fields(bytes@.take(start - 1)) }),
        decreases n - idx,
    {
        if bytes[idx] == 0 {
            let mut f: Vec<u8> = Vec::new();
            let mut k = start;
            while k < idx
                invariant
                    start <= k <= idx < n == bytes@.len(),
                    f@ == bytes@.subrange(start as int, k as int),
                decreases idx - k,
            {
                f.push(bytes[k]);
                proof { assert(bytes@.subrange(start as int, k as int + 1) =~= f@); }
                k = k + 1;
            }
            proof {
                let t = bytes@.take(idx as int);
                lemma_fields_at_nul(bytes@, start as int, idx as int);
            }
            if f.len() > 0 {
                fields.push(f);
            }
            proof {
                assert(byte_views(fields@) =~= nul_fields(bytes@.take(idx as int)));
            }
            start = idx + 1;
        }
        idx = idx + 1;
    }
    let mut f: Vec<u8> = Vec::new();
    let mut k = start;
    while k < n
        invariant
            start <= k <= n == bytes@.len(),
            f@ == bytes@.subrange(start as int, k as int),
        decreases n - k,
    {
        f.push(bytes[k]);
        proof { assert(bytes@.subrange(start as int, k as int + 1) =~= f@); }
        k = k + 1;
    }
    proof { lemma_fields_at_end(bytes@, start as int); }
    if f.len() > 0 {
        fields.push(f);
    }
    proof { assert(byte_views(fields@) =~= nul_fields(bytes@)); }
    let m = fields.len();
    let mut out: Vec<String> = Vec::new();
    let mut i: usize = 0;
    let ghost fv = byte_views(fields@);
    proof { assert(fv.take(0) =~= Seq::<Seq<u8>>::empty()); }
    while i < m
        invariant
            m == fields@.len(),
            i <= m,
            fv == byte_views(fields@),
            texts(out@) == nonempty(lossy_all(fv.take(i as int))),
        decreases m - i,
    {
        let s = from_utf8_lossy(fields[i].as_slice());
        proof {
            assert(lossy_all(fv.take(i as int + 1)).drop_last() =~= lossy_all(fv.take(i as int)));
            assert(lossy_all(fv.take(i as int + 1)).last() == utf8_lossy(fields@[i as int]@));
        }
        if !s.as_str().is_empty() {
            let ghost before = texts(out@);
            out.push(s);
            proof { assert(texts(out@) =~= before.push(s@)); }
        }
        i = i + 1;
    }
    proof { assert(fv.take(m as int) =~= fv); }
    out
}

pub open spec fn byte_views(v: Seq<Vec<u8>>) -> Seq<Seq<u8>> {
    v.map_values(|f: Vec<u8>| f@)
}

/// At a NUL at `i` whose field starts at `start`, the fields so far are
/// those before `start` and, when not empty, the one ending at `i`.
proof fn lemma_fields_at_nul(b: Seq<u8>, start: int, i: int)
    requires
        0 <= start <= i < b.len(),
        b[i] == 0,
        start == 0 || b[start - 1] == 0,
        forall|j: int| start <= j < i ==> b[j] != 0,
    ensures
        nul_fields(b.take(i)) == {
            let head = if start == 0 { seq![] } else { nul_fields(b.take(start - 1)) };
            if i > start { head.push(b.subrange(start, i)) } else { head }
        },
{
    let t = b.take(i);
    if t.len() == 0 {
        assert(start == 0);
    } else {
        lemma_last_nul_bounds(t);
        let k = last_nul(t);
        if k >= 0 {
            assert(t[k] == 0);
            assert(k == start - 1) by {
                if k >= start {
                    assert(b[k] != 0);
                }
                if k < start - 1 {
                    assert(t[start - 1] == 0);
                }
            }
            assert(t.take(k) =~= b.take(start - 1));
        } else {
            assert(start == 0) by {
                if start > 0 {
                    assert(t[start - 1] == 0);
                }
            }
        }
        assert(t.skip(k + 1) =~= b.subrange(start, i));
    }
}

/// At the end, the fields are those before `start` and, when not empty,
/// the last one.
proof fn lemma_fields_at_end(b: Seq<u8>, start: int)
    requires
        0 <= start <= b.len(),
        start == 0 || b[start - 1] == 0,
        forall|j: int| start <= j < b.len() ==> b[j] != 0,
    ensures
        nul_fields(b) == {
            let head = if start == 0 { seq![] } else { nul_fields(b.take(start - 1)) };
            if b.len() > start { head.push(b.subrange(start, b.len() as int)) } else { head }
        },
{
    if b.len() == 0 {
    } else {
        lemma_last_nul_bounds(b);
        let k = last_nul(b);
        if k >= 0 {
            assert(k == start - 1) by {
                if k >= start {
                    assert(b[k] != 0);
                }
                if k < start - 1 {
                    assert(b[start - 1] == 0);
                }
            }
        } else {
            assert(start == 0) by {
                if start > 0 {
                    assert(b[start - 1] == 0);
                }
            }
        }
        assert(b.skip(k + 1) =~= b.subrange(start, b.len() as int));
    }
}

/// `Path::file_name` of a path text, by name.
pub uninterp spec fn std_path_file_name(p: Seq<char>) -> Option<Seq<char>>;

/// Calls `std::path::Path::file_name`, as text.
#[verifier::external_body]
fn path_file_name(p: &str) -> (r: Option<String>)
    ensures
        opt_text(r) == std_path_file_name(p@),
{
    match std::path::Path::new(p).file_name() {
        Some(n) => Some(n.to_string_lossy().into_owned()),
        None => None,
    }
}

/// The file name of an argument (the argument itself when it has none)
/// mentions `opencode`.
pub open spec fn names_opencode(arg: Seq<char>) -> bool {
    let name = match std_path_file_name(arg) {
        Some(n) => n,
        None => arg,
    };
    contains(name, "opencode"@)
}

/// Whether an argument's file name mentions `opencode`.
pub fn command_name_matches(value: &str) -> (r: bool)
    ensures
        r == names_opencode(value@),
{
    let name = match path_file_name(value) {
        Some(n) => chars_of(n.as_str()),
        None => chars_of(value),
    };
    let pat = chars_of("opencode");
    contains_chars(name.as_slice(), pat.as_slice())
}

/// Some argument of the command line names `opencode`.
pub open spec fn is_opencode_spec(args: Seq<Seq<char>>) -> bool {
    exists|i: int| 0 <= i < args.len() && names_opencode(#[trigger] args[i])
}

/// Whether a command line is that of an `opencode` process.
pub fn is_opencode_command(args: &[String]) -> (r: bool)
    ensures
        r == is_opencode_spec(texts(args@)),
{
    let n = args.len();
    let mut i: usize = 0;
    while i < n
        invariant
            n == args@.len(),
            i <= n,
            forall|j: int| 0 <= j < i ==> !names_opencode(#[trigger] texts(args@)[j]),
        decreases n - i,
    {
        if command_name_matches(args[i].as_str()) {
            proof { assert(names_opencode(texts(args@)[i as int])); }
            return true;
        }
        proof { assert(!names_opencode(texts(args@)[i as int])); }
        i = i + 1;
    }
    false
}

/// Index of the last `)` of a text, or -1.
pub open spec fn last_paren(s: Seq<char>) -> int
    decreases s.len(),
{
    if s.len() == 0 {
        -1
    } else if s.last() == ')' {
        s.len() - 1
    } else {
        last_paren(s.drop_last())
    }
}

/// The exit code in a `/proc/<pid>/stat` text: the 50th field after the
/// command name (which ends at the last `)`), as an `i32`.
pub open spec fn exit_code_spec(stat: Seq<char>) -> Option<i32> {
    let p = last_paren(stat);
    if p < 0 {
        None
    } else {
        let fields = words(trim(stat.skip(p + 1)));
        if fields.len() <= 49 {
            None
        } else {
            match parse_signed(fields[49], i32::MIN as int, i32::MAX as int) {
                Some(v) => Some(v as i32),
                None => None,
            }
        }
    }
}


/// Reads the exit code from a `/proc/<pid>/stat` text (see
/// [`exit_code_spec`]).
pub fn parse_exit_code_from_stat(stat: &str) -> (r: Option<i32>)
    ensures
        r == exit_code_spec(stat@),
{
    let s = chars_of(stat);
    let n = s.len();
    let mut p: usize = n;
    proof { assert(s@.take(n as int) =~= s@); }
    while p > 0 && s[p - 1] != ')'
        invariant
            p <= n == s@.len(),
            last_paren(s@) == last_paren(s@.take(p as int)),
        decreases p,
    {
        proof { assert(s@.take(p as int).drop_last() =~= s@.take(p as int - 1)); }
        p = p - 1;
    }
    proof {
        assert(s@.take(n as int) =~= s@);
    }
    if p == 0 {
        proof { assert(s@.take(0).len() == 0); }
        return None;
    }
    proof {
        assert(s@.take(p as int).last() == ')');
        assert(last_paren(s@) == p - 1);
    }
    let mut rest: Vec<char> = Vec::new();
    let mut i: usize = p;
    while i < n
        invariant
            p <= i <= n == s@.len(),
            rest@ == s@.subrange(p as int, i as int),
        decreases n - i,
    {
        rest.push(s[i]);
        proof { assert(s@.subrange(p as int, i as int + 1) =~= rest@); }
        i = i + 1;
    }
    proof { assert(rest@ =~= s@.skip(p as int)); }
    let t = crate::text::trim_chars(rest.as_slice());
    let fields = split_whitespace(t.as_slice());
    if fields.len() <= 49 {
        return None;
    }
    proof { assert(views(fields@)[49] == fields@[49]@); }
    match parse_signed_chars(fields[49].as_slice(), i32::MIN as i64, i32::MAX as i64) {
        Some(v) => Some(v as i32),
        None => None,
    }
}

// ---------------------------------------------------------------------------
// Tracking
// ---------------------------------------------------------------------------

pub open spec fn pids(v: Seq<ProcessInfo>) -> Seq<u32> {
    v.map_values(|p: ProcessInfo| p.pid)
}

/// What one poll found: the processes that started and those that stopped.
#[derive(Debug)]
pub struct PollOutcome {
    pub started: Vec<ProcessInfo>,
    pub stopped: Vec<ProcessInfo>,
}

/// The PIDs of `cur` that are new: not in `old` and not listed before.
pub open spec fn started_pids(cur: Seq<u32>, old: Seq<u32>) -> Seq<u32>
    decreases cur.len(),
{
    if cur.len() == 0 {
        seq![]
    } else {
        let s = started_pids(cur.drop_last(), old);
        if old.contains(cur.last()) || s.contains(cur.last()) {
            s
        } else {
            s.push(cur.last())
        }
    }
}

/// A process as plain values: PID, command line, start time, working
/// directory.
pub open spec fn info_view(p: ProcessInfo) -> (u32, Seq<Seq<char>>, Option<u64>, Option<Seq<char>>) {
    (p.pid, p.command_line@.map_values(|a: String| a@), p.start_time, opt_text(p.working_dir))
}

pub open spec fn infos(v: Seq<ProcessInfo>) -> Seq<(u32, Seq<Seq<char>>, Option<u64>, Option<Seq<char>>)> {
    v.map_values(|p: ProcessInfo| info_view(p))
}

pub open spec fn info_pids(v: Seq<(u32, Seq<Seq<char>>, Option<u64>, Option<Seq<char>>)>) -> Seq<u32> {
    v.map_values(|x: (u32, Seq<Seq<char>>, Option<u64>, Option<Seq<char>>)| x.0)
}

/// The processes of `cur` that are new: their PID is not in `old` and was
/// not listed before; each as it was first listed.
pub open spec fn started_infos(cur: Seq<(u32, Seq<Seq<char>>, Option<u64>, Option<Seq<char>>)>, old: Seq<u32>)
    -> Seq<(u32, Seq<Seq<char>>, Option<u64>, Option<Seq<char>>)>
    decreases cur.len(),
{
    if cur.len() == 0 {
        seq![]
    } else {
        let s = started_infos(cur.drop_last(), old);
        if old.contains(cur.last().0) || info_pids(s).contains(cur.last().0) {
            s
        } else {
            s.push(cur.last())
        }
    }
}

/// The processes of `s` whose PID `keep` contains (`keep_in`) or does not
/// contain, in order.
pub open spec fn filter_infos(s: Seq<(u32, Seq<Seq<char>>, Option<u64>, Option<Seq<char>>)>, keep: Seq<u32>,
    keep_in: bool) -> Seq<(u32, Seq<Seq<char>>, Option<u64>, Option<Seq<char>>)>
    decreases s.len(),
{
    if s.len() == 0 {
        seq![]
    } else if keep.contains(s.last().0) == keep_in {
        filter_infos(s.drop_last(), keep, keep_in).push(s.last())
    } else {
        filter_infos(s.drop_last(), keep, keep_in)
    }
}

/// The processes being watched, at most one per PID.
#[derive(Debug)]
pub struct ProcessTracker {
    watched: Vec<ProcessInfo>,
}

impl ProcessTracker {
    pub closed spec fn watched_spec(self) -> Seq<ProcessInfo> {
        self.watched@
    }

    /// No PID is watched twice.
    #[verifier::type_invariant]
    spec fn one_per_pid(self) -> bool {
        pids(self.watched@).no_duplicates()
    }

    /// Watches nothing.
    pub fn new() -> (r: Self)
        ensures
            r.watched_spec().len() == 0,
    {
        ProcessTracker { watched: Vec::new() }
    }

    /// The watched PIDs, each once.
    pub fn watched_pids(&self) -> (r: Vec<u32>)
        ensures
            r@ == pids(self.watched_spec()),
            r@.no_duplicates(),
    {
        proof { use_type_invariant(self); }
        pids_of(&self.watched)
    }

    /// Takes note of a poll's processes (at most one is watched per PID). Listed processes not watched yet
    /// start being watched and are reported as started, in the order listed
    /// (a PID listed twice counts once); watched ones no longer listed are
    /// dropped and reported as stopped, in the order they were watched.
    pub fn poll(&mut self, current: Vec<ProcessInfo>) -> (r: PollOutcome)
        ensures
            pids(r.started@) == started_pids(pids(current@), pids(old(self).watched_spec())),
            pids(r.stopped@) == filter_out(pids(old(self).watched_spec()), pids(current@)),
            pids(final(self).watched_spec()) == filter_in(pids(old(self).watched_spec()), pids(current@))
                + pids(r.started@),
            infos(r.started@) == started_infos(infos(current@), pids(old(self).watched_spec())),
            infos(r.stopped@) == filter_infos(infos(old(self).watched_spec()), pids(current@), false),
            infos(final(self).watched_spec()) == filter_infos(infos(old(self).watched_spec()), pids(current@), true)
                + infos(r.started@),
            pids(final(self).watched_spec()).no_duplicates(),
    {
        proof { use_type_invariant(&*self); }
        let old_pids = pids_of(&self.watched);
        let cur_pids = pids_of(&current);
        let n = current.len();
        let mut started: Vec<ProcessInfo> = Vec::new();
        let mut started_ids: Vec<u32> = Vec::new();
        let mut i: usize = 0;
        proof { assert(pids(current@).take(0) =~= Seq::<u32>::empty()); }
        while i < n
            invariant
                n == current@.len(),
                i <= n,
                cur_pids@ == pids(current@),
                started_ids@ == pids(started@),
                started_ids@ == started_pids(pids(current@).take(i as int), old_pids@),
                infos(started@) == started_infos(infos(current@).take(i as int), old_pids@),
            decreases n - i,
        {
            proof {
                assert(pids(current@).take(i as int + 1).drop_last() =~= pids(current@).take(i as int));
                assert(pids(current@).take(i as int + 1).last() == current@[i as int].pid);
                assert(infos(current@).take(i as int + 1).drop_last() =~= infos(current@).take(i as int));
                assert(infos(current@).take(i as int + 1).last() == info_view(current@[i as int]));
                assert(info_pids(infos(started@)) =~= pids(started@));
            }
            let pid = current[i].pid;
            if !contains_pid(&old_pids, pid) && !contains_pid(&started_ids, pid) {
                let ghost before = pids(started@);
                let ghost before_i = infos(started@);
                let p = current[i].clone();
                proof { assert(info_view(p) == info_view(current@[i as int])); }
                started.push(p);
                started_ids.push(pid);
                proof {
                    assert(pids(started@) =~= before.push(pid));
                    assert(infos(started@) =~= before_i.push(info_view(current@[i as int])));
                }
            }
            i = i + 1;
        }
        proof {
            assert(pids(current@).take(n as int) =~= pids(current@));
            assert(infos(current@).take(n as int) =~= infos(current@));
        }
        let mut stopped: Vec<ProcessInfo> = Vec::new();
        let mut kept: Vec<ProcessInfo> = Vec::new();
        let m = self.watched.len();
        let mut j: usize = 0;
        proof { assert(old_pids@.take(0) =~= Seq::<u32>::empty()); }
        while j < m
            invariant
                m == self.watched@.len(),
                j <= m,
                old_pids@ == pids(self.watched@),
                cur_pids@ == pids(current@),
                pids(kept@) == filter_in(old_pids@.take(j as int), pids(current@)),
                pids(stopped@) == filter_out(old_pids@.take(j as int), pids(current@)),
                infos(kept@) == filter_infos(infos(self.watched@).take(j as int), pids(current@), true),
                infos(stopped@) == filter_infos(infos(self.watched@).take(j as int), pids(current@), false),
            decreases m - j,
        {
            proof {
                assert(old_pids@.take(j as int + 1).drop_last() =~= old_pids@.take(j as int));
                assert(old_pids@.take(j as int + 1).last() == self.watched@[j as int].pid);
                assert(infos(self.watched@).take(j as int + 1).drop_last() =~= infos(self.watched@).take(j as int));
                assert(infos(self.watched@).take(j as int + 1).last() == info_view(self.watched@[j as int]));
            }
            let pid = self.watched[j].pid;
            let p = self.watched[j].clone();
            proof { assert(info_view(p) == info_view(self.watched@[j as int])); }
            if contains_pid(&cur_pids, pid) {
                let ghost kv = pids(kept@);
                let ghost ki = infos(kept@);
                kept.push(p);
                proof {
                    assert(pids(kept@) =~= kv.push(pid));
                    assert(infos(kept@) =~= ki.push(info_view(self.watched@[j as int])));
                }
            } else {
                let ghost sv = pids(stopped@);
                let ghost si = infos(stopped@);
                stopped.push(p);
                proof {
                    assert(pids(stopped@) =~= sv.push(pid));
                    assert(infos(stopped@) =~= si.push(info_view(self.watched@[j as int])));
                }
            }
            j = j + 1;
        }
        proof {
            assert(old_pids@.take(m as int) =~= old_pids@);
            assert(infos(self.watched@).take(m as int) =~= infos(self.watched@));
        }
        let ghost kept_pids = pids(kept@);
        let ghost kept_infos = infos(kept@);
        let mut new_watched = kept;
        let mut k: usize = 0;
        while k < started.len()
            invariant
                k <= started@.len(),
                pids(new_watched@) == kept_pids + pids(started@).take(k as int),
                infos(new_watched@) == kept_infos + infos(started@).take(k as int),
            decreases started@.len() - k,
        {
            let ghost before = pids(new_watched@);
            let ghost before_i = infos(new_watched@);
            let p = started[k].clone();
            proof { assert(info_view(p) == info_view(started@[k as int])); }
            new_watched.push(p);
            proof {
                assert(pids(new_watched@) =~= before.push(started@[k as int].pid));
                assert(pids(started@).take(k as int + 1) =~= pids(started@).take(k as int).push(started@[k as int].pid));
                assert(infos(new_watched@) =~= before_i.push(info_view(started@[k as int])));
                assert(infos(started@).take(k as int + 1) =~= infos(started@).take(k as int).push(info_view(started@[k as int])));
            }
            k = k + 1;
        }
        proof {
            assert(pids(started@).take(k as int) =~= pids(started@));
            assert(infos(started@).take(k as int) =~= infos(started@));
            lemma_poll_watches_listed(old_pids@, cur_pids@);
        }
        self.watched = new_watched;
        PollOutcome { started, stopped }
    }
}

fn pids_of(v: &Vec<ProcessInfo>) -> (r: Vec<u32>)
    ensures
        r@ == pids(v@),
{
    let mut out: Vec<u32> = Vec::new();
    let mut i: usize = 0;
    while i < v.len()
        invariant
            i <= v@.len(),
            out@ == pids(v@).take(i as int),
        decreases v@.len() - i,
    {
        out.push(v[i].pid);
        proof { assert(pids(v@).take(i as int + 1) =~= out@); }
        i = i + 1;
    }
    proof { assert(pids(v@).take(i as int) =~= pids(v@)); }
    out
}

fn contains_pid(v: &Vec<u32>, pid: u32) -> (r: bool)
    ensures
        r == v@.contains(pid),
{
    let mut i: usize = 0;
    while i < v.len()
        invariant
            i <= v@.len(),
            forall|j: int| 0 <= j < i ==> v@[j] != pid,
        decreases v@.len() - i,
    {
        if v[i] == pid {
            return true;
        }
        i = i + 1;
    }
    false
}

/// The items of `s` that `keep` contains, in order.
pub open spec fn filter_in(s: Seq<u32>, keep: Seq<u32>) -> Seq<u32>
    decreases s.len(),
{
    if s.len() == 0 {
        seq![]
    } else if keep.contains(s.last()) {
        filter_in(s.drop_last(), keep).push(s.last())
    } else {
        filter_in(s.drop_last(), keep)
    }
}

/// The items of `s` that `keep` does not contain, in order.
pub open spec fn filter_out(s: Seq<u32>, keep: Seq<u32>) -> Seq<u32>
    decreases s.len(),
{
    if s.len() == 0 {
        seq![]
    } else if !keep.contains(s.last()) {
        filter_out(s.drop_last(), keep).push(s.last())
    } else {
        filter_out(s.drop_last(), keep)
    }
}



proof fn lemma_push_contains(s: Seq<u32>, x: u32, p: u32)
    ensures
        s.push(x).contains(p) <==> (s.contains(p) || p == x),
{
    if s.push(x).contains(p) && p != x {
        let k = choose|k: int| 0 <= k < s.push(x).len() && s.push(x)[k] == p;
        assert(s[k] == p);
    }
    if s.contains(p) {
        let k = choose|k: int| 0 <= k < s.len() && s[k] == p;
        assert(s.push(x)[k] == p);
    }
    if p == x {
        assert(s.push(x)[s.len() as int] == p);
    }
}

proof fn lemma_drop_last_contains(s: Seq<u32>, p: u32)
    requires
        s.len() > 0,
    ensures
        s.contains(p) <==> (s.drop_last().contains(p) || p == s.last()),
{
    assert(s =~= s.drop_last().push(s.last()));
    lemma_push_contains(s.drop_last(), s.last(), p);
}

proof fn lemma_push_no_duplicates(s: Seq<u32>, x: u32)
    requires
        s.no_duplicates(),
        !s.contains(x),
    ensures
        s.push(x).no_duplicates(),
{
    let t = s.push(x);
    assert forall|a: int, b: int| 0 <= a < t.len() && 0 <= b < t.len() && a != b implies t[a] != t[b] by {
        if a == s.len() as int {
            assert(t[b] == s[b]);
        } else if b == s.len() as int {
            assert(t[a] == s[a]);
        } else {
            assert(t[a] == s[a] && t[b] == s[b]);
        }
    }
}

proof fn lemma_filter_in(s: Seq<u32>, keep: Seq<u32>, p: u32)
    ensures
        filter_in(s, keep).contains(p) <==> (s.contains(p) && keep.contains(p)),
    decreases s.len(),
{
    if s.len() > 0 {
        lemma_filter_in(s.drop_last(), keep, p);
        lemma_drop_last_contains(s, p);
        if keep.contains(s.last()) {
            lemma_push_contains(filter_in(s.drop_last(), keep), s.last(), p);
        }
    }
}

proof fn lemma_filter_in_no_duplicates(s: Seq<u32>, keep: Seq<u32>)
    requires
        s.no_duplicates(),
    ensures
        filter_in(s, keep).no_duplicates(),
    decreases s.len(),
{
    if s.len() > 0 {
        let t = s.drop_last();
        assert(t.no_duplicates()) by {
            assert forall|a: int, b: int| 0 <= a < t.len() && 0 <= b < t.len() && a != b implies t[a] != t[b] by {
                assert(t[a] == s[a] && t[b] == s[b]);
            }
        }
        lemma_filter_in_no_duplicates(t, keep);
        if keep.contains(s.last()) {
            lemma_filter_in(t, keep, s.last());
            assert(!t.contains(s.last())) by {
                if t.contains(s.last()) {
                    let k = choose|k: int| 0 <= k < t.len() && t[k] == s.last();
                    assert(s[k] == s[s.len() - 1]);
                }
            }
            lemma_push_no_duplicates(filter_in(t, keep), s.last());
        }
    }
}

proof fn lemma_started(cur: Seq<u32>, old: Seq<u32>, p: u32)
    ensures
        started_pids(cur, old).contains(p) <==> (cur.contains(p) && !old.contains(p)),
        started_pids(cur, old).no_duplicates(),
    decreases cur.len(),
{
    if cur.len() > 0 {
        let t = cur.drop_last();
        lemma_started(t, old, p);
        lemma_started(t, old, cur.last());
        lemma_drop_last_contains(cur, p);
        let s = started_pids(t, old);
        if !(old.contains(cur.last()) || s.contains(cur.last())) {
            lemma_push_contains(s, cur.last(), p);
            lemma_push_no_duplicates(s, cur.last());
        }
    } else {
        assert(started_pids(cur, old) =~= Seq::<u32>::empty());
    }
}

/// After a poll, the watched PIDs are exactly those listed, each once
/// (when they were each watched once before).
pub proof fn lemma_poll_watches_listed(old: Seq<u32>, cur: Seq<u32>)
    requires
        old.no_duplicates(),
    ensures
        (filter_in(old, cur) + started_pids(cur, old)).to_set() == cur.to_set(),
        (filter_in(old, cur) + started_pids(cur, old)).no_duplicates(),
{
    let a = filter_in(old, cur);
    let b = started_pids(cur, old);
    let w = a + b;
    assert forall|p: u32| w.contains(p) <==> cur.contains(p) by {
        lemma_filter_in(old, cur, p);
        lemma_started(cur, old, p);
        if w.contains(p) {
            let k = choose|k: int| 0 <= k < w.len() && w[k] == p;
            if k < a.len() {
                assert(a[k] == p);
            } else {
                assert(b[k - a.len()] == p);
            }
        }
        if a.contains(p) {
            let k = choose|k: int| 0 <= k < a.len() && a[k] == p;
            assert(w[k] == p);
        }
        if b.contains(p) {
            let k = choose|k: int| 0 <= k < b.len() && b[k] == p;
            assert(w[a.len() + k] == p);
        }
    }
    assert(w.to_set() =~= cur.to_set());
    lemma_filter_in_no_duplicates(old, cur);
    lemma_started(cur, old, 0);
    assert forall|i: int, j: int| 0 <= i < w.len() && 0 <= j < w.len() && i != j implies w[i] != w[j] by {
        if i < a.len() && j < a.len() {
            assert(w[i] == a[i] && w[j] == a[j]);
        } else if i >= a.len() && j >= a.len() {
            assert(w[i] == b[i - a.len()] && w[j] == b[j - a.len()]);
        } else {
            let (x, y) = if i < a.len() { (i, j) } else { (j, i) };
            lemma_filter_in(old, cur, w[x]);
            lemma_started(cur, old, w[y]);
            assert(a[x] == w[x]);
            assert(b[y - a.len()] == w[y]);
            assert(a.contains(w[x]));
            assert(b.contains(w[y]));
        }
    }
}

} // verus!
