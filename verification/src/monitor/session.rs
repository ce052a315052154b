//! Session files: their YAML frontmatter and the state it records.

use vstd::prelude::*;

use crate::text::{chars_eq_str, chars_of, opt_text, string_from_chars, trim};

verus! {

/// A step identifier (integer or text).
#[derive(Debug, PartialEq, Eq)]
pub enum StepValue {
    Integer(i64),
    String(String),
}

/// Session metadata from the frontmatter.
#[derive(Debug)]
pub struct SessionState {
    /// Steps that have been completed.
    pub steps_completed: Vec<StepValue>,
    /// The last step of the workflow, if known.
    pub last_step: Option<i64>,
    /// Workflow status (e.g. `complete`, `in-progress`).
    pub status: Option<String>,
    /// Type of workflow.
    pub workflow_type: Option<String>,
    /// Project name.
    pub project_name: Option<String>,
    /// Input documents used.
    pub input_documents: Vec<String>,
}

/// A parsed session file.
#[derive(Debug)]
pub struct Session {
    pub path: String,
    pub state: SessionState,
}

impl Session {
    /// The session's status is `complete`.
    pub fn is_complete(&self) -> (r: bool)
        ensures
            r == (opt_text(self.state.status) == Some("complete"@)),
    {
        match &self.state.status {
            Some(s) => {
                let c = chars_of(s.as_str());
                chars_eq_str(c.as_slice(), "complete")
            },
            None => false,
        }
    }

    /// Number of completed steps.
    pub fn steps_completed_count(&self) -> (r: usize)
        ensures
            r == self.state.steps_completed@.len(),
    {
        self.state.steps_completed.len()
    }
}

/// Why a file has no frontmatter block.
#[derive(Debug, PartialEq, Eq)]
pub enum FrontmatterError {
    /// The file does not start with a `---` line, or the block is not closed.
    NoFrontmatter,
}

/// The lines of a text as `BufRead::lines` yields them: split at `\n`, with a
/// `\r` before the `\n` removed, and no empty last line after a final `\n`.
pub open spec fn text_lines(s: Seq<char>) -> Seq<Seq<char>> {
    let raw = raw_lines(s);
    let ls = if s.len() > 0 && s.last() == '\n' { raw.drop_last() } else if s.len() == 0 { seq![] } else { raw };
    stripped(ls)
}

/// Each line without a final `\r`.
pub open spec fn stripped(ls: Seq<Seq<char>>) -> Seq<Seq<char>> {
    ls.map_values(|l: Seq<char>| strip_cr(l))
}

pub open spec fn strip_cr(l: Seq<char>) -> Seq<char> {
    if l.len() > 0 && l.last() == '\r' { l.drop_last() } else { l }
}

/// `s` split at every `\n` (at least one piece).
pub open spec fn raw_lines(s: Seq<char>) -> Seq<Seq<char>>
    decreases s.len(),
{
    if s.len() == 0 {
        seq![seq![]]
    } else {
        let r = raw_lines(s.drop_last());
        if s.last() == '\n' {
            r.push(seq![])
        } else {
            r.update(r.len() - 1, r.last().push(s.last()))
        }
    }
}

pub open spec fn is_delimiter(l: Seq<char>) -> bool {
    trim(l) == "---"@
}

/// Index of the first delimiter line at or after `i`, if any.
pub open spec fn next_delimiter(ls: Seq<Seq<char>>, i: int) -> Option<int>
    decreases ls.len() - i,
{
    if i < 0 || i >= ls.len() {
        None
    } else if is_delimiter(ls[i]) {
        Some(i)
    } else {
        next_delimiter(ls, i + 1)
    }
}

/// Lines `from..to` each followed by `\n`.
pub open spec fn joined_lines(ls: Seq<Seq<char>>, from: int, to: int) -> Seq<char>
    decreases to - from,
{
    if to <= from {
        seq![]
    } else {
        joined_lines(ls, from, to - 1) + ls[to - 1] + seq!['\n']
    }
}

/// The frontmatter of a file's text: the lines between a first line that is
/// `---` (ignoring surrounding whitespace) and the next such line, each
/// followed by `\n`.
pub open spec fn frontmatter_spec(s: Seq<char>) -> Option<Seq<char>> {
    let ls = text_lines(s);
    if ls.len() == 0 || !is_delimiter(ls[0]) {
        None
    } else {
        match next_delimiter(ls, 1) {
            Some(j) => Some(joined_lines(ls, 1, j)),
            None => None,
        }
    }
}

pub open spec fn line_views(v: Seq<Vec<char>>) -> Seq<Seq<char>> {
    v.map_values(|l: Vec<char>| l@)
}

/// The lines of a text (see [`text_lines`]).
pub fn split_lines(text: &str) -> (r: Vec<Vec<char>>)
    ensures
        line_views(r@) == text_lines(text@),
{
    let s = chars_of(text);
    let n = s.len();
    let mut fields: Vec<Vec<char>> = Vec::new();
    let mut cur: Vec<char> = Vec::new();
    let mut i: usize = 0;
    proof { assert(s@.take(0) =~= Seq::<char>::empty()); }
    while i < n
        invariant
            n == s@.len(),
            i <= n,
            raw_lines(s@.take(i as int)) == line_views(fields@).push(cur@),
        decreases n - i,
    {
        let ghost pre = s@.take(i as int);
        proof {
            assert(s@.take(i as int + 1).drop_last() =~= pre);
            assert(s@.take(i as int + 1).last() == s@[i as int]);
        }
        if s[i] == '\n' {
            fields.push(cur);
            cur = Vec::new();
            proof { assert(line_views(fields@).push(cur@) =~= raw_lines(pre).push(seq![])); }
        } else {
            cur.push(s[i]);
            proof {
                let r = raw_lines(pre);
                assert(r.update(r.len() - 1, r.last().push(s@[i as int])) =~= line_views(fields@).push(cur@));
            }
        }
        i = i + 1;
    }
    proof { assert(s@.take(n as int) =~= s@); }
    let ends_with_newline = n > 0 && s[n - 1] == '\n';
    if n > 0 && !ends_with_newline {
        fields.push(cur);
    }
    let ghost ls = line_views(fields@);
    proof {
        if n > 0 && !ends_with_newline {
            assert(ls =~= raw_lines(s@));
        } else if n > 0 {
            assert(ls =~= raw_lines(s@).drop_last());
        } else {
            assert(ls =~= Seq::<Seq<char>>::empty());
        }
    }
    let m = fields.len();
    let mut out: Vec<Vec<char>> = Vec::new();
    let mut k: usize = 0;
    while k < m
        invariant
            m == fields@.len(),
            k <= m,
            ls == line_views(fields@),
            line_views(out@) == stripped(ls.take(k as int)),
        decreases m - k,
    {
        let f = &fields[k];
        let mut line: Vec<char> = Vec::new();
        let len = f.len();
        let keep = if len > 0 && f[len - 1] == '\r' { len - 1 } else { len };
        let mut j: usize = 0;
        while j < keep
            invariant
                keep <= len == f@.len(),
                j <= keep,
                line@ == f@.take(j as int),
            decreases keep - j,
        {
            line.push(f[j]);
            proof { assert(f@.take(j as int + 1) =~= f@.take(j as int).push(f@[j as int])); }
            j = j + 1;
        }
        proof {
            if len > 0 && f@[len - 1] == '\r' {
                assert(line@ =~= f@.drop_last());
            } else {
                assert(line@ =~= f@);
            }
            assert(ls[k as int] == f@);
            assert(strip_cr(ls[k as int]) == line@);
        }
        let ghost before = line_views(out@);
        out.push(line);
        proof {
            assert(line_views(out@) =~= before.push(line@));
            assert(stripped(ls.take(k as int + 1)) =~= stripped(ls.take(k as int)).push(strip_cr(ls[k as int])));
        }
        k = k + 1;
    }
    proof { assert(ls.take(m as int) =~= ls); }
    out
}

/// Whether a line is the `---` delimiter, ignoring surrounding whitespace.
fn line_is_delimiter(l: &Vec<char>) -> (r: bool)
    ensures
        r == is_delimiter(l@),
{
    let t = crate::text::trim_chars(l.as_slice());
    chars_eq_str(t.as_slice(), "---")
}

/// The YAML frontmatter of a session file's text (see [`frontmatter_spec`]).
pub fn extract_frontmatter(text: &str) -> (r: Result<String, FrontmatterError>)
    ensures
        match r {
            Ok(f) => frontmatter_spec(text@) == Some(f@),
            Err(_) => frontmatter_spec(text@) is None,
        },
{
    let ls = split_lines(text);
    let ghost lv = line_views(ls@);
    if ls.len() == 0 || !line_is_delimiter(&ls[0]) {
        return Err(FrontmatterError::NoFrontmatter);
    }
    let n = ls.len();
    let mut out: Vec<char> = Vec::new();
    let mut i: usize = 1;
    proof { assert(lv[0] == ls@[0]@); }
    while i < n
        invariant
            n == ls@.len(),
            1 <= i <= n,
            lv.len() > 0 && is_delimiter(lv[0]),
            lv == line_views(ls@),
            lv == text_lines(text@),
            next_delimiter(lv, 1) == next_delimiter(lv, i as int),
            out@ == joined_lines(lv, 1, i as int),
        decreases n - i,
    {
        if line_is_delimiter(&ls[i]) {
            proof { assert(next_delimiter(lv, i as int) == Some(i as int)); }
            return Ok(string_from_chars(out.as_slice()));
        }
        out.extend_from_slice(ls[i].as_slice());
        out.push('\n');
        proof {
            assert(lv[i as int] == ls@[i as int]@);
            assert(out@ =~= joined_lines(lv, 1, i as int + 1));
        }
        i = i + 1;
    }
    Err(FrontmatterError::NoFrontmatter)
}

/// The last `k` lines of a text joined with `\n`.
pub open spec fn tail_text(s: Seq<char>, k: nat) -> Seq<char> {
    let ls = text_lines(s);
    let start = if ls.len() > k { ls.len() - k } else { 0 };
    join_from(ls, start, ls.len() as int)
}

/// Lines `from..to` joined with `\n`.
pub open spec fn join_from(ls: Seq<Seq<char>>, from: int, to: int) -> Seq<char>
    decreases to - from,
{
    if to <= from {
        seq![]
    } else if to == from + 1 {
        ls[from]
    } else {
        join_from(ls, from, to - 1) + seq!['\n'] + ls[to - 1]
    }
}

/// The last `max_lines` lines of a text, joined with `\n` (how much of a
/// session file the classifier reads).
pub fn tail_lines(text: &str, max_lines: usize) -> (r: String)
    ensures
        r@ == tail_text(text@, max_lines as nat),
{
    let ls = split_lines(text);
    let ghost lv = line_views(ls@);
    let n = ls.len();
    let start = if n > max_lines { n - max_lines } else { 0 };
    let mut out: Vec<char> = Vec::new();
    let mut i: usize = start;
    while i < n
        invariant
            n == ls@.len(),
            start <= i <= n,
            lv == line_views(ls@),
            out@ == join_from(lv, start as int, i as int),
        decreases n - i,
    {
        if i > start {
            out.push('\n');
        }
        out.extend_from_slice(ls[i].as_slice());
        proof {
            assert(lv[i as int] == ls@[i as int]@);
            if i > start {
                assert(out@ =~= join_from(lv, start as int, i as int) + seq!['\n'] + lv[i as int]);
            } else {
                assert(out@ =~= lv[i as int]);
            }
        }
        i = i + 1;
    }
    string_from_chars(out.as_slice())
}

} // verus!
