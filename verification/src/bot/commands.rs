//! Bot command text and command replies.

use vstd::prelude::*;

use crate::text::{
    byte_len, utf8_width, chars_eq_str, chars_of, eq_ignore_ascii_case, eq_ignore_case, lower, parse_unsigned,
    parse_unsigned_chars,
    split_whitespace, string_from_chars, views, words,
};

verus! {

/// A bot command.
#[derive(Debug, Clone, Copy, PartialEq, Eq, Structural)]
pub enum BotCommand {
    Status,
    Pause,
    Resume,
    Logs { tail: usize },
    NewSession,
    Help,
}

/// Why a command text was not understood.
#[derive(Debug, PartialEq, Eq)]
pub struct BotCommandParseError {
    message: String,
}

impl BotCommandParseError {
    pub closed spec fn message_text(self) -> Seq<char> {
        self.message@
    }

    /// The error message.
    pub fn to_string(&self) -> (r: String)
        ensures
            r@ == self.message_text(),
    {
        self.message.clone()
    }
}

pub open spec fn is_tail_flag(t: Seq<char>) -> bool {
    t == "--tail"@ || t == "-t"@
}

/// The `logs` arguments from position `i`, with `tail` lines so far.
pub open spec fn logs_spec(args: Seq<Seq<char>>, i: int, tail: usize) -> Result<BotCommand, Seq<char>>
    decreases args.len() - i,
{
    if i < 0 || i >= args.len() {
        Ok(BotCommand::Logs { tail })
    } else if is_tail_flag(args[i]) {
        if i + 1 >= args.len() {
            Err("Missing value for --tail"@)
        } else {
            match parse_unsigned(args[i + 1], usize::MAX as nat) {
                Some(n) => logs_spec(args, i + 2, n as usize),
                None => Err("Invalid value for --tail"@),
            }
        }
    } else {
        logs_spec(args, i + 1, tail)
    }
}

/// A command text: optionally `/palin` or `palin` (any case), then the
/// command word and its arguments; an empty text asks for help.
pub open spec fn command_spec(input: Seq<char>) -> Result<BotCommand, Seq<char>> {
    let ts = words(input);
    if ts.len() == 0 {
        Ok(BotCommand::Help)
    } else {
        let index: int = if eq_ignore_case(ts[0], "/palin"@) || eq_ignore_case(ts[0], "palin"@) { 1 } else { 0 };
        let command = if index < ts.len() { ts[index] } else { "help"@ };
        if command == "status"@ {
            Ok(BotCommand::Status)
        } else if command == "pause"@ {
            Ok(BotCommand::Pause)
        } else if command == "resume"@ {
            Ok(BotCommand::Resume)
        } else if command == "logs"@ {
            logs_spec(ts.skip(index + 1), 0, 10)
        } else if command == "new-session"@ || command == "newsession"@ {
            Ok(BotCommand::NewSession)
        } else if command == "help"@ {
            Ok(BotCommand::Help)
        } else {
            Err("Unknown command: "@ + command)
        }
    }
}

/// The command word of a text is `w`: its first word, or its second after
/// a `/palin` or `palin` prefix (any case).
pub open spec fn command_word_is(input: Seq<char>, w: Seq<char>) -> bool {
    let ts = words(input);
    ||| ts.len() > 0 && ts[0] == w
    ||| ts.len() > 1 && (eq_ignore_case(ts[0], "/palin"@) || eq_ignore_case(ts[0], "palin"@)) && ts[1] == w
}

proof fn lemma_logs_spec_gives_logs(args: Seq<Seq<char>>, i: int, tail: usize)
    ensures
        logs_spec(args, i, tail) is Ok ==> logs_spec(args, i, tail) matches Ok(BotCommand::Logs { .. }),
    decreases args.len() - i,
{
    if i < 0 || i >= args.len() {
    } else if is_tail_flag(args[i]) {
        if i + 1 < args.len() {
            match parse_unsigned(args[i + 1], usize::MAX as nat) {
                Some(n) => lemma_logs_spec_gives_logs(args, i + 2, n as usize),
                None => {},
            }
        }
    } else {
        lemma_logs_spec_gives_logs(args, i + 1, tail);
    }
}

/// A command word is not a `/palin` or `palin` prefix.
proof fn lemma_not_prefix(w: Seq<char>)
    requires
        w == "pause"@ || w == "resume"@ || w == "status"@ || w == "help"@ || w == "new-session"@
            || w == "newsession"@,
    ensures
        !eq_ignore_case(w, "/palin"@),
        !eq_ignore_case(w, "palin"@),
{
    reveal_strlit("pause");
    reveal_strlit("resume");
    reveal_strlit("status");
    reveal_strlit("help");
    reveal_strlit("new-session");
    reveal_strlit("newsession");
    reveal_strlit("/palin");
    reveal_strlit("palin");
    if w == "pause"@ {
        assert(lower(w).len() != lower("/palin"@).len());
        assert(lower(w)[2] != lower("palin"@)[2]);
    } else if w == "resume"@ || w == "status"@ {
        assert(lower(w)[0] != lower("/palin"@)[0]);
        assert(lower(w).len() != lower("palin"@).len());
    } else {
        assert(lower(w).len() != lower("/palin"@).len());
        assert(lower(w).len() != lower("palin"@).len());
    }
}

/// The command a text asks for is the one its command word names: `pause`
/// gives `Pause`, `resume` gives `Resume`, `status` gives `Status`,
/// `new-session` (or `newsession`) gives `NewSession` and `help` gives
/// `Help`, with or without the `/palin` prefix; an empty text asks for
/// help; and a text read as `Pause`, `Resume`, `Status` or `NewSession`
/// has the word naming it as its command word.
pub proof fn lemma_command_word_decides(input: Seq<char>)
    ensures
        command_word_is(input, "pause"@) ==> command_spec(input) == Ok::<BotCommand, Seq<char>>(BotCommand::Pause),
        command_word_is(input, "resume"@) ==> command_spec(input) == Ok::<BotCommand, Seq<char>>(BotCommand::Resume),
        command_word_is(input, "status"@) ==> command_spec(input) == Ok::<BotCommand, Seq<char>>(BotCommand::Status),
        command_word_is(input, "new-session"@) || command_word_is(input, "newsession"@)
            ==> command_spec(input) == Ok::<BotCommand, Seq<char>>(BotCommand::NewSession),
        command_word_is(input, "help"@) ==> command_spec(input) == Ok::<BotCommand, Seq<char>>(BotCommand::Help),
        words(input).len() == 0 ==> command_spec(input) == Ok::<BotCommand, Seq<char>>(BotCommand::Help),
        command_spec(input) == Ok::<BotCommand, Seq<char>>(BotCommand::Pause) ==> command_word_is(input, "pause"@),
        command_spec(input) == Ok::<BotCommand, Seq<char>>(BotCommand::Resume) ==> command_word_is(input, "resume"@),
        command_spec(input) == Ok::<BotCommand, Seq<char>>(BotCommand::Status) ==> command_word_is(input, "status"@),
        command_spec(input) == Ok::<BotCommand, Seq<char>>(BotCommand::NewSession)
            ==> command_word_is(input, "new-session"@) || command_word_is(input, "newsession"@),
{
    reveal_strlit("pause");
    reveal_strlit("resume");
    reveal_strlit("status");
    reveal_strlit("help");
    reveal_strlit("logs");
    reveal_strlit("new-session");
    reveal_strlit("newsession");
    lemma_not_prefix("pause"@);
    lemma_not_prefix("resume"@);
    lemma_not_prefix("status"@);
    lemma_not_prefix("help"@);
    lemma_not_prefix("new-session"@);
    lemma_not_prefix("newsession"@);
    let ts = words(input);
    if ts.len() > 0 {
        let index: int = if eq_ignore_case(ts[0], "/palin"@) || eq_ignore_case(ts[0], "palin"@) { 1 } else { 0 };
        lemma_logs_spec_gives_logs(ts.skip(index + 1), 0, 10);
        assert("pause"@ != "status"@) by { assert("pause"@[1] != "status"@[1]); }
        assert("resume"@ != "status"@) by { assert("resume"@[0] != "status"@[0]); }
        assert("resume"@ != "pause"@) by { assert("resume"@[0] != "pause"@[0]); }
        assert("help"@ != "pause"@) by { assert("help"@.len() != "pause"@.len()); }
        assert("help"@ != "resume"@) by { assert("help"@.len() != "resume"@.len()); }
        assert("help"@ != "status"@) by { assert("help"@.len() != "status"@.len()); }
        assert("help"@ != "logs"@) by { assert("help"@[0] != "logs"@[0]); }
        assert("help"@ != "new-session"@) by { assert("help"@.len() != "new-session"@.len()); }
        assert("help"@ != "newsession"@) by { assert("help"@.len() != "newsession"@.len()); }
        assert("new-session"@ != "pause"@) by { assert("new-session"@.len() != "pause"@.len()); }
        assert("new-session"@ != "resume"@) by { assert("new-session"@.len() != "resume"@.len()); }
        assert("new-session"@ != "status"@) by { assert("new-session"@.len() != "status"@.len()); }
        assert("new-session"@ != "logs"@) by { assert("new-session"@.len() != "logs"@.len()); }
        assert("newsession"@ != "pause"@) by { assert("newsession"@.len() != "pause"@.len()); }
        assert("newsession"@ != "resume"@) by { assert("newsession"@.len() != "resume"@.len()); }
        assert("newsession"@ != "status"@) by { assert("newsession"@.len() != "status"@.len()); }
        assert("newsession"@ != "logs"@) by { assert("newsession"@.len() != "logs"@.len()); }
        assert("logs"@ != "pause"@) by { assert("logs"@.len() != "pause"@.len()); }
        assert("logs"@ != "resume"@) by { assert("logs"@.len() != "resume"@.len()); }
        assert("logs"@ != "status"@) by { assert("logs"@.len() != "status"@.len()); }
    }
}

fn copy_chars(v: &Vec<char>) -> (r: Vec<char>)
    ensures
        r@ == v@,
{
    let mut out: Vec<char> = Vec::new();
    out.extend_from_slice(v.as_slice());
    out
}

fn err(message: &str) -> (r: BotCommandParseError)
    ensures
        r.message_text() == message@,
{
    BotCommandParseError { message: message.to_string() }
}

/// The `logs` command's arguments: `--tail N` (or `-t N`) sets the number of
/// lines, 10 by default; other words are ignored.
pub fn parse_logs_command(args: &[Vec<char>]) -> (r: Result<BotCommand, BotCommandParseError>)
    ensures
        match r {
            Ok(c) => logs_spec(views(args@), 0, 10) == Ok::<BotCommand, Seq<char>>(c),
            Err(e) => logs_spec(views(args@), 0, 10) == Err::<BotCommand, Seq<char>>(e.message_text()),
        },
{
    let ghost a = views(args@);
    let n = args.len();
    let mut tail: usize = 10;
    let mut idx: usize = 0;
    while idx < n
        invariant
            n == args@.len(),
            idx <= n,
            a == views(args@),
            logs_spec(a, 0, 10) == logs_spec(a, idx as int, tail),
        decreases n - idx,
    {
        proof { assert(a[idx as int] == args@[idx as int]@); }
        if chars_eq_str(args[idx].as_slice(), "--tail") || chars_eq_str(args[idx].as_slice(), "-t") {
            if idx + 1 >= n {
                return Err(err("Missing value for --tail"));
            }
            proof { assert(a[idx as int + 1] == args@[idx as int + 1]@); }
            match parse_unsigned_chars(args[idx + 1].as_slice(), usize::MAX as u64) {
                Some(v) => {
                    tail = v as usize;
                    idx = idx + 2;
                },
                None => {
                    return Err(err("Invalid value for --tail"));
                },
            }
        } else {
            idx = idx + 1;
        }
    }
    Ok(BotCommand::Logs { tail })
}

impl BotCommand {
    /// Parses a command text (see [`command_spec`]).
    pub fn parse(input: &str) -> (r: Result<BotCommand, BotCommandParseError>)
        ensures
            match r {
                Ok(c) => command_spec(input@) == Ok::<BotCommand, Seq<char>>(c),
                Err(e) => command_spec(input@) == Err::<BotCommand, Seq<char>>(e.message_text()),
            },
    {
        let chars = chars_of(input);
        let tokens = split_whitespace(chars.as_slice());
        let ghost ts = words(input@);
        if tokens.len() == 0 {
            return Ok(BotCommand::Help);
        }
        proof { assert(ts[0] == tokens@[0]@); }
        let p1 = chars_of("/palin");
        let p2 = chars_of("palin");
        let index: usize = if eq_ignore_ascii_case(tokens[0].as_slice(), p1.as_slice())
            || eq_ignore_ascii_case(tokens[0].as_slice(), p2.as_slice()) { 1 } else { 0 };
        let command: Vec<char> = if index < tokens.len() {
            proof { assert(ts[index as int] == tokens@[index as int]@); }
            copy_chars(&tokens[index])
        } else {
            chars_of("help")
        };
        let c = command.as_slice();
        if chars_eq_str(c, "status") {
            Ok(BotCommand::Status)
        } else if chars_eq_str(c, "pause") {
            Ok(BotCommand::Pause)
        } else if chars_eq_str(c, "resume") {
            Ok(BotCommand::Resume)
        } else if chars_eq_str(c, "logs") {
            if index >= tokens.len() {
                proof {
                    reveal_strlit("help");
                    reveal_strlit("logs");
                    assert("help"@[0] == 'h');
                    assert("logs"@[0] == 'l');
                    assert(c@ == "help"@);
                    assert(false);
                }
                return Ok(BotCommand::Help);
            }
            let mut rest: Vec<Vec<char>> = Vec::new();
            let mut k: usize = index + 1;
            while k < tokens.len()
                invariant
                    index + 1 <= k <= tokens@.len(),
                    ts == views(tokens@),
                    views(rest@) == ts.subrange(index + 1, k as int),
                decreases tokens@.len() - k,
            {
                let ghost old_rest = views(rest@);
                let item = copy_chars(&tokens[k]);
                rest.push(item);
                proof {
                    assert(ts[k as int] == tokens@[k as int]@);
                    assert(views(rest@) =~= old_rest.push(item@));
                    assert(views(rest@) =~= ts.subrange(index + 1, k as int + 1));
                }
                k = k + 1;
            }
            proof { assert(views(rest@) =~= ts.skip(index + 1)); }
            parse_logs_command(rest.as_slice())
        } else if chars_eq_str(c, "new-session") || chars_eq_str(c, "newsession") {
            Ok(BotCommand::NewSession)
        } else if chars_eq_str(c, "help") {
            Ok(BotCommand::Help)
        } else {
            let mut m = "Unknown command: ".to_string();
            let cs = string_from_chars(c);
            m.append(cs.as_str());
            Err(BotCommandParseError { message: m })
        }
    }
}

impl std::str::FromStr for BotCommand {
    type Err = BotCommandParseError;

    /// Parses a command text as [`BotCommand::parse`] does.
    fn from_str(input: &str) -> (r: Result<BotCommand, BotCommandParseError>)
        ensures
            match r {
                Ok(c) => command_spec(input@) == Ok::<BotCommand, Seq<char>>(c),
                Err(e) => command_spec(input@) == Err::<BotCommand, Seq<char>>(e.message_text()),
            },
    {
        BotCommand::parse(input)
    }
}

// ---------------------------------------------------------------------------
// Replies
// ---------------------------------------------------------------------------

/// A named value shown in a reply.
#[derive(Debug, Clone, PartialEq, Eq)]
pub struct BotCommandField {
    pub name: String,
    pub value: String,
    pub inline: bool,
}

/// The reply to a command.
#[derive(Debug)]
pub struct BotCommandResult {
    pub success: bool,
    pub title: String,
    pub body: Option<String>,
    pub fields: Vec<BotCommandField>,
}

impl BotCommandResult {
    /// A successful reply with a title.
    pub fn success(title: &str) -> (r: Self)
        ensures
            r.success,
            r.title@ == title@,
            r.body is None,
            r.fields@.len() == 0,
    {
        BotCommandResult { success: true, title: title.to_string(), body: None, fields: Vec::new() }
    }

    /// A failed reply with a title.
    pub fn error(title: &str) -> (r: Self)
        ensures
            !r.success,
            r.title@ == title@,
            r.body is None,
            r.fields@.len() == 0,
    {
        BotCommandResult { success: false, title: title.to_string(), body: None, fields: Vec::new() }
    }

    /// The reply with a body text.
    pub fn with_body(self, body: &str) -> (r: Self)
        ensures
            r.success == self.success,
            r.title == self.title,
            r.body matches Some(b) && b@ == body@,
            r.fields@ == self.fields@,
    {
        BotCommandResult { body: Some(body.to_string()), ..self }
    }

    /// The reply with the given fields.
    pub fn with_fields(self, fields: Vec<BotCommandField>) -> (r: Self)
        ensures
            r.success == self.success,
            r.title == self.title,
            r.body == self.body,
            r.fields@ == fields@,
    {
        BotCommandResult { fields, ..self }
    }
}

/// Where a text is cut to fit `limit` bytes of UTF-8: all of it when it
/// fits, else `limit` bytes, or `limit - 3` bytes (to make room for `...`)
/// when the limit leaves room for it.
pub open spec fn cut_point(s: Seq<char>, limit: nat) -> nat {
    if byte_len(s) <= limit {
        byte_len(s)
    } else if limit <= 3 {
        limit
    } else {
        (limit - 3) as nat
    }
}

/// The text can be cut at [`cut_point`] without splitting a character: some
/// prefix of it has exactly that many bytes.
pub open spec fn fits_cut(s: Seq<char>, limit: nat) -> bool {
    exists|j: int| 0 <= j <= s.len() && byte_len(#[trigger] s.take(j)) == cut_point(s, limit)
}

/// A text cut to `limit` bytes: the prefix of [`cut_point`] bytes, followed
/// by `...` when the text was too long and the limit leaves room for it.
pub open spec fn truncated(s: Seq<char>, limit: nat) -> Seq<char> {
    if byte_len(s) <= limit {
        s
    } else {
        let j = choose|j: int| 0 <= j <= s.len() && byte_len(#[trigger] s.take(j)) == cut_point(s, limit);
        if limit <= 3 {
            s.take(j)
        } else {
            s.take(j) + "..."@
        }
    }
}

/// A reply text cut to a limit never exceeds it, and a text that already
/// fits is kept whole.
pub proof fn lemma_truncated_fits(s: Seq<char>, limit: nat)
    requires
        fits_cut(s, limit),
    ensures
        byte_len(truncated(s, limit)) <= limit,
        byte_len(s) <= limit ==> truncated(s, limit) == s,
{
    if byte_len(s) > limit {
        let j = choose|j: int| 0 <= j <= s.len() && byte_len(#[trigger] s.take(j)) == cut_point(s, limit);
        reveal_strlit("...");
        assert(byte_len("..."@) == 3) by {
            reveal_with_fuel(byte_len, 4);
            assert("..."@.drop_last().drop_last().drop_last() =~= Seq::<char>::empty());
        }
        if limit > 3 {
            crate::text::lemma_byte_len_concat(s.take(j), "..."@);
        }
    }
}

fn width(c: char) -> (r: usize)
    ensures
        r == utf8_width(c),
{
    let u = c as u32;
    if u < 0x80 {
        1
    } else if u < 0x800 {
        2
    } else if u < 0x10000 {
        3
    } else {
        4
    }
}

pub proof fn lemma_byte_len_take_step(s: Seq<char>, i: int)
    requires
        0 <= i < s.len(),
    ensures
        byte_len(s.take(i + 1)) == byte_len(s.take(i)) + utf8_width(s[i]),
{
    assert(s.take(i + 1).drop_last() =~= s.take(i));
}

pub proof fn lemma_byte_len_monotone(s: Seq<char>, i: int, j: int)
    requires
        0 <= i <= j <= s.len(),
    ensures
        byte_len(s.take(i)) + (j - i) <= byte_len(s.take(j)),
    decreases j - i,
{
    if i < j {
        lemma_byte_len_monotone(s, i, j - 1);
        lemma_byte_len_take_step(s, j - 1);
    }
}

/// The number of characters of `s` whose UTF-8 takes exactly `k` bytes, if
/// some prefix does; and whether all of `s` fits in `k` bytes.
pub(crate) fn prefix_of_bytes(s: &[char], k: usize) -> (r: (Option<usize>, bool))
    ensures
        r.1 == (byte_len(s@) <= k),
        match r.0 {
            Some(j) => j <= s@.len() && byte_len(s@.take(j as int)) == k,
            None => forall|j: int| 0 <= j <= s@.len() ==> byte_len(#[trigger] s@.take(j)) != k,
        },
{
    let n = s.len();
    let mut acc: usize = 0;
    let mut i: usize = 0;
    proof { assert(s@.take(0) =~= Seq::<char>::empty()); }
    while i < n && width(s[i]) <= k - acc
        invariant
            n == s@.len(),
            i <= n,
            acc <= k,
            byte_len(s@.take(i as int)) == acc,
        decreases n - i,
    {
        proof { lemma_byte_len_take_step(s@, i as int); }
        acc = acc + width(s[i]);
        i = i + 1;
    }
    let fits = i == n;
    proof {
        if i < n {
            lemma_byte_len_take_step(s@, i as int);
            lemma_byte_len_monotone(s@, i as int + 1, n as int);
            assert(s@.take(n as int) =~= s@);
        } else {
            assert(s@.take(n as int) =~= s@);
        }
        assert forall|j: int| 0 <= j <= s@.len() && j != i implies byte_len(#[trigger] s@.take(j)) != k by {
            if j < i {
                lemma_byte_len_monotone(s@, j, i as int);
                if acc == k {
                } else {
                    lemma_byte_len_monotone(s@, j, i as int);
                }
            } else {
                lemma_byte_len_take_step(s@, i as int);
                lemma_byte_len_monotone(s@, i as int + 1, j);
            }
        }
    }
    if acc == k {
        (Some(i), fits)
    } else {
        proof {
            assert forall|j: int| 0 <= j <= s@.len() implies byte_len(#[trigger] s@.take(j)) != k by {
                if j == i {
                }
            }
        }
        (None, fits)
    }
}

/// Whether a text can be cut to `limit` bytes without splitting a character.
fn check_cut(s: &str, limit: usize) -> (r: bool)
    requires
        limit >= 4,
    ensures
        r == fits_cut(s@, limit as nat),
{
    let c = chars_of(s);
    let (_, fits) = prefix_of_bytes(c.as_slice(), limit);
    if fits {
        proof { assert(c@.take(c@.len() as int) =~= c@); }
        return true;
    }
    let (j, _) = prefix_of_bytes(c.as_slice(), limit - 3);
    match j {
        Some(x) => true,
        None => false,
    }
}

/// Cuts a text to at most `limit` bytes of UTF-8 (see [`truncated`]): a
/// text that fits is kept; otherwise its first `limit - 3` bytes and `...`,
/// or its first `limit` bytes when the limit is three or less.
pub fn truncate(value: &str, limit: usize) -> (r: String)
    requires
        fits_cut(value@, limit as nat),
    ensures
        r@ == truncated(value@, limit as nat),
{
    let c = chars_of(value);
    let (_, fits) = prefix_of_bytes(c.as_slice(), limit);
    if fits {
        return value.to_string();
    }
    let cut: usize = if limit <= 3 { limit } else { limit - 3 };
    let (j, _) = prefix_of_bytes(c.as_slice(), cut);
    match j {
        Some(x) => {
            let mut out: Vec<char> = Vec::new();
            let mut i: usize = 0;
            while i < x
                invariant
                    x <= c@.len(),
                    i <= x,
                    out@ == c@.take(i as int),
                decreases x - i,
            {
                out.push(c[i]);
                proof { assert(c@.take(i as int + 1) =~= c@.take(i as int).push(c@[i as int])); }
                i = i + 1;
            }
            let mut r = string_from_chars(out.as_slice());
            if limit > 3 {
                r.append("...");
            }
            proof {
                let jj = choose|j: int| 0 <= j <= value@.len()
                    && byte_len(#[trigger] value@.take(j)) == cut_point(value@, limit as nat);
                if jj != x as int {
                    if jj < x {
                        lemma_byte_len_monotone(value@, jj, x as int);
                    } else {
                        lemma_byte_len_monotone(value@, x as int, jj);
                    }
                }
            }
            r
        },
        None => {
            proof { assert(false); }
            value.to_string()
        },
    }
}

/// Whether every text of a reply can be cut at the Discord limits
/// (title 256, body 1800, field name 256, field value 1024 bytes).
pub open spec fn discord_cuts_ok(r: BotCommandResult) -> bool {
    &&& fits_cut(r.title@, 256)
    &&& (r.body matches Some(b) ==> fits_cut(b@, 1800))
    &&& forall|i: int| 0 <= i < r.fields@.len() ==> field_cuts_ok(#[trigger] r.fields@[i])
}

pub open spec fn field_cuts_ok(f: BotCommandField) -> bool {
    fits_cut(f.name@, 256) && fits_cut(f.value@, 1024)
}

/// Whether every text of a reply can be cut at the Slack limits (title
/// 150, body 2900 bytes).
pub open spec fn slack_cuts_ok(r: BotCommandResult) -> bool {
    &&& fits_cut(r.title@, 150)
    &&& (r.body matches Some(b) ==> fits_cut(b@, 2900))
}

/// The embed Discord shows for a reply.
#[derive(Debug)]
pub struct DiscordReply {
    pub title: String,
    pub description: Option<String>,
    /// The fields, none when the reply has none.
    pub fields: Option<Vec<BotCommandField>>,
}

/// The blocks Slack shows for a reply: a header, and a section made of the
/// body or of the fields.
#[derive(Debug)]
pub struct SlackReply {
    pub header: String,
    pub section: Option<Vec<String>>,
}

impl BotCommandResult {
    /// Whether [`BotCommandResult::to_discord_reply`] can cut every text.
    pub fn discord_cuts_fit(&self) -> (r: bool)
        ensures
            r == discord_cuts_ok(*self),
    {
        if !check_cut(self.title.as_str(), 256) {
            return false;
        }
        match &self.body {
            Some(b) => {
                if !check_cut(b.as_str(), 1800) {
                    return false;
                }
            },
            None => {},
        }
        let n = self.fields.len();
        let mut i: usize = 0;
        while i < n
            invariant
                n == self.fields@.len(),
                i <= n,
                forall|j: int| 0 <= j < i ==> field_cuts_ok(#[trigger] self.fields@[j]),
            decreases n - i,
        {
            let a = check_cut(self.fields[i].name.as_str(), 256);
            let b = check_cut(self.fields[i].value.as_str(), 1024);
            if !a || !b {
                return false;
            }
            proof {
                assert(field_cuts_ok(self.fields@[i as int]));
            }
            i = i + 1;
        }
        true
    }

    /// Whether [`BotCommandResult::to_slack_reply`] can cut every text.
    pub fn slack_cuts_fit(&self) -> (r: bool)
        ensures
            r == slack_cuts_ok(*self),
    {
        check_cut(self.title.as_str(), 150) && match &self.body {
            Some(b) => check_cut(b.as_str(), 1800 + 1100),
            None => true,
        }
    }

    /// The Discord embed of the reply: title cut to 256 bytes, body to 1800,
    /// each field's name to 256 and value to 1024; no field list when there
    /// are no fields.
    pub fn to_discord_reply(&self) -> (r: DiscordReply)
        requires
            discord_cuts_ok(*self),
        ensures
            r.title@ == truncated(self.title@, 256),
            match self.body {
                Some(b) => r.description matches Some(d) && d@ == truncated(b@, 1800),
                None => r.description is None,
            },
            self.fields@.len() == 0 ==> r.fields is None,
            self.fields@.len() > 0 ==> (r.fields matches Some(fs) && fs@.len() == self.fields@.len()
                && forall|i: int| 0 <= i < fs@.len() ==> {
                    &&& (#[trigger] fs@[i]).name@ == truncated(self.fields@[i].name@, 256)
                    &&& fs@[i].value@ == truncated(self.fields@[i].value@, 1024)
                    &&& fs@[i].inline == self.fields@[i].inline
                }),
    {
        let title = truncate(self.title.as_str(), 256);
        let description = match &self.body {
            Some(b) => Some(truncate(b.as_str(), 1800)),
            None => None,
        };
        let fields = if self.fields.len() == 0 {
            None
        } else {
            let n = self.fields.len();
            let mut out: Vec<BotCommandField> = Vec::new();
            let mut i: usize = 0;
            while i < n
                invariant
                    n == self.fields@.len(),
                    i <= n,
                    discord_cuts_ok(*self),
                    out@.len() == i,
                    forall|j: int| 0 <= j < i ==> {
                        &&& (#[trigger] out@[j]).name@ == truncated(self.fields@[j].name@, 256)
                        &&& out@[j].value@ == truncated(self.fields@[j].value@, 1024)
                        &&& out@[j].inline == self.fields@[j].inline
                    },
                decreases n - i,
            {
                let f = &self.fields[i];
                proof { assert(field_cuts_ok(self.fields@[i as int])); }
                out.push(BotCommandField {
                    name: truncate(f.name.as_str(), 256),
                    value: truncate(f.value.as_str(), 1024),
                    inline: f.inline,
                });
                i = i + 1;
            }
            Some(out)
        };
        DiscordReply { title, description, fields }
    }

    /// The Slack blocks of the reply: title cut to 150 bytes; then the body
    /// cut to 2900 bytes, or else one `*name*` and value text per field.
    pub fn to_slack_reply(&self) -> (r: SlackReply)
        requires
            slack_cuts_ok(*self),
        ensures
            r.header@ == truncated(self.title@, 150),
            match self.body {
                Some(b) => r.section matches Some(s) && s@.len() == 1 && s@[0]@ == truncated(b@, 2900),
                None => if self.fields@.len() == 0 {
                    r.section is None
                } else {
                    r.section matches Some(s) && s@.len() == self.fields@.len()
                        && forall|i: int| 0 <= i < s@.len() ==> (#[trigger] s@[i])@
                            == "*"@ + self.fields@[i].name@ + "*\n"@ + self.fields@[i].value@
                },
            },
    {
        let header = truncate(self.title.as_str(), 150);
        let section = match &self.body {
            Some(b) => {
                let mut v: Vec<String> = Vec::new();
                v.push(truncate(b.as_str(), 2900));
                Some(v)
            },
            None => {
                if self.fields.len() == 0 {
                    None
                } else {
                    let n = self.fields.len();
                    let mut v: Vec<String> = Vec::new();
                    let mut i: usize = 0;
                    while i < n
                        invariant
                            n == self.fields@.len(),
                            i <= n,
                            v@.len() == i,
                            forall|j: int| 0 <= j < i ==> (#[trigger] v@[j])@
                                == "*"@ + self.fields@[j].name@ + "*\n"@ + self.fields@[j].value@,
                        decreases n - i,
                    {
                        let mut t = "*".to_string();
                        t.append(self.fields[i].name.as_str());
                        t.append("*\n");
                        t.append(self.fields[i].value.as_str());
                        v.push(t);
                        i = i + 1;
                    }
                    Some(v)
                }
            },
        };
        SlackReply { header, section }
    }
}

} // verus!
