//! The client side of the control socket: what to send and how to read the
//! reply.

use vstd::prelude::*;

use crate::daemon::state::DaemonStatus;
use crate::ipc::protocol::{command_of, IpcCommand, IpcResponse};
use crate::text::{chars_eq_str, chars_of, is_ws, starts_with, starts_with_chars, string_from_chars, trim,
    trim_chars, trim_end, trim_end_chars, trim_start, upper};

verus! {

/// Why talking to the daemon failed.
#[derive(Debug)]
pub enum IpcClientError {
    /// No daemon is listening.
    NotRunning,
    /// The daemon did not answer in time.
    Timeout,
    /// An I/O error, with its message.
    Io(String),
    /// The daemon's answer was not understood, or was an error.
    Protocol(String),
}

/// The line sent for a command.
pub open spec fn command_line(cmd: IpcCommand) -> Seq<char> {
    match cmd {
        IpcCommand::Status => "STATUS\n"@,
        IpcCommand::Pause => "PAUSE\n"@,
        IpcCommand::Resume => "RESUME\n"@,
        IpcCommand::NewSession => "NEW_SESSION\n"@,
        IpcCommand::Reload => "RELOAD\n"@,
    }
}

/// The line sent for a command.
pub fn command_text(cmd: IpcCommand) -> (r: &'static str)
    ensures
        r@ == command_line(cmd),
{
    match cmd {
        IpcCommand::Status => "STATUS\n",
        IpcCommand::Pause => "PAUSE\n",
        IpcCommand::Resume => "RESUME\n",
        IpcCommand::NewSession => "NEW_SESSION\n",
        IpcCommand::Reload => "RELOAD\n",
    }
}

proof fn lemma_word_line(w: Seq<char>)
    requires
        w.len() > 0,
        forall|i: int| 0 <= i < w.len() ==> !is_ws(#[trigger] w[i]) && !('a' <= w[i] && w[i] <= 'z'),
    ensures
        upper(trim(w.push('\n'))) == w,
{
    let l = w.push('\n');
    assert(!is_ws(l[0]));
    assert(trim_start(l) == l);
    assert(l.drop_last() =~= w);
    assert(!is_ws(w.last()));
    assert(trim_end(w) == w);
    assert(trim_end(l) == w);
    assert(upper(w) =~= w);
}

/// The server reads each command line the client sends as the command it
/// was sent for.
pub proof fn lemma_command_round_trip(cmd: IpcCommand)
    ensures
        command_of(command_line(cmd)) == Some(cmd),
{
    reveal_strlit("STATUS");
    reveal_strlit("PAUSE");
    reveal_strlit("RESUME");
    reveal_strlit("NEW_SESSION");
    reveal_strlit("NEW-SESSION");
    reveal_strlit("RELOAD");
    match cmd {
        IpcCommand::Status => {
            reveal_strlit("STATUS\n");
            assert("STATUS\n"@ =~= "STATUS"@.push('\n'));
            lemma_word_line("STATUS"@);
        },
        IpcCommand::Pause => {
            reveal_strlit("PAUSE\n");
            assert("PAUSE\n"@ =~= "PAUSE"@.push('\n'));
            lemma_word_line("PAUSE"@);
        },
        IpcCommand::Resume => {
            reveal_strlit("RESUME\n");
            assert("RESUME\n"@ =~= "RESUME"@.push('\n'));
            lemma_word_line("RESUME"@);
            assert("RESUME"@ != "STATUS"@) by { assert("RESUME"@[0] != "STATUS"@[0]); }
        },
        IpcCommand::NewSession => {
            reveal_strlit("NEW_SESSION\n");
            assert("NEW_SESSION\n"@ =~= "NEW_SESSION"@.push('\n'));
            lemma_word_line("NEW_SESSION"@);
        },
        IpcCommand::Reload => {
            reveal_strlit("RELOAD\n");
            assert("RELOAD\n"@ =~= "RELOAD"@.push('\n'));
            lemma_word_line("RELOAD"@);
            assert("RELOAD"@ != "STATUS"@) by { assert("RELOAD"@[0] != "STATUS"@[0]); }
            assert("RELOAD"@ != "RESUME"@) by { assert("RELOAD"@[2] != "RESUME"@[2]); }
        },
    }
}

proof fn lemma_trim_start_len(s: Seq<char>)
    ensures
        trim_start(s).len() <= s.len(),
        trim_start(s).len() == s.len() ==> trim_start(s) == s,
    decreases s.len(),
{
    if s.len() > 0 && is_ws(s[0]) {
        lemma_trim_start_len(s.drop_first());
    }
}

proof fn lemma_trim_end_len(s: Seq<char>)
    ensures
        trim_end(s).len() <= s.len(),
        trim_end(s).len() == s.len() ==> trim_end(s) == s,
    decreases s.len(),
{
    if s.len() > 0 && is_ws(s.last()) {
        lemma_trim_end_len(s.drop_last());
    }
}

/// A text that trimming leaves alone starts and ends with a character that
/// is not whitespace.
proof fn lemma_trimmed_ends(m: Seq<char>)
    requires
        trim(m) == m,
        m.len() > 0,
    ensures
        !is_ws(m[0]),
        !is_ws(m.last()),
        trim_start(m) == m,
        trim_end(m) == m,
{
    lemma_trim_start_len(m);
    lemma_trim_end_len(trim_start(m));
    if is_ws(m[0]) {
        lemma_trim_start_len(m.drop_first());
        assert(false);
    }
    assert(trim_start(m) == m);
    if is_ws(m.last()) {
        lemma_trim_end_len(m.drop_last());
        assert(false);
    }
}

/// Reading back the reply lines that the server writes gives the replies:
/// `OK` reads as a success, and `ERR: ` with a message that trimming leaves
/// alone reads as an error with that message (see [`parse_response`] and
/// [`crate::ipc::protocol::reply_line`]).
pub proof fn lemma_reply_round_trip(m: Seq<char>)
    requires
        trim(m) == m,
    ensures
        trim_end("OK\n"@) == "OK"@,
        ({
            let t = trim_end("ERR: "@ + m + "\n"@);
            &&& t.len() > 0
            &&& t != "OK"@
            &&& starts_with(t, "ERR:"@)
            &&& trim(t.skip(4)) == m
        }),
{
    reveal_strlit("OK\n");
    reveal_strlit("OK");
    reveal_strlit("ERR: ");
    reveal_strlit("ERR:");
    reveal_strlit("\n");
    let ok = "OK\n"@;
    assert(ok.drop_last() =~= "OK"@);
    assert(trim_end("OK"@) == "OK"@);
    let l = "ERR: "@ + m + "\n"@;
    let e = "ERR: "@ + m;
    assert(l.drop_last() =~= e);
    assert(trim_end(l) == trim_end(e));
    if m.len() == 0 {
        assert(e =~= "ERR: "@);
        assert(e.drop_last() =~= "ERR:"@);
        assert(trim_end("ERR:"@) == "ERR:"@);
        assert(trim_end(e) == "ERR:"@);
        assert("ERR:"@.skip(4) =~= Seq::<char>::empty());
        assert(trim_start(Seq::<char>::empty()) == Seq::<char>::empty());
        assert(trim_end(Seq::<char>::empty()) == Seq::<char>::empty());
        assert(m =~= Seq::<char>::empty());
        assert("ERR:"@.subrange(0, 4) =~= "ERR:"@);
        assert(trim(trim_end(l).skip(4)) == m);
        assert(starts_with(trim_end(l), "ERR:"@));
        assert(trim_end(l).len() == 4);
    } else {
        lemma_trimmed_ends(m);
        assert(e.last() == m.last());
        assert(trim_end(e) == e);
        let rest = e.skip(4);
        assert(rest =~= seq![' '] + m);
        assert(rest.drop_first() =~= m);
        assert(is_ws(rest[0]));
        assert(trim_start(rest) == trim_start(m));
        assert(e.subrange(0, 4) =~= "ERR:"@);
        assert(e.len() != 2);
        assert(trim(rest) == m);
        assert(starts_with(trim_end(l), "ERR:"@));
    }
}

/// A reply line as read, before any status is decoded.
#[derive(Debug)]
pub enum ReplyLine {
    /// `OK`.
    Success,
    /// `ERR:` and a message.
    Error { message: String },
    /// Anything else: the status, as JSON text.
    Status(String),
}

/// Reads a reply line: trailing whitespace is ignored; an empty line is a
/// protocol error.
pub fn parse_response(response: &str) -> (r: Result<ReplyLine, IpcClientError>)
    ensures
        trim_end(response@).len() == 0 <==> (r matches Err(IpcClientError::Protocol(m)) && m@ == "Empty response"@),
        r is Err ==> trim_end(response@).len() == 0,
        r matches Ok(ReplyLine::Success) <==> (trim_end(response@) == "OK"@),
        r matches Ok(ReplyLine::Error { message }) ==> trim_end(response@) != "OK"@
            && starts_with(trim_end(response@), "ERR:"@) && message@ == trim(trim_end(response@).skip(4)),
        r matches Ok(ReplyLine::Status(json)) ==> trim_end(response@).len() > 0 && trim_end(response@) != "OK"@
            && !starts_with(trim_end(response@), "ERR:"@) && json@ == trim_end(response@),
        (trim_end(response@).len() > 0 && trim_end(response@) != "OK"@ && starts_with(trim_end(response@), "ERR:"@))
            ==> r matches Ok(ReplyLine::Error { .. }),
        (trim_end(response@).len() > 0 && trim_end(response@) != "OK"@ && !starts_with(trim_end(response@), "ERR:"@))
            ==> r matches Ok(ReplyLine::Status(_)),
{
    let chars = chars_of(response);
    let t = trim_end_chars(chars.as_slice());
    proof { reveal_strlit("OK"); }
    if t.len() == 0 {
        return Err(IpcClientError::Protocol("Empty response".to_string()));
    }
    if chars_eq_str(t.as_slice(), "OK") {
        return Ok(ReplyLine::Success);
    }
    let prefix = chars_of("ERR:");
    if starts_with_chars(t.as_slice(), prefix.as_slice()) {
        proof { reveal_strlit("ERR:"); }
        let mut rest: Vec<char> = Vec::new();
        let mut i: usize = 4;
        while i < t.len()
            invariant
                4 <= i <= t@.len(),
                rest@ == t@.subrange(4, i as int),
            decreases t@.len() - i,
        {
            rest.push(t[i]);
            proof { assert(t@.subrange(4, i as int + 1) =~= t@.subrange(4, i as int).push(t@[i as int])); }
            i = i + 1;
        }
        proof { assert(t@.subrange(4, t@.len() as int) =~= t@.skip(4)); }
        let message = trim_chars(rest.as_slice());
        return Ok(ReplyLine::Error { message: string_from_chars(message.as_slice()) });
    }
    Ok(ReplyLine::Status(string_from_chars(t.as_slice())))
}

/// A reply expected to be `OK`.
pub fn expect_ok(response: IpcResponse) -> (r: Result<(), IpcClientError>)
    ensures
        match response {
            IpcResponse::Success => r is Ok,
            IpcResponse::Error { message } => r matches Err(IpcClientError::Protocol(m)) && m == message,
            IpcResponse::Status(_) => r matches Err(IpcClientError::Protocol(m))
                && m@ == "Unexpected status response"@,
        },
{
    match response {
        IpcResponse::Success => Ok(()),
        IpcResponse::Error { message } => Err(IpcClientError::Protocol(message)),
        IpcResponse::Status(_) => Err(IpcClientError::Protocol("Unexpected status response".to_string())),
    }
}

/// A reply expected to carry the status.
pub fn expect_status(response: IpcResponse) -> (r: Result<DaemonStatus, IpcClientError>)
    ensures
        match response {
            IpcResponse::Status(s) => r matches Ok(t) && t == s,
            IpcResponse::Error { message } => r matches Err(IpcClientError::Protocol(m)) && m == message,
            IpcResponse::Success => r matches Err(IpcClientError::Protocol(m)) && m@ == "Unexpected OK response"@,
        },
{
    match response {
        IpcResponse::Status(status) => Ok(status),
        IpcResponse::Error { message } => Err(IpcClientError::Protocol(message)),
        IpcResponse::Success => Err(IpcClientError::Protocol("Unexpected OK response".to_string())),
    }
}

} // verus!
