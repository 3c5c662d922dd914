//! How requests and replies are laid out on the wire.
//!
//! A request is a verb, an optional parameter after one space, and CRLF. A
//! reply starts with a status line, `+OK <text>` or `-ERR <text>`. After a
//! positive status line some commands go on with body lines, up to a line
//! that holds a single dot.

use vstd::prelude::*;
use vstd::string::*;
use vstd::utf8::{decode_utf8, valid_utf8};
use crate::text::{chars_of, content, content_len, find, first_index, text_between};

verus! {

/// The commands that a client sends.
#[derive(Clone, Copy, Debug, PartialEq, Eq, Structural)]
pub enum Command {
    User,
    Pass,
    Apop,
    Stat,
    List,
    Retr,
    Dele,
    Noop,
    Rset,
    Quit,
    Top,
    Uidl,
}

/// The word that names a command on the wire.
pub open spec fn verb(command: Command) -> Seq<char> {
    match command {
        Command::User => seq!['U', 'S', 'E', 'R'],
        Command::Pass => seq!['P', 'A', 'S', 'S'],
        Command::Apop => seq!['A', 'P', 'O', 'P'],
        Command::Stat => seq!['S', 'T', 'A', 'T'],
        Command::List => seq!['L', 'I', 'S', 'T'],
        Command::Retr => seq!['R', 'E', 'T', 'R'],
        Command::Dele => seq!['D', 'E', 'L', 'E'],
        Command::Noop => seq!['N', 'O', 'O', 'P'],
        Command::Rset => seq!['R', 'S', 'E', 'T'],
        Command::Quit => seq!['Q', 'U', 'I', 'T'],
        Command::Top => seq!['T', 'O', 'P'],
        Command::Uidl => seq!['U', 'I', 'D', 'L'],
    }
}

/// Whether the reply to a command goes on after its status line. This is
/// decided by the command and by whether it was sent with a parameter, never
/// by the reply: a listing of the whole mailbox and a retrieval have a body,
/// everything else, a listing of one message included, is a single line.
pub open spec fn is_multiline(command: Command, has_param: bool) -> bool {
    match command {
        Command::List | Command::Uidl => !has_param,
        Command::Retr => true,
        _ => false,
    }
}

/// The line that carries a command: the verb, then a space and the parameter
/// where there is one, then CRLF.
pub open spec fn request_line(command: Command, param: Option<Seq<char>>) -> Seq<char> {
    match param {
        Some(p) => verb(command) + seq![' '] + p + seq!['\r', '\n'],
        None => verb(command) + seq!['\r', '\n'],
    }
}

/// What a status line says.
pub enum Status {
    /// `+OK`, with the text after it.
    Positive(Seq<char>),
    /// `-ERR`, with the text after it.
    Negative(Seq<char>),
}

/// The marker and the space that open a positive status line.
pub open spec fn ok_marker() -> Seq<char> {
    seq!['+', 'O', 'K', ' ']
}

/// The marker and the space that open a negative status line.
pub open spec fn err_marker() -> Seq<char> {
    seq!['-', 'E', 'R', 'R', ' ']
}

/// `s` begins with `prefix`.
pub open spec fn starts_with(s: Seq<char>, prefix: Seq<char>) -> bool {
    s.len() >= prefix.len() && s.take(prefix.len() as int) == prefix
}

/// Reads a status line. Its content must begin with `+OK` or `-ERR` and a
/// space; the text is what follows the space, without the closing CRLF.
/// Any other line is no status line.
pub open spec fn status_of(line: Seq<char>) -> Option<Status> {
    let c = content(line);
    if starts_with(c, ok_marker()) {
        Some(Status::Positive(c.skip(4)))
    } else if starts_with(c, err_marker()) {
        Some(Status::Negative(c.skip(5)))
    } else {
        None
    }
}

/// The line that closes a multi-line reply: a dot and CRLF, nothing else.
pub open spec fn is_terminator(line: Seq<char>) -> bool {
    line == seq!['.', '\r', '\n']
}

/// The session token of a greeting: where the content of the line ends with
/// `>` and holds a `<`, everything from the first `<` on. A greeting without
/// such a token has the empty token.
pub open spec fn token_of(greeting: Seq<char>) -> Seq<char> {
    let c = content(greeting);
    let k = first_index(c, '<');
    if c.len() > 0 && c.last() == '>' && k < c.len() {
        c.skip(k)
    } else {
        Seq::empty()
    }
}

impl Command {
    /// The word that names the command on the wire.
    pub fn name(self) -> (r: &'static str)
        ensures
            r@ == verb(self),
    {
        proof {
            reveal_strlit("USER");
            reveal_strlit("PASS");
            reveal_strlit("APOP");
            reveal_strlit("STAT");
            reveal_strlit("LIST");
            reveal_strlit("RETR");
            reveal_strlit("DELE");
            reveal_strlit("NOOP");
            reveal_strlit("RSET");
            reveal_strlit("QUIT");
            reveal_strlit("TOP");
            reveal_strlit("UIDL");
        }
        let r = match self {
            Command::User => "USER",
            Command::Pass => "PASS",
            Command::Apop => "APOP",
            Command::Stat => "STAT",
            Command::List => "LIST",
            Command::Retr => "RETR",
            Command::Dele => "DELE",
            Command::Noop => "NOOP",
            Command::Rset => "RSET",
            Command::Quit => "QUIT",
            Command::Top => "TOP",
            Command::Uidl => "UIDL",
        };
        assert(r@ =~= verb(self));
        r
    }

    /// Whether the reply to the command has a body.
    pub fn multiline(self, has_param: bool) -> (r: bool)
        ensures
            r == is_multiline(self, has_param),
    {
        match self {
            Command::List | Command::Uidl => !has_param,
            Command::Retr => true,
            _ => false,
        }
    }
}

/// Builds the line that carries a command.
pub fn request(command: Command, param: Option<&str>) -> (r: String)
    ensures
        r@ == request_line(
            command,
            match param {
                Some(p) => Some(p@),
                None => None,
            },
        ),
{
    proof {
        reveal_strlit(" ");
        reveal_strlit("\r\n");
    }
    let mut r = String::from_str(command.name());
    match param {
        Some(p) => {
            r.append(" ");
            r.append(p);
            r.append("\r\n");
            assert(r@ =~= verb(command) + seq![' '] + p@ + seq!['\r', '\n']);
        },
        None => {
            r.append("\r\n");
            assert(r@ =~= verb(command) + seq!['\r', '\n']);
        },
    }
    r
}

/// The verdict of a status line, as indices into the line.
pub(crate) enum Verdict {
    /// A positive status; its text is `line[from..to]`.
    Positive { from: usize, to: usize },
    /// A negative status; its text is `line[from..to]`.
    Negative { from: usize, to: usize },
    /// No status line.
    Neither,
}

/// Reads the status of a line from its characters.
pub(crate) fn classify(s: &Vec<char>) -> (v: Verdict)
    ensures
        match v {
            Verdict::Positive { from, to } => from <= to <= s.len() && status_of(s@) == Some(
                Status::Positive(s@.subrange(from as int, to as int)),
            ),
            Verdict::Negative { from, to } => from <= to <= s.len() && status_of(s@) == Some(
                Status::Negative(s@.subrange(from as int, to as int)),
            ),
            Verdict::Neither => status_of(s@) is None,
        },
{
    let n: usize = content_len(s);
    let ghost c = content(s@);
    if n >= 4 && s[0] == '+' && s[1] == 'O' && s[2] == 'K' && s[3] == ' ' {
        proof {
            assert(c.take(4) =~= ok_marker());
            assert(c.skip(4) =~= s@.subrange(4, n as int));
        }
        Verdict::Positive { from: 4, to: n }
    } else if n >= 5 && s[0] == '-' && s[1] == 'E' && s[2] == 'R' && s[3] == 'R' && s[4] == ' ' {
        proof {
            assert(c.take(5) =~= err_marker());
            assert(c.skip(5) =~= s@.subrange(5, n as int));
            if starts_with(c, ok_marker()) {
                assert(c.take(4)[0] == '+');
            }
        }
        Verdict::Negative { from: 5, to: n }
    } else {
        proof {
            if starts_with(c, ok_marker()) {
                let p = c.take(4);
                assert(p[0] == '+' && p[1] == 'O' && p[2] == 'K' && p[3] == ' ');
            }
            if starts_with(c, err_marker()) {
                let p = c.take(5);
                assert(p[0] == '-' && p[1] == 'E' && p[2] == 'R' && p[3] == 'R' && p[4] == ' ');
            }
        }
        Verdict::Neither
    }
}

/// Calls `String::from_utf8` of the standard library.
///
/// Trusted: the call succeeds exactly on valid UTF-8, and the string it
/// returns is the text that those bytes encode.
#[verifier::external_body]
pub(crate) fn text_of(raw: Vec<u8>) -> (r: Option<String>)
    ensures
        r is Some <==> valid_utf8(raw@),
        r matches Some(text) ==> text@ == decode_utf8(raw@),
{
    String::from_utf8(raw).ok()
}

/// Whether a line closes a multi-line reply.
pub fn terminates(line: &String) -> (r: bool)
    ensures
        r == is_terminator(line@),
{
    proof {
        reveal_strlit(".\r\n");
    }
    let dot = String::from_str(".\r\n");
    assert(dot@ =~= seq!['.', '\r', '\n']);
    *line == dot
}

/// Extracts the session token from a greeting.
pub fn session_token(greeting: &str) -> (r: String)
    ensures
        r@ == token_of(greeting@),
{
    let s = chars_of(greeting);
    let n: usize = content_len(&s);
    let k: usize = find(&s, 0, n, '<');
    proof {
        assert(s@.subrange(0, n as int) =~= content(s@));
    }
    if n > 0 && s[n - 1] == '>' && k < n {
        proof {
            assert(content(s@).skip(k as int) =~= greeting@.subrange(k as int, n as int));
        }
        text_between(greeting, k, n)
    } else {
        String::new()
    }
}

} // verus!
