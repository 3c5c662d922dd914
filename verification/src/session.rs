//! The session as a mathematical object.
//!
//! A [`Session`] is what a connection knows: the credentials, the state, the
//! session token, the reply it waits for and the lines of that reply that
//! have come so far. Two functions move it: [`begin`], when the caller
//! starts an operation, and [`accept`], when a line arrives from the server.
//! The connection in the crate root is an implementation of these two
//! functions; the laws at the end of this file are proved of them.

use vstd::prelude::*;
use vstd::utf8::{
    decode_utf8, encode_utf8, encode_utf8_decode_utf8, encode_utf8_valid_utf8, is_ascii_chars,
    is_ascii_chars_encode_utf8, valid_utf8,
};
use crate::errors::ErrorView;
use crate::framing::{
    is_multiline, is_terminator, request_line, status_of, token_of, Command, Status,
};
use crate::pop3result::{EmailMetadata, POP3Stat};
use crate::pop3resultimpl::{list_of, list_of_one, retr_of, stat_of, uidl_of, uidl_of_one};
use crate::text::decimal;
use crate::utils::apop_digest;

verus! {

/// The phase of a session. A session starts in `Begin`, enters
/// `Authorization` with the greeting, `Transaction` with a login and `End`
/// with `QUIT`. It never goes back.
#[derive(Clone, Copy, Debug, PartialEq, Eq, Structural)]
pub enum POP3State {
    Begin,
    Authorization,
    Transaction,
    End,
}

/// What a session waits for.
#[derive(Clone, Copy, Debug, PartialEq, Eq, Structural)]
pub enum Awaited {
    /// Nothing: no command is outstanding.
    Nothing,
    /// The greeting that the server sends when the connection opens.
    Greeting,
    /// The reply to a command; `multiline` says whether it has a body.
    Reply { command: Command, multiline: bool },
}

/// An operation that a caller starts.
pub enum Op {
    Login,
    Stat,
    List(Option<u32>),
    Retr(u32),
    Dele(u32),
    Noop,
    Rset,
    Quit,
    Top(u32, u32),
    Uidl(Option<u32>),
}

/// The mathematical value of a connection.
pub struct Session {
    pub username: Seq<char>,
    pub password: Seq<char>,
    pub state: POP3State,
    /// The session token of the greeting; empty until a greeting with a
    /// token has come.
    pub timestamp: Seq<char>,
    pub awaited: Awaited,
    /// The lines of the awaited reply that have come so far, the status line
    /// first.
    pub lines: Seq<Seq<char>>,
}

/// The mathematical value of a finished operation's result.
pub enum ReplyView {
    Accepted,
    Stat(POP3Stat),
    List(Seq<EmailMetadata>),
    Retr(Seq<char>),
    Uidl(Map<u32, Seq<char>>),
}

/// The mathematical value of what a connection asks of its caller after a
/// line.
pub enum StepView {
    /// Read the next line of the reply and hand it over.
    Read,
    /// Write this request, then read the first line of its reply.
    Send(Seq<char>),
    /// The operation has succeeded.
    Done(ReplyView),
    /// The operation has failed.
    Failed(ErrorView),
}

/// How far a session has come.
pub open spec fn rank(state: POP3State) -> nat {
    match state {
        POP3State::Begin => 0,
        POP3State::Authorization => 1,
        POP3State::Transaction => 2,
        POP3State::End => 3,
    }
}

/// The states in which a command may be sent: the three commands of a login
/// in `Authorization`, `QUIT` in `Authorization` and in `Transaction`, every
/// other command in `Transaction`.
pub open spec fn allowed(command: Command, state: POP3State) -> bool {
    match command {
        Command::User | Command::Pass | Command::Apop => state == POP3State::Authorization,
        Command::Quit => state == POP3State::Authorization || state == POP3State::Transaction,
        _ => state == POP3State::Transaction,
    }
}

/// The command that opens an operation.
pub open spec fn command_of(op: Op) -> Command {
    match op {
        Op::Login => Command::User,
        Op::Stat => Command::Stat,
        Op::List(_) => Command::List,
        Op::Retr(_) => Command::Retr,
        Op::Dele(_) => Command::Dele,
        Op::Noop => Command::Noop,
        Op::Rset => Command::Rset,
        Op::Quit => Command::Quit,
        Op::Top(_, _) => Command::Top,
        Op::Uidl(_) => Command::Uidl,
    }
}

/// A message number as a parameter.
pub open spec fn number_param(n: Option<u32>) -> Option<Seq<char>> {
    match n {
        Some(n) => Some(decimal(n as nat)),
        None => None,
    }
}

/// The parameter of the command that opens an operation.
pub open spec fn param_of(s: Session, op: Op) -> Option<Seq<char>> {
    match op {
        Op::Login => Some(s.username),
        Op::Stat | Op::Noop | Op::Rset | Op::Quit => None,
        Op::List(n) => number_param(n),
        Op::Uidl(n) => number_param(n),
        Op::Retr(n) => Some(decimal(n as nat)),
        Op::Dele(n) => Some(decimal(n as nat)),
        Op::Top(n, lines) => Some(decimal(n as nat) + seq![' '] + decimal(lines as nat)),
    }
}

/// The parameter of `APOP`: the user's name, a space and the digest of the
/// session token and the password.
pub open spec fn apop_param(s: Session) -> Seq<char> {
    s.username + seq![' '] + apop_digest(s.timestamp, s.password)
}

/// The session as it waits for the reply to `command`.
pub open spec fn waiting(s: Session, command: Command, has_param: bool) -> Session {
    Session {
        awaited: Awaited::Reply { command, multiline: is_multiline(command, has_param) },
        lines: Seq::empty(),
        ..s
    }
}

/// The session with no command outstanding.
pub open spec fn idle(s: Session) -> Session {
    Session { awaited: Awaited::Nothing, lines: Seq::empty(), ..s }
}

/// The session waits for the reply to `QUIT`.
pub open spec fn quit_is_awaited(s: Session) -> bool {
    s.awaited matches (Awaited::Reply { command: Command::Quit, .. })
}

/// The session after the awaited reply has been given up: no command is
/// outstanding. Where it was the reply to `QUIT`, the session has ended all
/// the same: `QUIT` ends a session whatever comes of it.
pub open spec fn failed(s: Session) -> Session {
    if quit_is_awaited(s) {
        Session { state: POP3State::End, ..idle(s) }
    } else {
        idle(s)
    }
}

/// The session after its transport has failed: the awaited reply, if there
/// is one, is given up.
pub open spec fn abandoned(s: Session) -> Session {
    if s.awaited is Nothing {
        s
    } else {
        failed(s)
    }
}

/// The session of a new connection: in `Begin`, waiting for the greeting.
pub open spec fn initial(username: Seq<char>, password: Seq<char>) -> Session {
    Session {
        username,
        password,
        state: POP3State::Begin,
        timestamp: Seq::empty(),
        awaited: Awaited::Greeting,
        lines: Seq::empty(),
    }
}

/// Whether an operation may start: no command is outstanding and the state
/// allows the command that opens it.
pub open spec fn can_begin(s: Session, op: Op) -> bool {
    s.awaited is Nothing && allowed(command_of(op), s.state)
}

/// The session after the caller has asked for an operation. Where the
/// operation may not start, nothing changes.
pub open spec fn begin(s: Session, op: Op) -> Session {
    if can_begin(s, op) {
        waiting(s, command_of(op), param_of(s, op) is Some)
    } else {
        s
    }
}

/// What the caller gets when it asks for an operation: the request to write,
/// or a refusal.
pub open spec fn begin_result(s: Session, op: Op) -> Result<Seq<char>, ErrorView> {
    if can_begin(s, op) {
        Ok(request_line(command_of(op), param_of(s, op)))
    } else {
        Err(ErrorView::Precondition)
    }
}

/// The scan listing of a reply: that of the whole mailbox is in the body,
/// that of one message in the status line.
pub open spec fn scan_listing(multiline: bool, lines: Seq<Seq<char>>) -> Option<
    Seq<EmailMetadata>,
> {
    if multiline {
        list_of(lines)
    } else {
        list_of_one(lines[0])
    }
}

/// The unique-id listing of a reply: that of the whole mailbox is in the
/// body, that of one message in the status line.
pub open spec fn uid_listing(multiline: bool, lines: Seq<Seq<char>>) -> Result<
    Map<u32, Seq<char>>,
    ErrorView,
> {
    if multiline {
        uidl_of(lines)
    } else {
        uidl_of_one(lines[0])
    }
}

/// What a complete, positive reply to a command decodes into.
#[verifier::opaque]
pub open spec fn decode(command: Command, multiline: bool, lines: Seq<Seq<char>>) -> StepView {
    match command {
        Command::Stat => match stat_of(lines[0]) {
            Some(stat) => StepView::Done(ReplyView::Stat(stat)),
            None => StepView::Failed(ErrorView::Malformed),
        },
        Command::List => match scan_listing(multiline, lines) {
            Some(list) => StepView::Done(ReplyView::List(list)),
            None => StepView::Failed(ErrorView::Malformed),
        },
        Command::Uidl => match uid_listing(multiline, lines) {
            Ok(table) => StepView::Done(ReplyView::Uidl(table)),
            Err(e) => StepView::Failed(e),
        },
        Command::Retr | Command::Top => StepView::Done(ReplyView::Retr(retr_of(lines))),
        _ => StepView::Done(ReplyView::Accepted),
    }
}

/// The session and the step after a complete, positive reply.
///
/// The greeting opens `Authorization` and leaves its token. `USER` is
/// followed by `PASS`. `PASS` and `APOP` open `Transaction`, `QUIT` ends
/// the session. Every other reply is decoded and changes nothing else.
pub open spec fn complete(s: Session, lines: Seq<Seq<char>>) -> (Session, StepView) {
    match s.awaited {
        Awaited::Nothing => (s, StepView::Failed(ErrorView::Precondition)),
        Awaited::Greeting => (
            Session {
                state: POP3State::Authorization,
                timestamp: token_of(lines[0]),
                ..idle(s)
            },
            StepView::Done(ReplyView::Accepted),
        ),
        Awaited::Reply { command, multiline } => match command {
            Command::User => (
                waiting(s, Command::Pass, true),
                StepView::Send(request_line(Command::Pass, Some(s.password))),
            ),
            Command::Pass | Command::Apop => (
                Session { state: POP3State::Transaction, ..idle(s) },
                StepView::Done(ReplyView::Accepted),
            ),
            Command::Quit => (
                Session { state: POP3State::End, ..idle(s) },
                StepView::Done(ReplyView::Accepted),
            ),
            _ => (idle(s), decode(command, multiline, lines)),
        },
    }
}

/// The session and the step after a negative reply. A refused `USER` is
/// followed, once, by `APOP`; any other refusal ends the operation with the
/// server's text, and a refused `QUIT` ends the session too.
pub open spec fn refuse(s: Session, detail: Seq<char>) -> (Session, StepView) {
    if s.awaited matches (Awaited::Reply { command: Command::User, .. }) {
        (
            waiting(s, Command::Apop, true),
            StepView::Send(request_line(Command::Apop, Some(apop_param(s)))),
        )
    } else {
        (failed(s), StepView::Failed(ErrorView::Server(detail)))
    }
}

/// The session and the step after a line of text has come.
///
/// The first line of a reply is its status line. A line that is no status
/// line ends the operation; a negative one is a refusal; a positive one
/// completes a single-line reply and opens the body of a multi-line reply.
/// In a body, the terminator completes the reply and is dropped; any other
/// line is kept as it came.
pub open spec fn accept_line(s: Session, line: Seq<char>) -> (Session, StepView) {
    if s.lines.len() == 0 {
        match status_of(line) {
            None => (failed(s), StepView::Failed(ErrorView::Unparseable)),
            Some(Status::Negative(detail)) => refuse(s, detail),
            Some(Status::Positive(_)) => if s.awaited matches (Awaited::Reply {
                multiline: true,
                ..
            }) {
                (Session { lines: seq![line], ..s }, StepView::Read)
            } else {
                complete(s, seq![line])
            },
        }
    } else if is_terminator(line) {
        complete(s, s.lines)
    } else {
        (Session { lines: s.lines.push(line), ..s }, StepView::Read)
    }
}

/// The session and the step after a line of bytes has come.
///
/// A line that comes when nothing is awaited is refused and changes
/// nothing. A line that is not valid UTF-8 ends the operation. Whatever
/// line comes in reply to `QUIT`, the session has ended after it.
pub open spec fn accept(s: Session, raw: Seq<u8>) -> (Session, StepView) {
    if s.awaited is Nothing {
        (s, StepView::Failed(ErrorView::Precondition))
    } else if !valid_utf8(raw) {
        (failed(s), StepView::Failed(ErrorView::Utf8))
    } else {
        accept_line(s, decode_utf8(raw))
    }
}

impl Session {
    /// What holds of every session that a connection can be in: the greeting
    /// is awaited in `Begin` only, a reply only in a state that allows its
    /// command and with a body only where the command can have one, and
    /// lines are held only of a multi-line reply that is awaited.
    pub open spec fn wf(self) -> bool {
        match self.awaited {
            Awaited::Nothing => self.lines.len() == 0,
            Awaited::Greeting => self.lines.len() == 0 && self.state == POP3State::Begin,
            Awaited::Reply { command, multiline } => {
                &&& allowed(command, self.state)
                &&& multiline == is_multiline(command, true) || multiline == is_multiline(
                    command,
                    false,
                )
                &&& self.lines.len() > 0 ==> multiline
            },
        }
    }
}

/// Something that happens to a session.
pub enum Event {
    /// The caller asks for an operation.
    Ask(Op),
    /// A line arrives from the server.
    Line(Seq<u8>),
    /// The transport fails.
    Broken,
}

/// The session after an event.
pub open spec fn after(s: Session, e: Event) -> Session {
    match e {
        Event::Ask(op) => begin(s, op),
        Event::Line(raw) => accept(s, raw).0,
        Event::Broken => abandoned(s),
    }
}

/// The session after a sequence of events.
pub open spec fn run(s: Session, events: Seq<Event>) -> Session
    decreases events.len(),
{
    if events.len() == 0 {
        s
    } else {
        after(run(s, events.drop_last()), events.last())
    }
}

/// The event completes a login: it is a positive status line, and the
/// session waits for the reply to `PASS` or to `APOP`.
pub open spec fn logs_in(s: Session, e: Event) -> bool {
    &&& e matches Event::Line(raw)
    &&& s.awaited matches Awaited::Reply { command, .. }
    &&& command == Command::Pass || command == Command::Apop
    &&& valid_utf8(raw)
    &&& status_of(decode_utf8(raw)) matches Some(Status::Positive(_))
}

/// An operation on the mailbox: any operation but the login and the end of
/// the session.
pub open spec fn needs_transaction(op: Op) -> bool {
    !(op is Login) && !(op is Quit)
}

/// The arrival of lines, one after the other.
pub open spec fn arrivals(raws: Seq<Seq<u8>>) -> Seq<Event> {
    raws.map_values(|raw: Seq<u8>| Event::Line(raw))
}

/// The texts that lines of bytes encode.
pub open spec fn decoded(raws: Seq<Seq<u8>>) -> Seq<Seq<char>> {
    raws.map_values(|raw: Seq<u8>| decode_utf8(raw))
}

/// The bytes of the line that closes a multi-line reply.
pub open spec fn terminator() -> Seq<u8> {
    seq![0x2eu8, 0x0du8, 0x0au8]
}

/// A new session is well formed.
pub proof fn lemma_initial_is_wf(username: Seq<char>, password: Seq<char>)
    ensures
        initial(username, password).wf(),
{
}

/// No event makes a well-formed session ill formed. With the law before,
/// every session that a connection can be in is well formed.
#[verifier::rlimit(40)]
pub proof fn lemma_wf_is_kept(s: Session, e: Event)
    requires
        s.wf(),
    ensures
        after(s, e).wf(),
{
}

/// The state of a session moves forward only, one phase at a time but for
/// the end, and each move has one cause: the greeting opens `Authorization`,
/// a positive reply to `PASS` or `APOP` opens `Transaction`, and whatever
/// follows a `QUIT` that was sent, a reply of any kind or a failure of the
/// transport, ends the session. Asking for an operation moves nothing.
#[verifier::rlimit(40)]
pub proof fn lemma_state_moves_forward(s: Session, e: Event)
    requires
        s.wf(),
    ensures
        ({
            let t = after(s, e);
            ||| t.state == s.state
            ||| s.state == POP3State::Begin && t.state == POP3State::Authorization && s.awaited
                == Awaited::Greeting
            ||| s.state == POP3State::Authorization && t.state == POP3State::Transaction
                && logs_in(s, e)
            ||| (s.state == POP3State::Authorization || s.state == POP3State::Transaction)
                && t.state == POP3State::End && s.awaited == (Awaited::Reply {
                command: Command::Quit,
                multiline: false,
            }) && !(e is Ask)
        }),
        e is Ask ==> after(s, e).state == s.state,
        rank(s.state) <= rank(after(s, e).state),
{
}

/// None of the events completes a login, each of them taken in the session
/// in which it arrives.
pub open spec fn no_login(s: Session, events: Seq<Event>) -> bool
    decreases events.len(),
{
    events.len() == 0 || (no_login(s, events.drop_last()) && !logs_in(
        run(s, events.drop_last()),
        events.last(),
    ))
}

/// Without a login, a session does not come to `Transaction`.
pub proof fn lemma_transaction_needs_login(s: Session, events: Seq<Event>)
    requires
        s.wf(),
        s.state != POP3State::Transaction,
        no_login(s, events),
    ensures
        run(s, events).wf(),
        run(s, events).state != POP3State::Transaction,
    decreases events.len(),
{
    if events.len() > 0 {
        let before = run(s, events.drop_last());
        lemma_transaction_needs_login(s, events.drop_last());
        lemma_wf_is_kept(before, events.last());
        lemma_state_moves_forward(before, events.last());
    }
}

/// Before a login has succeeded, no operation on the mailbox starts: asked
/// for after any sequence of events none of which completes a login, it is
/// refused as a violated precondition, no request is made and the session
/// stays as it is, so that nothing is written and nothing is read.
pub proof fn lemma_no_transaction_before_login(s: Session, events: Seq<Event>, op: Op)
    requires
        s.wf(),
        s.state != POP3State::Transaction,
        no_login(s, events),
        needs_transaction(op),
    ensures
        begin_result(run(s, events), op) == Err::<Seq<char>, ErrorView>(ErrorView::Precondition),
        begin(run(s, events), op) == run(s, events),
{
    lemma_transaction_needs_login(s, events);
}

/// `QUIT` ends the session whatever the round trip comes to: once it has
/// been asked for, the next line, be it positive, negative, no status line
/// or no text at all, leaves the session in `End` with nothing outstanding,
/// and so does a failure of the transport. The operation has succeeded
/// exactly if the line is a positive status line.
pub proof fn lemma_quit_ends_the_session(s: Session, raw: Seq<u8>)
    requires
        s.wf(),
        quit_is_awaited(s),
    ensures
        accept(s, raw).0 == (Session { state: POP3State::End, ..idle(s) }),
        abandoned(s) == (Session { state: POP3State::End, ..idle(s) }),
        accept(s, raw).1 is Done || accept(s, raw).1 is Failed,
        accept(s, raw).1 is Done <==> valid_utf8(raw) && status_of(decode_utf8(raw)) matches Some(
            Status::Positive(_),
        ),
        accept(s, raw).1 is Done ==> accept(s, raw).1 == StepView::Done(ReplyView::Accepted),
{
}

/// A negative status line ends the operation with the server's text: for
/// every awaited reply but that to `USER`, with or without a body, the step
/// is the failure that carries the text after `-ERR` and the space, and
/// nothing is awaited after it, so that no further line is read.
pub proof fn lemma_refusal_ends_the_operation(s: Session, raw: Seq<u8>, detail: Seq<char>)
    requires
        !(s.awaited is Nothing),
        !(s.awaited matches Awaited::Reply { command: Command::User, .. }),
        s.lines.len() == 0,
        valid_utf8(raw),
        status_of(decode_utf8(raw)) == Some(Status::Negative(detail)),
    ensures
        accept(s, raw).1 == StepView::Failed(ErrorView::Server(detail)),
        accept(s, raw).0 == failed(s),
        accept(s, raw).0.awaited is Nothing,
        accept(s, raw).0.lines.len() == 0,
{
}

/// Once a session has ended, it stays ended and starts no operation.
pub proof fn lemma_end_is_final(s: Session, e: Event, op: Op)
    requires
        s.wf(),
        s.state == POP3State::End,
    ensures
        after(s, e).state == POP3State::End,
        begin_result(s, op) == Err::<Seq<char>, ErrorView>(ErrorView::Precondition),
        begin(s, op) == s,
{
}

/// The bytes of the terminator are text, and the text is a dot and CRLF.
pub proof fn lemma_terminator()
    ensures
        valid_utf8(terminator()),
        is_terminator(decode_utf8(terminator())),
{
    let text = seq!['.', '\r', '\n'];
    assert(is_ascii_chars(text));
    is_ascii_chars_encode_utf8(text);
    assert(encode_utf8(text) =~= terminator());
    encode_utf8_valid_utf8(text);
    encode_utf8_decode_utf8(text);
}

/// While the body of a reply comes in, the session keeps every line as it
/// came and in the order in which it came, and goes on waiting.
pub proof fn lemma_body_is_kept(s: Session, status: Seq<u8>, body: Seq<Seq<u8>>)
    requires
        s.awaited matches Awaited::Reply { multiline: true, .. },
        s.lines.len() == 0,
        valid_utf8(status),
        status_of(decode_utf8(status)) matches Some(Status::Positive(_)),
        forall|i: int|
            0 <= i < body.len() ==> valid_utf8(#[trigger] body[i]) && !is_terminator(
                decode_utf8(body[i]),
            ),
    ensures
        run(s, arrivals(seq![status] + body)) == (Session {
            lines: decoded(seq![status] + body),
            ..s
        }),
    decreases body.len(),
{
    let all = seq![status] + body;
    let events = arrivals(all);
    if body.len() == 0 {
        assert(events.drop_last() =~= Seq::<Event>::empty());
        assert(run(s, events.drop_last()) == s);
        assert(events.last() == Event::Line(status));
        assert(run(s, events).lines =~= decoded(all));
    } else {
        let front = body.drop_last();
        assert forall|i: int| 0 <= i < front.len() implies valid_utf8(#[trigger] front[i])
            && !is_terminator(decode_utf8(front[i])) by {
            assert(front[i] == body[i]);
        }
        lemma_body_is_kept(s, status, front);
        assert(events.drop_last() =~= arrivals(seq![status] + front));
        assert(events.last() == Event::Line(body.last()));
        assert(decoded(seq![status] + front).push(decode_utf8(body.last())) =~= decoded(all));
        assert(run(s, events).lines =~= decoded(all));
    }
}

/// The text of a retrieved message is the body of the reply, no more and no
/// less: where a positive status line, any lines other than the terminator
/// and then the terminator come in reply to `RETR`, the operation ends with
/// those lines, unchanged and in their order, as the text. The status line
/// and the terminator are not part of it.
pub proof fn lemma_retr_is_the_body(s: Session, status: Seq<u8>, body: Seq<Seq<u8>>)
    requires
        s.awaited == (Awaited::Reply { command: Command::Retr, multiline: true }),
        s.lines.len() == 0,
        valid_utf8(status),
        status_of(decode_utf8(status)) matches Some(Status::Positive(_)),
        forall|i: int|
            0 <= i < body.len() ==> valid_utf8(#[trigger] body[i]) && !is_terminator(
                decode_utf8(body[i]),
            ),
    ensures
        accept(run(s, arrivals(seq![status] + body)), terminator()) == (
            idle(s),
            StepView::Done(ReplyView::Retr(decoded(body).flatten())),
        ),
{
    reveal(decode);
    lemma_terminator();
    lemma_body_is_kept(s, status, body);
    assert(decoded(seq![status] + body).skip(1) =~= decoded(body));
}

} // verus!
