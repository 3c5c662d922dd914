//! A client for the Post Office Protocol, version 3, that does no input or
//! output of its own.
//!
//! A [`POP3Connection`] decides what is written to the server and what the
//! server's lines mean; its caller owns the transport. The caller asks for
//! an operation and gets the request to write. It then reads the reply line
//! by line and hands each line to [`POP3Connection::read_response`], which
//! answers with the next [`Step`]: read another line, write another request,
//! or take the result.
//!
//! ```text
//! let mut connection = POP3Connection::new(account)?;
//! // read the greeting, hand it over, then:
//! let request = connection.login()?;
//! // write `request`, read a line, hand it over, follow the steps ...
//! ```

pub mod errors;
pub mod framing;
pub mod pop3result;
pub mod pop3resultimpl;
pub mod session;
pub mod text;
pub mod utils;

use vstd::prelude::*;
use vstd::string::*;
pub use crate::errors::Error;
pub use crate::session::POP3State;
use crate::errors::ErrorView;
use crate::framing::{
    classify, request, request_line, session_token, terminates, text_of, Command, Verdict,
};
use crate::pop3result::{POP3List, POP3Retr, POP3Stat, POP3Uidl};
use crate::pop3resultimpl::texts;
use crate::session::{
    accept, allowed, begin, begin_result, complete, initial, refuse, waiting, Awaited, Op,
    ReplyView, Session, StepView,
};
use crate::text::{chars_of, decimal_string, text_between};
use crate::utils::get_apop_digest;

verus! {

/// The credentials of an account and the place of its server.
#[derive(Debug, Clone, PartialEq, Eq)]
pub struct AccountConfig {
    pub host: String,
    pub port: u16,
    pub username: String,
    pub password: String,
    /// The kind of transport: `Plain`, or `SSL` (also written `TLS`).
    pub auth: String,
}

/// The kind of transport that an account asks for.
#[derive(Clone, Copy, Debug, PartialEq, Eq, Structural)]
pub enum AuthMode {
    /// A plain byte stream.
    Plain,
    /// A byte stream wrapped in TLS.
    Tls,
}

/// The transport that an `auth` value names: `Plain` is the plain one, `SSL`
/// and `TLS` are the wrapped one, and no other value names any.
pub open spec fn auth_mode_of(auth: Seq<char>) -> Option<AuthMode> {
    if auth == seq!['P', 'l', 'a', 'i', 'n'] {
        Some(AuthMode::Plain)
    } else if auth == seq!['S', 'S', 'L'] || auth == seq!['T', 'L', 'S'] {
        Some(AuthMode::Tls)
    } else {
        None
    }
}

impl AccountConfig {
    /// The kind of transport that the account asks for.
    pub fn auth_mode(&self) -> (r: Result<AuthMode, Error>)
        ensures
            match auth_mode_of(self.auth@) {
                Some(mode) => r == Ok::<AuthMode, Error>(mode),
                None => r matches Err(Error::Config),
            },
    {
        proof {
            reveal_strlit("Plain");
            reveal_strlit("SSL");
            reveal_strlit("TLS");
        }
        let plain = String::from_str("Plain");
        let ssl = String::from_str("SSL");
        let tls = String::from_str("TLS");
        assert(plain@ =~= seq!['P', 'l', 'a', 'i', 'n']);
        assert(ssl@ =~= seq!['S', 'S', 'L']);
        assert(tls@ =~= seq!['T', 'L', 'S']);
        if self.auth == plain {
            Ok(AuthMode::Plain)
        } else if self.auth == ssl || self.auth == tls {
            Ok(AuthMode::Tls)
        } else {
            Err(Error::Config)
        }
    }
}

/// The result of an operation that has succeeded.
pub enum Reply {
    /// The server accepted the command; there is nothing to decode.
    Accepted,
    Stat(POP3Stat),
    List(POP3List),
    Retr(POP3Retr),
    Uidl(POP3Uidl),
}

/// What a connection asks of its caller after it has read a line.
pub enum Step {
    /// Read the next line of the reply and hand it over.
    Read,
    /// Write this request as one write, then read the first line of its
    /// reply and hand it over.
    Send(String),
    /// The operation has succeeded.
    Done(Reply),
    /// The operation has failed.
    Failed(Error),
}

impl View for Reply {
    type V = ReplyView;

    open spec fn view(&self) -> ReplyView {
        match *self {
            Reply::Accepted => ReplyView::Accepted,
            Reply::Stat(stat) => ReplyView::Stat(stat),
            Reply::List(list) => ReplyView::List(list@),
            Reply::Retr(retr) => ReplyView::Retr(retr@),
            Reply::Uidl(uidl) => ReplyView::Uidl(uidl@),
        }
    }
}

impl View for Step {
    type V = StepView;

    open spec fn view(&self) -> StepView {
        match *self {
            Step::Read => StepView::Read,
            Step::Send(request) => StepView::Send(request@),
            Step::Done(reply) => StepView::Done(reply@),
            Step::Failed(e) => StepView::Failed(e@),
        }
    }
}

/// One session with a server.
///
/// The connection holds no transport. It says what is to be written and is
/// told what was read.
pub struct POP3Connection {
    account: AccountConfig,
    mode: AuthMode,
    state: POP3State,
    timestamp: String,
    awaited: Awaited,
    lines: Vec<String>,
}

impl View for POP3Connection {
    type V = Session;

    closed spec fn view(&self) -> Session {
        Session {
            username: self.account.username@,
            password: self.account.password@,
            state: self.state,
            timestamp: self.timestamp@,
            awaited: self.awaited,
            lines: texts(self.lines@),
        }
    }
}

impl POP3Connection {
    /// The account that the connection was made for.
    pub closed spec fn config(&self) -> AccountConfig {
        self.account
    }

    /// The transport that the connection is to be run over.
    pub closed spec fn mode(&self) -> AuthMode {
        self.mode
    }

    /// Prepares a session for an account.
    ///
    /// This fails, with `Error::Config`, exactly if the account's `auth`
    /// names no transport. The new connection is in `Begin` and waits for
    /// the server's greeting: the caller opens the transport that
    /// `auth_mode` names, reads a line and hands it over.
    pub fn new(account: AccountConfig) -> (r: Result<POP3Connection, Error>)
        ensures
            match auth_mode_of(account.auth@) {
                Some(mode) => r matches Ok(connection) && connection@ == initial(
                    account.username@,
                    account.password@,
                ) && connection@.wf() && connection.mode() == mode && connection.config()
                    == account,
                None => r matches Err(Error::Config),
            },
    {
        match account.auth_mode() {
            Ok(mode) => {
                let connection = POP3Connection {
                    account,
                    mode,
                    state: POP3State::Begin,
                    timestamp: String::new(),
                    awaited: Awaited::Greeting,
                    lines: Vec::new(),
                };
                assert(connection@.lines =~= Seq::<Seq<char>>::empty());
                Ok(connection)
            },
            Err(_) => Err(Error::Config),
        }
    }

    /// The transport that the connection is to be run over.
    pub fn auth_mode(&self) -> (r: AuthMode)
        ensures
            r == self.mode(),
    {
        self.mode
    }

    /// The state of the session.
    pub fn state(&self) -> (r: POP3State)
        ensures
            r == self@.state,
    {
        self.state
    }

    /// The session token of the greeting; empty if none has come.
    pub fn timestamp(&self) -> (r: &String)
        ensures
            r@ == self@.timestamp,
    {
        &self.timestamp
    }

    /// The account of the session.
    pub fn account(&self) -> (r: &AccountConfig)
        ensures
            *r == self.config(),
            r.username@ == self@.username,
            r.password@ == self@.password,
    {
        &self.account
    }

    /// Whether a reply, or the rest of one, is awaited.
    pub fn is_waiting(&self) -> (r: bool)
        ensures
            r == !(self@.awaited is Nothing),
    {
        match self.awaited {
            Awaited::Nothing => false,
            _ => true,
        }
    }

    /// Asks for a login and returns the request to write, `USER` with the
    /// account's user name.
    ///
    /// The login goes on in the steps that `read_response` returns: after a
    /// positive reply to `USER` comes `PASS` with the password; after a
    /// negative one comes, once, `APOP` with the digest of the session token
    /// and the password. A positive reply to `PASS` or to `APOP` opens
    /// `Transaction`. A refused `PASS` is not followed by `APOP`.
    pub fn login(&mut self) -> (r: Result<String, Error>)
        ensures
            final(self)@ == begin(old(self)@, Op::Login),
            answers(r, begin_result(old(self)@, Op::Login)),
            old(self)@.wf() ==> final(self)@.wf(),
            final(self).config() == old(self).config(),
            final(self).mode() == old(self).mode(),
    {
        let username = self.account.username.clone();
        self.start(Command::User, Some(username.as_str()))
    }

    /// Asks for the statistics of the mailbox and returns the request to
    /// write.
    pub fn stat(&mut self) -> (r: Result<String, Error>)
        ensures
            final(self)@ == begin(old(self)@, Op::Stat),
            answers(r, begin_result(old(self)@, Op::Stat)),
            old(self)@.wf() ==> final(self)@.wf(),
            final(self).config() == old(self).config(),
            final(self).mode() == old(self).mode(),
    {
        self.start(Command::Stat, None)
    }

    /// Asks for the scan listing of one message, or of the whole mailbox,
    /// and returns the request to write.
    pub fn list(&mut self, msgnum: Option<u32>) -> (r: Result<String, Error>)
        ensures
            final(self)@ == begin(old(self)@, Op::List(msgnum)),
            answers(r, begin_result(old(self)@, Op::List(msgnum))),
            old(self)@.wf() ==> final(self)@.wf(),
            final(self).config() == old(self).config(),
            final(self).mode() == old(self).mode(),
    {
        match msgnum {
            Some(n) => {
                let param = decimal_string(n);
                self.start(Command::List, Some(param.as_str()))
            },
            None => self.start(Command::List, None),
        }
    }

    /// Asks for a message and returns the request to write.
    pub fn retr(&mut self, msgnum: u32) -> (r: Result<String, Error>)
        ensures
            final(self)@ == begin(old(self)@, Op::Retr(msgnum)),
            answers(r, begin_result(old(self)@, Op::Retr(msgnum))),
            old(self)@.wf() ==> final(self)@.wf(),
            final(self).config() == old(self).config(),
            final(self).mode() == old(self).mode(),
    {
        let param = decimal_string(msgnum);
        self.start(Command::Retr, Some(param.as_str()))
    }

    /// Asks for a message to be marked as deleted and returns the request
    /// to write.
    pub fn dele(&mut self, msgnum: u32) -> (r: Result<String, Error>)
        ensures
            final(self)@ == begin(old(self)@, Op::Dele(msgnum)),
            answers(r, begin_result(old(self)@, Op::Dele(msgnum))),
            old(self)@.wf() ==> final(self)@.wf(),
            final(self).config() == old(self).config(),
            final(self).mode() == old(self).mode(),
    {
        let param = decimal_string(msgnum);
        self.start(Command::Dele, Some(param.as_str()))
    }

    /// Asks for nothing but a positive reply and returns the request to
    /// write.
    pub fn noop(&mut self) -> (r: Result<String, Error>)
        ensures
            final(self)@ == begin(old(self)@, Op::Noop),
            answers(r, begin_result(old(self)@, Op::Noop)),
            old(self)@.wf() ==> final(self)@.wf(),
            final(self).config() == old(self).config(),
            final(self).mode() == old(self).mode(),
    {
        self.start(Command::Noop, None)
    }

    /// Asks for the deletion marks to be taken back and returns the request
    /// to write.
    pub fn rset(&mut self) -> (r: Result<String, Error>)
        ensures
            final(self)@ == begin(old(self)@, Op::Rset),
            answers(r, begin_result(old(self)@, Op::Rset)),
            old(self)@.wf() ==> final(self)@.wf(),
            final(self).config() == old(self).config(),
            final(self).mode() == old(self).mode(),
    {
        self.start(Command::Rset, None)
    }

    /// Asks for the end of the session and returns the request to write.
    ///
    /// Once the request is out, the session ends whatever comes of it: the
    /// next line puts the session in `End`, be it positive or not, and so
    /// does `abandon`. The caller then shuts the transport down. The
    /// operation has succeeded if the line was positive.
    pub fn quit(&mut self) -> (r: Result<String, Error>)
        ensures
            final(self)@ == begin(old(self)@, Op::Quit),
            answers(r, begin_result(old(self)@, Op::Quit)),
            old(self)@.wf() ==> final(self)@.wf(),
            final(self).config() == old(self).config(),
            final(self).mode() == old(self).mode(),
    {
        self.start(Command::Quit, None)
    }

    /// Asks for the headers and the first `lines` lines of a message and
    /// returns the request to write.
    ///
    /// `TOP` is framed as every command is but the listings of the whole
    /// mailbox and `RETR`: its reply ends with the status line. The text
    /// that the reply is decoded into is the text after that line, which is
    /// empty.
    pub fn top(&mut self, msgnum: u32, lines: u32) -> (r: Result<String, Error>)
        ensures
            final(self)@ == begin(old(self)@, Op::Top(msgnum, lines)),
            answers(r, begin_result(old(self)@, Op::Top(msgnum, lines))),
            old(self)@.wf() ==> final(self)@.wf(),
            final(self).config() == old(self).config(),
            final(self).mode() == old(self).mode(),
    {
        proof {
            reveal_strlit(" ");
        }
        let mut param = decimal_string(msgnum);
        param.append(" ");
        param.append(decimal_string(lines).as_str());
        assert(param@ =~= text::decimal(msgnum as nat) + seq![' '] + text::decimal(lines as nat));
        self.start(Command::Top, Some(param.as_str()))
    }

    /// Asks for the unique-id of one message, or of every message, and
    /// returns the request to write.
    pub fn uidl(&mut self, msgnum: Option<u32>) -> (r: Result<String, Error>)
        ensures
            final(self)@ == begin(old(self)@, Op::Uidl(msgnum)),
            answers(r, begin_result(old(self)@, Op::Uidl(msgnum))),
            old(self)@.wf() ==> final(self)@.wf(),
            final(self).config() == old(self).config(),
            final(self).mode() == old(self).mode(),
    {
        match msgnum {
            Some(n) => {
                let param = decimal_string(n);
                self.start(Command::Uidl, Some(param.as_str()))
            },
            None => self.start(Command::Uidl, None),
        }
    }

    /// Takes the next line that the server sent, with its line feed, and says
    /// what to do next.
    ///
    /// The session and the step are those that [`accept`] gives.
    #[verifier::rlimit(40)]
    pub fn read_response(&mut self, raw: Vec<u8>) -> (step: Step)
        ensures
            final(self)@ == accept(old(self)@, raw@).0,
            step@ == accept(old(self)@, raw@).1,
            step matches Step::Done(Reply::Uidl(uidl)) ==> uidl.wf(),
            old(self)@.wf() ==> final(self)@.wf(),
            old(self)@.wf() && session::quit_is_awaited(old(self)@) ==> final(self)@.state
                == POP3State::End,
            final(self).config() == old(self).config(),
            final(self).mode() == old(self).mode(),
    {
        proof {
            if self@.wf() {
                session::lemma_wf_is_kept(self@, session::Event::Line(raw@));
                if session::quit_is_awaited(self@) {
                    session::lemma_quit_ends_the_session(self@, raw@);
                }
            }
        }
        let multiline: bool = match self.awaited {
            Awaited::Nothing => {
                return Step::Failed(Error::Precondition);
            },
            Awaited::Greeting => false,
            Awaited::Reply { multiline, .. } => multiline,
        };
        let line: String = match text_of(raw) {
            Some(line) => line,
            None => {
                self.give_up();
                return Step::Failed(Error::Utf8);
            },
        };
        if self.lines.len() == 0 {
            let chars = chars_of(line.as_str());
            match classify(&chars) {
                Verdict::Neither => {
                    self.give_up();
                    Step::Failed(Error::Unparseable)
                },
                Verdict::Negative { from, to } => {
                    let detail = text_between(line.as_str(), from, to);
                    self.refused(detail)
                },
                Verdict::Positive { .. } => {
                    if multiline {
                        self.lines.push(line);
                        assert(self@.lines =~= seq![line@]);
                        Step::Read
                    } else {
                        let mut lines: Vec<String> = Vec::new();
                        lines.push(line);
                        assert(texts(lines@) =~= seq![line@]);
                        self.completed(lines)
                    }
                },
            }
        } else if terminates(&line) {
            let ghost before = self@;
            let mut lines: Vec<String> = Vec::new();
            std::mem::swap(&mut lines, &mut self.lines);
            assert(self@.lines =~= Seq::<Seq<char>>::empty());
            assert(self@ == Session { lines: Seq::empty(), ..before });
            self.completed(lines)
        } else {
            let ghost before = self@.lines;
            self.lines.push(line);
            assert(self@.lines =~= before.push(line@));
            Step::Read
        }
    }

    /// Tells the connection that its transport has failed.
    ///
    /// The reply that was awaited, if there was one, is given up. Where it
    /// was the reply to `QUIT`, the session has ended.
    pub fn abandon(&mut self)
        ensures
            final(self)@ == session::abandoned(old(self)@),
            old(self)@.wf() ==> final(self)@.wf(),
            final(self).config() == old(self).config(),
            final(self).mode() == old(self).mode(),
    {
        proof {
            if self@.wf() {
                session::lemma_wf_is_kept(self@, session::Event::Broken);
            }
        }
        if self.is_waiting() {
            self.give_up();
        }
    }

    /// Whether a command may be sent in a state.
    fn permits(command: Command, state: POP3State) -> (r: bool)
        ensures
            r == allowed(command, state),
    {
        match command {
            Command::User | Command::Pass | Command::Apop => state == POP3State::Authorization,
            Command::Quit => state == POP3State::Authorization || state
                == POP3State::Transaction,
            _ => state == POP3State::Transaction,
        }
    }

    /// Starts an exchange, if the session allows it: no command is
    /// outstanding and the state allows `command`.
    fn start(&mut self, command: Command, param: Option<&str>) -> (r: Result<String, Error>)
        ensures
            if old(self)@.awaited is Nothing && allowed(command, old(self)@.state) {
                &&& final(self)@ == waiting(old(self)@, command, param is Some)
                &&& r matches Ok(text) && text@ == request_line(command, param_view(param))
            } else {
                &&& final(self)@ == old(self)@
                &&& r matches Err(Error::Precondition)
            },
            old(self)@.wf() ==> final(self)@.wf(),
            final(self).config() == old(self).config(),
            final(self).mode() == old(self).mode(),
    {
        if self.is_waiting() || !Self::permits(command, self.state) {
            return Err(Error::Precondition);
        }
        Ok(self.send_command(command, param))
    }

    /// Builds the request for a command and notes that its reply is
    /// awaited, with or without a body.
    fn send_command(&mut self, command: Command, param: Option<&str>) -> (r: String)
        ensures
            final(self)@ == waiting(old(self)@, command, param is Some),
            r@ == request_line(command, param_view(param)),
            final(self).config() == old(self).config(),
            final(self).mode() == old(self).mode(),
    {
        let multiline: bool = command.multiline(param.is_some());
        self.awaited = Awaited::Reply { command, multiline };
        self.lines = Vec::new();
        assert(self@.lines =~= Seq::<Seq<char>>::empty());
        request(command, param)
    }

    /// Takes the session token from the greeting.
    fn read_greeting(&mut self, greeting: &str)
        ensures
            final(self)@ == (Session { timestamp: framing::token_of(greeting@), ..old(self)@ }),
            final(self).config() == old(self).config(),
            final(self).mode() == old(self).mode(),
    {
        self.timestamp = session_token(greeting);
    }

    /// Gives up the reply that is awaited. The session ends if it was the
    /// reply to `QUIT`.
    fn give_up(&mut self)
        ensures
            final(self)@ == session::failed(old(self)@),
            final(self).config() == old(self).config(),
            final(self).mode() == old(self).mode(),
    {
        match self.awaited {
            Awaited::Reply { command: Command::Quit, .. } => {
                self.state = POP3State::End;
            },
            _ => {},
        }
        self.lines = Vec::new();
        self.awaited = Awaited::Nothing;
        assert(self@.lines =~= Seq::<Seq<char>>::empty());
    }

    /// Acts on a negative reply.
    fn refused(&mut self, detail: String) -> (step: Step)
        requires
            old(self)@.lines.len() == 0,
        ensures
            final(self)@ == refuse(old(self)@, detail@).0,
            step@ == refuse(old(self)@, detail@).1,
            !(step is Done),
            final(self).config() == old(self).config(),
            final(self).mode() == old(self).mode(),
    {
        proof {
            reveal_strlit(" ");
        }
        match self.awaited {
            Awaited::Reply { command: Command::User, .. } => {
                let digest = get_apop_digest(
                    self.timestamp.as_str(),
                    self.account.password.as_str(),
                );
                let ghost before = self@;
                let mut param = self.account.username.clone();
                param.append(" ");
                param.append(digest.as_str());
                assert(param@ =~= session::apop_param(before));
                self.awaited = Awaited::Reply { command: Command::Apop, multiline: false };
                assert(self@.lines =~= Seq::<Seq<char>>::empty());
                Step::Send(request(Command::Apop, Some(param.as_str())))
            },
            _ => {
                self.give_up();
                Step::Failed(Error::Server(detail))
            },
        }
    }

    /// Acts on a reply that is complete and positive.
    fn completed(&mut self, lines: Vec<String>) -> (step: Step)
        requires
            !(old(self)@.awaited is Nothing),
            old(self)@.lines.len() == 0,
            lines@.len() > 0,
        ensures
            final(self)@ == complete(old(self)@, texts(lines@)).0,
            step@ == complete(old(self)@, texts(lines@)).1,
            step matches Step::Done(Reply::Uidl(uidl)) ==> uidl.wf(),
            final(self).config() == old(self).config(),
            final(self).mode() == old(self).mode(),
    {
        assert(self@.lines =~= Seq::<Seq<char>>::empty());
        assert(texts(lines@)[0] == lines@[0]@);
        match self.awaited {
            Awaited::Nothing => Step::Failed(Error::Precondition),
            Awaited::Greeting => {
                self.awaited = Awaited::Nothing;
                self.read_greeting(lines[0].as_str());
                self.state = POP3State::Authorization;
                Step::Done(Reply::Accepted)
            },
            Awaited::Reply { command, multiline } => match command {
                Command::User => {
                    let password = self.account.password.clone();
                    self.awaited = Awaited::Reply { command: Command::Pass, multiline: false };
                    Step::Send(request(Command::Pass, Some(password.as_str())))
                },
                Command::Pass | Command::Apop => {
                    self.awaited = Awaited::Nothing;
                    self.state = POP3State::Transaction;
                    Step::Done(Reply::Accepted)
                },
                Command::Quit => {
                    self.awaited = Awaited::Nothing;
                    self.state = POP3State::End;
                    Step::Done(Reply::Accepted)
                },
                _ => {
                    self.awaited = Awaited::Nothing;
                    decode_reply(command, multiline, &lines)
                },
            },
        }
    }
}

/// The view of an optional parameter.
pub open spec fn param_view(param: Option<&str>) -> Option<Seq<char>> {
    match param {
        Some(p) => Some(p@),
        None => None,
    }
}

/// `r` is the result that `expected` describes.
pub open spec fn answers(r: Result<String, Error>, expected: Result<Seq<char>, ErrorView>) -> bool {
    match expected {
        Ok(text) => r matches Ok(t) && t@ == text,
        Err(e) => r matches Err(x) && x@ == e,
    }
}

/// Decodes a complete, positive reply to a command that the session only
/// passes on.
pub(crate) fn decode_reply(command: Command, multiline: bool, lines: &Vec<String>) -> (step: Step)
    requires
        lines@.len() > 0,
    ensures
        step@ == session::decode(command, multiline, texts(lines@)),
        step matches Step::Done(Reply::Uidl(uidl)) ==> uidl.wf(),
{
    reveal(session::decode);
    assert(texts(lines@)[0] == lines@[0]@);
    assert(texts(lines@).len() == lines@.len());
    match command {
        Command::Stat => match POP3Stat::parse(lines[0].as_str()) {
            Ok(stat) => Step::Done(Reply::Stat(stat)),
            Err(_) => Step::Failed(Error::Malformed),
        },
        Command::List => {
            let listing = if multiline {
                POP3List::parse(lines.as_slice())
            } else {
                POP3List::parse_one(lines[0].as_str())
            };
            match listing {
                Ok(list) => Step::Done(Reply::List(list)),
                Err(_) => Step::Failed(Error::Malformed),
            }
        },
        Command::Uidl => {
            let listing = if multiline {
                POP3Uidl::parse(lines.as_slice())
            } else {
                POP3Uidl::parse_one(lines[0].as_str())
            };
            match listing {
                Ok(uidl) => Step::Done(Reply::Uidl(uidl)),
                Err(e) => Step::Failed(e),
            }
        },
        Command::Retr | Command::Top => Step::Done(Reply::Retr(POP3Retr::parse(lines.as_slice()))),
        _ => Step::Done(Reply::Accepted),
    }
}

} // verus!
