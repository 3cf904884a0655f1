//! The per-connection state machine: greeting, method selection, optional
//! username/password authentication, request, optional sniffing, connect and
//! relay. The caller performs each action on the sockets and reports what
//! happened as the next event.

use vstd::prelude::*;
use crate::codec::{
    encode_pair, encode_reply, error_reply, parse_auth, parse_greeting, parse_request,
    reply_frame, spec_error_reply, spec_parse_auth, spec_parse_greeting, spec_parse_request,
    ProtocolError, ReplyCode, AUTH_FAILURE, AUTH_SUCCESS, AUTH_VERSION, METHOD_NONE_ACCEPTABLE,
    METHOD_NO_AUTH, METHOD_USER_PASS, SOCKS_VERSION,
};
use crate::credentials::Credentials;
use crate::sniff::{contains_signature, redirect_target, sniff_target};
use crate::target::{host_text, Target};

verus! {

/// Where a session stands. The phases are passed through in this order, and
/// `Failed` and `Closed` are terminal.
#[derive(PartialEq, Eq, Structural, Clone, Copy, Debug)]
pub enum Phase {
    AwaitGreeting,
    AwaitAuth,
    AwaitRequest,
    AwaitSniff,
    AwaitConnect,
    Relaying,
    Failed,
    Closed,
}

/// Why a session ended before relaying.
#[derive(PartialEq, Eq, Structural, Clone, Copy, Debug)]
pub enum SessionError {
    /// A malformed or unsupported frame.
    Protocol(ProtocolError),
    /// No offered method is acceptable (this includes offering only "no
    /// authentication" while users are configured).
    NoAcceptableMethod,
    /// The username is unknown or the password differs.
    BadCredentials,
    /// The destination could not be reached.
    ConnectFailed,
}

/// What the caller reports.
pub enum Event {
    /// A frame read from the client.
    Received(Vec<u8>),
    /// The client's first bytes after the request, looked at without being
    /// consumed; empty when none came within the wait.
    Peeked(Vec<u8>),
    /// The outbound connection is open.
    Connected,
    /// The outbound connection could not be opened.
    ConnectFailed,
    /// The relay is over.
    RelayEnded,
}

pub enum EventView {
    Received(Seq<u8>),
    Peeked(Seq<u8>),
    Connected,
    ConnectFailed,
    RelayEnded,
}

impl View for Event {
    type V = EventView;

    open spec fn view(&self) -> EventView {
        match self {
            Event::Received(b) => EventView::Received(b@),
            Event::Peeked(b) => EventView::Peeked(b@),
            Event::Connected => EventView::Connected,
            Event::ConnectFailed => EventView::ConnectFailed,
            Event::RelayEnded => EventView::RelayEnded,
        }
    }
}

/// What the caller does next.
#[derive(Debug)]
pub enum Action {
    /// Write the bytes to the client, then read its next frame.
    Send(Vec<u8>),
    /// Wait a bounded time for the client's next bytes and peek at them.
    Sniff,
    /// Open an outbound connection to the target.
    Connect(Target),
    /// Write the success reply, then relay in both directions.
    ReplyAndRelay(Vec<u8>),
    /// Write the bytes to the client, then close the session with the error.
    Reject(Vec<u8>, SessionError),
    /// Close the session: it ended normally.
    Finish,
    /// The event was not expected in this phase: nothing to do.
    Ignore,
}

pub enum ActionView {
    Send(Seq<u8>),
    Sniff,
    Connect((Seq<u8>, u16)),
    ReplyAndRelay(Seq<u8>),
    Reject(Seq<u8>, SessionError),
    Finish,
    Ignore,
}

impl View for Action {
    type V = ActionView;

    open spec fn view(&self) -> ActionView {
        match self {
            Action::Send(b) => ActionView::Send(b@),
            Action::Sniff => ActionView::Sniff,
            Action::Connect(t) => ActionView::Connect(t@),
            Action::ReplyAndRelay(b) => ActionView::ReplyAndRelay(b@),
            Action::Reject(b, e) => ActionView::Reject(b@, *e),
            Action::Finish => ActionView::Finish,
            Action::Ignore => ActionView::Ignore,
        }
    }
}

/// One client connection, from greeting to teardown.
pub struct Session {
    phase: Phase,
    users: Credentials,
    sniffing: bool,
    pending: Option<Target>,
    user: Option<Vec<u8>>,
}

pub struct SessionView {
    pub phase: Phase,
    pub users: Map<Seq<u8>, Seq<u8>>,
    pub sniffing: bool,
    pub pending: Option<(Seq<u8>, u16)>,
    /// The username that authenticated, if any did.
    pub user: Option<Seq<u8>>,
}

impl View for Session {
    type V = SessionView;

    closed spec fn view(&self) -> SessionView {
        SessionView {
            phase: self.phase,
            users: self.users@,
            sniffing: self.sniffing,
            pending: match self.pending {
                Some(t) => Some(t@),
                None => None,
            },
            user: match self.user {
                Some(u) => Some(u@),
                None => None,
            },
        }
    }
}

/// The two-byte answer `first second`.
pub open spec fn pair(first: u8, second: u8) -> Seq<u8> {
    seq![first, second]
}

/// The session `s` moved to phase `p`, all else kept.
pub open spec fn moved(s: SessionView, p: Phase) -> SessionView {
    SessionView { phase: p, ..s }
}

/// Method selection for a valid greeting that offers `methods`.
pub open spec fn after_greeting(s: SessionView, methods: Seq<u8>) -> (SessionView, ActionView) {
    if methods.contains(METHOD_USER_PASS) {
        (moved(s, Phase::AwaitAuth), ActionView::Send(pair(SOCKS_VERSION, METHOD_USER_PASS)))
    } else if methods.contains(METHOD_NO_AUTH) && s.users == Map::<Seq<u8>, Seq<u8>>::empty() {
        (moved(s, Phase::AwaitRequest), ActionView::Send(pair(SOCKS_VERSION, METHOD_NO_AUTH)))
    } else {
        (
            moved(s, Phase::Failed),
            ActionView::Reject(
                pair(SOCKS_VERSION, METHOD_NONE_ACCEPTABLE),
                SessionError::NoAcceptableMethod,
            ),
        )
    }
}

/// The verdict on a well-formed sub-negotiation.
pub open spec fn after_auth(s: SessionView, user: Seq<u8>, pass: Seq<u8>) -> (
    SessionView,
    ActionView,
) {
    if s.users.contains_key(user) && s.users[user] == pass {
        (
            SessionView { phase: Phase::AwaitRequest, user: Some(user), ..s },
            ActionView::Send(pair(AUTH_VERSION, AUTH_SUCCESS)),
        )
    } else {
        (
            moved(s, Phase::Failed),
            ActionView::Reject(pair(AUTH_VERSION, AUTH_FAILURE), SessionError::BadCredentials),
        )
    }
}

/// What a well-formed request for `t` leads to.
pub open spec fn after_request(s: SessionView, t: (Seq<u8>, u16)) -> (SessionView, ActionView) {
    if s.sniffing {
        (SessionView { phase: Phase::AwaitSniff, pending: Some(t), ..s }, ActionView::Sniff)
    } else {
        (moved(s, Phase::AwaitConnect), ActionView::Connect(t))
    }
}

/// The transition of a session on an event, and the action that it asks for.
pub open spec fn next(s: SessionView, e: EventView) -> (SessionView, ActionView) {
    match (s.phase, e) {
        (Phase::AwaitGreeting, EventView::Received(b)) => match spec_parse_greeting(b) {
            Ok(m) => after_greeting(s, m),
            Err(err) => (
                moved(s, Phase::Failed),
                ActionView::Reject(
                    pair(SOCKS_VERSION, METHOD_NONE_ACCEPTABLE),
                    SessionError::Protocol(err),
                ),
            ),
        },
        (Phase::AwaitAuth, EventView::Received(b)) => match spec_parse_auth(b) {
            Ok((user, pass)) => after_auth(s, user, pass),
            Err(err) => (
                moved(s, Phase::Failed),
                ActionView::Reject(pair(AUTH_VERSION, AUTH_FAILURE), SessionError::Protocol(err)),
            ),
        },
        (Phase::AwaitRequest, EventView::Received(b)) => match spec_parse_request(b) {
            Ok((kind, addr, port)) => after_request(s, (host_text(kind, addr), port)),
            Err(err) => (
                moved(s, Phase::Failed),
                ActionView::Reject(
                    reply_frame(spec_error_reply(err).spec_byte()),
                    SessionError::Protocol(err),
                ),
            ),
        },
        (Phase::AwaitSniff, EventView::Peeked(b)) => match s.pending {
            Some(t) => (
                SessionView { phase: Phase::AwaitConnect, pending: None, ..s },
                ActionView::Connect(
                    if contains_signature(b) {
                        redirect_target()
                    } else {
                        t
                    },
                ),
            ),
            None => (s, ActionView::Ignore),
        },
        (Phase::AwaitConnect, EventView::Connected) => (
            moved(s, Phase::Relaying),
            ActionView::ReplyAndRelay(reply_frame(ReplyCode::Succeeded.spec_byte())),
        ),
        (Phase::AwaitConnect, EventView::ConnectFailed) => (
            moved(s, Phase::Failed),
            ActionView::Reject(
                reply_frame(ReplyCode::GeneralFailure.spec_byte()),
                SessionError::ConnectFailed,
            ),
        ),
        (Phase::Relaying, EventView::RelayEnded) => (moved(s, Phase::Closed), ActionView::Finish),
        _ => (s, ActionView::Ignore),
    }
}

fn contains_byte(v: &Vec<u8>, x: u8) -> (r: bool)
    ensures
        r == v@.contains(x),
{
    let mut i: usize = 0;
    while i < v.len()
        invariant
            i <= v@.len(),
            forall|j: int| 0 <= j < i ==> v@[j] != x,
        decreases v.len() - i,
    {
        if v[i] == x {
            assert(v@[i as int] == x);
            return true;
        }
        i = i + 1;
    }
    false
}

impl Session {
    /// A session that has read nothing yet, checking against `users` and
    /// sniffing the client's first bytes when `sniffing` is set.
    pub fn new(users: Credentials, sniffing: bool) -> (r: Session)
        ensures
            r@ == (SessionView {
                phase: Phase::AwaitGreeting,
                users: users@,
                sniffing,
                pending: None,
                user: None,
            }),
    {
        Session { phase: Phase::AwaitGreeting, users, sniffing, pending: None, user: None }
    }

    /// The username that authenticated, if any did.
    pub fn user(&self) -> (r: Option<&Vec<u8>>)
        ensures
            match r {
                Some(u) => self@.user == Some(u@),
                None => self@.user is None,
            },
    {
        self.user.as_ref()
    }

    pub fn phase(&self) -> (r: Phase)
        ensures
            r == self@.phase,
    {
        self.phase
    }

    /// Whether the session has ended, failed or closed.
    pub fn is_terminal(&self) -> (r: bool)
        ensures
            r == (self@.phase == Phase::Failed || self@.phase == Phase::Closed),
    {
        self.phase == Phase::Failed || self.phase == Phase::Closed
    }

    fn fail(&mut self, reply: Vec<u8>, e: SessionError) -> (a: Action)
        ensures
            final(self)@ == moved(old(self)@, Phase::Failed),
            a@ == ActionView::Reject(reply@, e),
    {
        self.phase = Phase::Failed;
        Action::Reject(reply, e)
    }

    fn on_greeting(&mut self, b: &Vec<u8>) -> (a: Action)
        requires
            old(self)@.phase == Phase::AwaitGreeting,
        ensures
            (final(self)@, a@) == next(old(self)@, EventView::Received(b@)),
    {
        match parse_greeting(b.as_slice()) {
            Err(err) => self.fail(
                encode_pair(SOCKS_VERSION, METHOD_NONE_ACCEPTABLE),
                SessionError::Protocol(err),
            ),
            Ok(methods) => {
                if contains_byte(&methods, METHOD_USER_PASS) {
                    self.phase = Phase::AwaitAuth;
                    Action::Send(encode_pair(SOCKS_VERSION, METHOD_USER_PASS))
                } else if contains_byte(&methods, METHOD_NO_AUTH) && self.users.is_empty() {
                    self.phase = Phase::AwaitRequest;
                    Action::Send(encode_pair(SOCKS_VERSION, METHOD_NO_AUTH))
                } else {
                    self.fail(
                        encode_pair(SOCKS_VERSION, METHOD_NONE_ACCEPTABLE),
                        SessionError::NoAcceptableMethod,
                    )
                }
            },
        }
    }

    fn on_auth(&mut self, b: &Vec<u8>) -> (a: Action)
        requires
            old(self)@.phase == Phase::AwaitAuth,
        ensures
            (final(self)@, a@) == next(old(self)@, EventView::Received(b@)),
    {
        match parse_auth(b.as_slice()) {
            Err(err) => self.fail(encode_pair(AUTH_VERSION, AUTH_FAILURE), SessionError::Protocol(err)),
            Ok(req) => {
                if self.users.check(req.username.as_slice(), req.password.as_slice()) {
                    self.phase = Phase::AwaitRequest;
                    self.user = Some(req.username);
                    Action::Send(encode_pair(AUTH_VERSION, AUTH_SUCCESS))
                } else {
                    self.fail(encode_pair(AUTH_VERSION, AUTH_FAILURE), SessionError::BadCredentials)
                }
            },
        }
    }

    fn on_request(&mut self, b: &Vec<u8>) -> (a: Action)
        requires
            old(self)@.phase == Phase::AwaitRequest,
        ensures
            (final(self)@, a@) == next(old(self)@, EventView::Received(b@)),
    {
        match parse_request(b.as_slice()) {
            Err(err) => self.fail(encode_reply(error_reply(err)), SessionError::Protocol(err)),
            Ok(dest) => {
                let t = dest.target();
                if self.sniffing {
                    self.phase = Phase::AwaitSniff;
                    self.pending = Some(t);
                    Action::Sniff
                } else {
                    self.phase = Phase::AwaitConnect;
                    Action::Connect(t)
                }
            },
        }
    }

    /// Moves the session on by one event and says what the caller does next.
    pub fn step(&mut self, e: Event) -> (a: Action)
        ensures
            (final(self)@, a@) == next(old(self)@, e@),
    {
        match e {
            Event::Received(b) => {
                if self.phase == Phase::AwaitGreeting {
                    self.on_greeting(&b)
                } else if self.phase == Phase::AwaitAuth {
                    self.on_auth(&b)
                } else if self.phase == Phase::AwaitRequest {
                    self.on_request(&b)
                } else {
                    Action::Ignore
                }
            },
            Event::Peeked(b) => {
                if self.phase == Phase::AwaitSniff {
                    match self.pending.take() {
                        Some(t) => {
                            self.phase = Phase::AwaitConnect;
                            Action::Connect(sniff_target(t, b.as_slice()))
                        },
                        None => Action::Ignore,
                    }
                } else {
                    Action::Ignore
                }
            },
            Event::Connected => {
                if self.phase == Phase::AwaitConnect {
                    self.phase = Phase::Relaying;
                    Action::ReplyAndRelay(encode_reply(ReplyCode::Succeeded))
                } else {
                    Action::Ignore
                }
            },
            Event::ConnectFailed => {
                if self.phase == Phase::AwaitConnect {
                    self.fail(encode_reply(ReplyCode::GeneralFailure), SessionError::ConnectFailed)
                } else {
                    Action::Ignore
                }
            },
            Event::RelayEnded => {
                if self.phase == Phase::Relaying {
                    self.phase = Phase::Closed;
                    Action::Finish
                } else {
                    Action::Ignore
                }
            },
        }
    }
}

/// A failed or closed session stays as it is, whatever happens next: it reads
/// nothing more, replies nothing more and connects nowhere.
pub proof fn terminal_phases_absorb(s: SessionView, e: EventView)
    requires
        s.phase == Phase::Failed || s.phase == Phase::Closed,
    ensures
        next(s, e) == (s, ActionView::Ignore),
{
}

/// A valid greeting that offers "no authentication" and not
/// username/password, sent to a server without users, selects "no
/// authentication" and moves on to the request.
pub proof fn no_auth_without_users(s: SessionView, b: Seq<u8>)
    requires
        s.phase == Phase::AwaitGreeting,
        s.users == Map::<Seq<u8>, Seq<u8>>::empty(),
        spec_parse_greeting(b) is Ok,
        spec_parse_greeting(b)->Ok_0.contains(METHOD_NO_AUTH),
        !spec_parse_greeting(b)->Ok_0.contains(METHOD_USER_PASS),
    ensures
        next(s, EventView::Received(b)) == (
            moved(s, Phase::AwaitRequest),
            ActionView::Send(seq![0x05u8, 0x00]),
        ),
{
}

/// The same greeting, sent to a server with users, is answered `05 FF` and
/// ends the session before any request is read.
pub proof fn no_auth_refused_with_users(s: SessionView, b: Seq<u8>)
    requires
        s.phase == Phase::AwaitGreeting,
        s.users != Map::<Seq<u8>, Seq<u8>>::empty(),
        spec_parse_greeting(b) is Ok,
        spec_parse_greeting(b)->Ok_0.contains(METHOD_NO_AUTH),
        !spec_parse_greeting(b)->Ok_0.contains(METHOD_USER_PASS),
    ensures
        next(s, EventView::Received(b)) == (
            moved(s, Phase::Failed),
            ActionView::Reject(seq![0x05u8, 0xFF], SessionError::NoAcceptableMethod),
        ),
        forall|e: EventView|
            #[trigger] next(moved(s, Phase::Failed), e) == (
                moved(s, Phase::Failed),
                ActionView::Ignore,
            ),
{
}

/// A well-formed sub-negotiation whose username and password are not a
/// stored pair is answered `01 FF` and ends the session, however many other
/// users exist.
pub proof fn wrong_credentials_refused(s: SessionView, b: Seq<u8>)
    requires
        s.phase == Phase::AwaitAuth,
        spec_parse_auth(b) is Ok,
        !(s.users.contains_key(spec_parse_auth(b)->Ok_0.0) && s.users[spec_parse_auth(b)->Ok_0.0]
            == spec_parse_auth(b)->Ok_0.1),
    ensures
        next(s, EventView::Received(b)) == (
            moved(s, Phase::Failed),
            ActionView::Reject(seq![0x01u8, 0xFF], SessionError::BadCredentials),
        ),
        forall|e: EventView|
            #[trigger] next(moved(s, Phase::Failed), e) == (
                moved(s, Phase::Failed),
                ActionView::Ignore,
            ),
{
}

/// A well-formed sub-negotiation with a stored username and exactly its
/// password is answered `01 00` and moves on to the request, with that
/// username recorded.
pub proof fn right_credentials_accepted(s: SessionView, b: Seq<u8>)
    requires
        s.phase == Phase::AwaitAuth,
        spec_parse_auth(b) is Ok,
        s.users.contains_key(spec_parse_auth(b)->Ok_0.0),
        s.users[spec_parse_auth(b)->Ok_0.0] == spec_parse_auth(b)->Ok_0.1,
    ensures
        next(s, EventView::Received(b)) == (
            SessionView {
                phase: Phase::AwaitRequest,
                user: Some(spec_parse_auth(b)->Ok_0.0),
                ..s
            },
            ActionView::Send(seq![0x01u8, 0x00]),
        ),
{
}

/// A request whose command is not CONNECT is answered with reply code `07`
/// and ends the session, which then never connects anywhere.
pub proof fn unsupported_command_refused(s: SessionView, b: Seq<u8>)
    requires
        s.phase == Phase::AwaitRequest,
        b.len() >= 4,
        b[1] != 0x01,
    ensures
        next(s, EventView::Received(b)) == (
            moved(s, Phase::Failed),
            ActionView::Reject(
                seq![0x05u8, 0x07, 0x00, 0x01, 0, 0, 0, 0, 0, 0],
                SessionError::Protocol(ProtocolError::UnsupportedCommand),
            ),
        ),
        forall|e: EventView|
            #[trigger] next(moved(s, Phase::Failed), e) == (
                moved(s, Phase::Failed),
                ActionView::Ignore,
            ),
{
    assert(reply_frame(0x07) =~= seq![0x05u8, 0x07, 0x00, 0x01, 0, 0, 0, 0, 0, 0]);
}

/// When the client's first bytes after the request hold `SSH`, the session
/// connects to `127.0.0.1` port 22, whatever destination was requested.
pub proof fn ssh_sessions_redirected(s: SessionView, b: Seq<u8>)
    requires
        s.phase == Phase::AwaitSniff,
        s.pending is Some,
        contains_signature(b),
    ensures
        next(s, EventView::Peeked(b)).1 == ActionView::Connect(
            (seq![49u8, 50, 55, 46, 48, 46, 48, 46, 49], 22u16),
        ),
{
}

} // verus!
