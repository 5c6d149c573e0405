//! The per-connection dialogue as a state machine: the driver hands in
//! what happened (a read, a lookup answer, a count, a store result) and
//! carries out the action that comes back.

use vstd::prelude::*;
use crate::decode::{
    decode_message, mail_fields, mail_sender, summary_preview, summary_sender, summary_subject,
    PREVIEW_CHARS,
};
use crate::limiter::{allows, check_rate_limit, MAX_RECENT_MESSAGES};
use crate::protocol::{
    command_of, copy_range, ends_with_terminator, extract_local_part, has_suffix, local_part,
    parse_command, terminator, truncated, Command, Reply, READ_BUFFER_SIZE,
};
use crate::recipient::{
    lookup, lossy_text, namespaces_disjoint, opt_text, resolve, resolved, text_of_bytes,
};

verus! {

/// Where a session stands.
#[derive(Clone, Copy, Debug, PartialEq, Eq, Structural)]
pub enum Phase {
    /// Connected, greeting sent.
    Init,
    /// A `HELO` or `EHLO` was answered.
    Greeted,
    /// A `MAIL FROM` was answered.
    MailSet,
    /// Waiting for the store's lookup of a recipient token.
    Resolving,
    /// Waiting for the recipient's recent-message count.
    Gating,
    /// A recipient was accepted.
    RcptSet,
    /// Collecting the body of a message.
    DataMode,
    /// Waiting for the store to take a message.
    Storing,
    /// The connection is over.
    Closed,
}

/// Whether the session waits for the next command line.
pub open spec fn is_command_phase(p: Phase) -> bool {
    p == Phase::Init || p == Phase::Greeted || p == Phase::MailSet || p == Phase::RcptSet
}

/// A message to append to the store.
#[derive(Clone, Debug)]
pub struct MessageRecord {
    pub account_id: String,
    pub sender: String,
    pub subject: String,
    pub body_preview: String,
}

/// A message record as text.
pub struct RecordView {
    pub account_id: Seq<char>,
    pub sender: Seq<char>,
    pub subject: Seq<char>,
    pub body_preview: Seq<char>,
}

impl View for MessageRecord {
    type V = RecordView;

    open spec fn view(&self) -> RecordView {
        RecordView {
            account_id: self.account_id@,
            sender: self.sender@,
            subject: self.subject@,
            body_preview: self.body_preview@,
        }
    }
}

/// What happened on the connection or in the store.
#[derive(Clone, Debug)]
pub enum Event {
    /// A read returned these bytes (at least one).
    Received(Vec<u8>),
    /// The peer closed the connection, or a read failed.
    PeerClosed,
    /// The answer to `Action::Resolve`: the matched account id, if any
    /// (a failed lookup counts as no match).
    Resolved(Option<String>),
    /// The answer to `Action::CountRecent`: the count, or `None` where the
    /// query failed.
    RecentCount(Option<i64>),
    /// The answer to `Action::Store`: whether the insert succeeded.
    Stored(bool),
}

/// What the driver does next.
#[derive(Clone, Debug)]
pub enum Action {
    /// Write the reply; close the connection afterwards if the reply
    /// closes, else read again.
    Send(Reply),
    /// Send nothing and read again.
    Read,
    /// Look the token up as an account id, then as an alias, and answer
    /// with `Event::Resolved`.
    Resolve(String),
    /// Count the account's messages of the trailing ten minutes and answer
    /// with `Event::RecentCount`.
    CountRecent(String),
    /// Append the message and answer with `Event::Stored`.
    Store(MessageRecord),
    /// Close the connection without writing.
    Close,
}

/// An action with its strings as text.
pub enum ActionView {
    Send(Reply),
    Read,
    Resolve(Seq<char>),
    CountRecent(Seq<char>),
    Store(RecordView),
    Close,
}

impl View for Action {
    type V = ActionView;

    open spec fn view(&self) -> ActionView {
        match self {
            Action::Send(r) => ActionView::Send(*r),
            Action::Read => ActionView::Read,
            Action::Resolve(t) => ActionView::Resolve(t@),
            Action::CountRecent(a) => ActionView::CountRecent(a@),
            Action::Store(m) => ActionView::Store(m@),
            Action::Close => ActionView::Close,
        }
    }
}

/// One connection's dialogue state.
pub struct Session {
    pub phase: Phase,
    /// The account id the next message is stored under.
    pub account: String,
    /// The body collected so far.
    pub data: Vec<u8>,
}

/// A session's state with its strings as text.
pub struct SessionView {
    pub phase: Phase,
    pub account: Seq<char>,
    pub data: Seq<u8>,
}

impl View for Session {
    type V = SessionView;

    open spec fn view(&self) -> SessionView {
        SessionView { phase: self.phase, account: self.account@, data: self.data@ }
    }
}

/// The state of a new connection.
pub open spec fn initial() -> SessionView {
    SessionView { phase: Phase::Init, account: Seq::empty(), data: Seq::empty() }
}

/// `s` moved to phase `p`.
pub open spec fn with_phase(s: SessionView, p: Phase) -> SessionView {
    SessionView { phase: p, ..s }
}

/// The body of a message: what was collected, without the terminator
/// where it ends with one.
pub open spec fn payload_of(data: Seq<u8>) -> Seq<u8> {
    if has_suffix(data, terminator()) {
        data.subrange(0, data.len() - 5)
    } else {
        data
    }
}

/// The record stored for a body under an account.
pub open spec fn record_of(account: Seq<char>, payload: Seq<u8>) -> RecordView {
    RecordView {
        account_id: account,
        sender: summary_sender(mail_sender(payload)),
        subject: summary_subject(mail_fields(payload)),
        body_preview: summary_preview(mail_fields(payload)),
    }
}

/// The end of a body: the message goes to the store.
pub open spec fn finish(s: SessionView) -> (SessionView, ActionView) {
    (
        SessionView { phase: Phase::Storing, account: s.account, data: Seq::empty() },
        ActionView::Store(record_of(s.account, payload_of(s.data))),
    )
}

/// A command line received in a command phase.
pub open spec fn on_line(s: SessionView, line: Seq<u8>) -> (SessionView, ActionView) {
    match command_of(line) {
        Some(Command::Helo) | Some(Command::Ehlo) => (
            with_phase(s, Phase::Greeted),
            ActionView::Send(Reply::Accepted),
        ),
        Some(Command::MailFrom) => (with_phase(s, Phase::MailSet), ActionView::Send(Reply::Accepted)),
        Some(Command::RcptTo) => match local_part(line) {
            Some(t) => (
                SessionView { phase: Phase::Resolving, account: lossy_text(t), data: s.data },
                ActionView::Resolve(lossy_text(t)),
            ),
            None => (with_phase(s, Phase::Gating), ActionView::CountRecent(s.account)),
        },
        Some(Command::Data) => (
            SessionView { phase: Phase::DataMode, account: s.account, data: Seq::empty() },
            ActionView::Send(Reply::StartData),
        ),
        Some(Command::Quit) => (with_phase(s, Phase::Closed), ActionView::Send(Reply::Bye)),
        None => (s, ActionView::Read),
    }
}

/// The dialogue's transition: the next state and action for an event. An
/// event that the phase does not wait for ends the session.
pub open spec fn next(s: SessionView, e: Event) -> (SessionView, ActionView) {
    let closed = (with_phase(s, Phase::Closed), ActionView::Close);
    if s.phase == Phase::Closed {
        (s, ActionView::Close)
    } else if is_command_phase(s.phase) {
        match e {
            Event::Received(b) => on_line(s, truncated(b@)),
            _ => closed,
        }
    } else {
        match (s.phase, e) {
            (Phase::Resolving, Event::Resolved(found)) => {
                let account = resolved(s.account, opt_text(found));
                (
                    SessionView { phase: Phase::Gating, account, data: s.data },
                    ActionView::CountRecent(account),
                )
            },
            (Phase::Gating, Event::RecentCount(c)) => if allows(c) {
                (with_phase(s, Phase::RcptSet), ActionView::Send(Reply::Accepted))
            } else {
                (with_phase(s, Phase::Closed), ActionView::Send(Reply::RateLimited))
            },
            (Phase::DataMode, Event::Received(b)) => {
                let data = s.data + b@;
                if has_suffix(data, terminator()) {
                    finish(SessionView { phase: s.phase, account: s.account, data })
                } else {
                    (SessionView { phase: s.phase, account: s.account, data }, ActionView::Read)
                }
            },
            (Phase::DataMode, Event::PeerClosed) => finish(s),
            (Phase::Storing, Event::Stored(ok)) => (
                with_phase(s, Phase::RcptSet),
                ActionView::Send(if ok { Reply::Accepted } else { Reply::LocalError }),
            ),
            _ => closed,
        }
    }
}

impl Session {
    /// A new connection and its first action, the greeting.
    pub fn open() -> (r: (Session, Action))
        ensures
            r.0@ == initial(),
            r.1@ == ActionView::Send(Reply::Greeting),
    {
        (Session { phase: Phase::Init, account: String::new(), data: Vec::new() }, Action::Send(Reply::Greeting))
    }

    /// Ends the body: drops the terminator, decodes the message and asks
    /// the store to append it.
    fn finish_data(&mut self) -> (a: Action)
        ensures
            (final(self)@, a@) == finish(old(self)@),
    {
        let n = self.data.len();
        let complete = ends_with_terminator(self.data.as_slice());
        let payload = if complete {
            copy_range(self.data.as_slice(), 0, n - 5)
        } else {
            copy_range(self.data.as_slice(), 0, n)
        };
        proof {
            assert(!complete ==> payload@ =~= self.data@);
        }
        let summary = decode_message(payload.as_slice());
        let record = MessageRecord {
            account_id: self.account.clone(),
            sender: summary.sender,
            subject: summary.subject,
            body_preview: summary.body_preview,
        };
        self.phase = Phase::Storing;
        self.data = Vec::new();
        Action::Store(record)
    }

    /// Handles a command line.
    fn handle_line(&mut self, received: &[u8]) -> (a: Action)
        requires
            is_command_phase(old(self).phase),
        ensures
            (final(self)@, a@) == on_line(old(self)@, truncated(received@)),
    {
        let n = if received.len() <= READ_BUFFER_SIZE {
            received.len()
        } else {
            READ_BUFFER_SIZE
        };
        let line = copy_range(received, 0, n);
        assert(line@ =~= truncated(received@));
        match parse_command(line.as_slice()) {
            Some(Command::Helo) | Some(Command::Ehlo) => {
                self.phase = Phase::Greeted;
                Action::Send(Reply::Accepted)
            },
            Some(Command::MailFrom) => {
                self.phase = Phase::MailSet;
                Action::Send(Reply::Accepted)
            },
            Some(Command::RcptTo) => match extract_local_part(line.as_slice()) {
                Some(t) => {
                    let token = text_of_bytes(t.as_slice());
                    self.phase = Phase::Resolving;
                    self.account = token.clone();
                    Action::Resolve(token)
                },
                None => {
                    self.phase = Phase::Gating;
                    Action::CountRecent(self.account.clone())
                },
            },
            Some(Command::Data) => {
                self.phase = Phase::DataMode;
                self.data = Vec::new();
                Action::Send(Reply::StartData)
            },
            Some(Command::Quit) => {
                self.phase = Phase::Closed;
                Action::Send(Reply::Bye)
            },
            None => Action::Read,
        }
    }

    /// Advances the dialogue by one event.
    pub fn step(&mut self, e: Event) -> (a: Action)
        ensures
            (final(self)@, a@) == next(old(self)@, e),
    {
        if self.phase == Phase::Closed {
            return Action::Close;
        }
        match self.phase {
            Phase::Init | Phase::Greeted | Phase::MailSet | Phase::RcptSet => {
                return match e {
                    Event::Received(b) => self.handle_line(b.as_slice()),
                    _ => {
                        self.phase = Phase::Closed;
                        Action::Close
                    },
                };
            },
            _ => {},
        }
        match (self.phase, e) {
            (Phase::Resolving, Event::Resolved(found)) => {
                let account = resolve(&self.account, found);
                self.phase = Phase::Gating;
                self.account = account.clone();
                Action::CountRecent(account)
            },
            (Phase::Gating, Event::RecentCount(c)) => if check_rate_limit(c) {
                self.phase = Phase::RcptSet;
                Action::Send(Reply::Accepted)
            } else {
                self.phase = Phase::Closed;
                Action::Send(Reply::RateLimited)
            },
            (Phase::DataMode, Event::Received(b)) => {
                let mut i: usize = 0;
                let ghost d0 = self.data@;
                while i < b.len()
                    invariant
                        i <= b@.len(),
                        self.data@ == d0 + b@.subrange(0, i as int),
                        self.phase == Phase::DataMode,
                        self.account@ == old(self).account@,
                    decreases b@.len() - i,
                {
                    self.data.push(b[i]);
                    i = i + 1;
                    assert(self.data@ =~= d0 + b@.subrange(0, i as int));
                }
                assert(b@.subrange(0, b@.len() as int) =~= b@);
                if ends_with_terminator(self.data.as_slice()) {
                    self.finish_data()
                } else {
                    Action::Read
                }
            },
            (Phase::DataMode, Event::PeerClosed) => self.finish_data(),
            (Phase::Storing, Event::Stored(ok)) => {
                self.phase = Phase::RcptSet;
                Action::Send(if ok { Reply::Accepted } else { Reply::LocalError })
            },
            _ => {
                self.phase = Phase::Closed;
                Action::Close
            },
        }
    }
}

/// A recipient command followed by the lookup's answer and the recipient's
/// recent-message count.
pub open spec fn recipient_steps(s: SessionView, rcpt: Vec<u8>, found: Option<String>, k: i64) -> (
    SessionView,
    ActionView,
) {
    let s1 = next(s, Event::Received(rcpt)).0;
    let s2 = next(s1, Event::Resolved(found)).0;
    next(s2, Event::RecentCount(Some(k)))
}

/// A recipient command, a `DATA` command and one read that ends the body.
pub open spec fn delivery_steps(
    s: SessionView,
    rcpt: Vec<u8>,
    found: Option<String>,
    k: i64,
    data_line: Vec<u8>,
    body: Vec<u8>,
) -> (SessionView, ActionView) {
    let s3 = recipient_steps(s, rcpt, found, k).0;
    let s4 = next(s3, Event::Received(data_line)).0;
    next(s4, Event::Received(body))
}

/// The rate gate on a recipient command: the count is asked for the
/// resolved account; the command is refused with `450` and the connection
/// closes exactly when that account already has `MAX_RECENT_MESSAGES` or
/// more messages in the window, and is answered `250` otherwise.
pub proof fn lemma_rate_gate(s: SessionView, rcpt: Vec<u8>, t: Seq<u8>, found: Option<String>, k: i64)
    requires
        is_command_phase(s.phase),
        command_of(truncated(rcpt@)) == Some(Command::RcptTo),
        local_part(truncated(rcpt@)) == Some(t),
    ensures
        next(s, Event::Received(rcpt)).1 == ActionView::Resolve(lossy_text(t)),
        next(next(s, Event::Received(rcpt)).0, Event::Resolved(found)).1 == ActionView::CountRecent(
            resolved(lossy_text(t), opt_text(found)),
        ),
        k >= MAX_RECENT_MESSAGES <==> recipient_steps(s, rcpt, found, k).1 == ActionView::Send(
            Reply::RateLimited,
        ),
        k >= MAX_RECENT_MESSAGES ==> recipient_steps(s, rcpt, found, k).0.phase == Phase::Closed,
        k < MAX_RECENT_MESSAGES ==> recipient_steps(s, rcpt, found, k).1 == ActionView::Send(Reply::Accepted)
            && recipient_steps(s, rcpt, found, k).0.phase == Phase::RcptSet,
{
}

/// A message sent to an alias is stored under the alias's owner, never
/// under the alias text.
pub proof fn lemma_alias_delivery(
    accounts: Set<Seq<char>>,
    aliases: Map<Seq<char>, Seq<char>>,
    s: SessionView,
    rcpt: Vec<u8>,
    t: Seq<u8>,
    found: Option<String>,
    k: i64,
    data_line: Vec<u8>,
    body: Vec<u8>,
)
    requires
        namespaces_disjoint(accounts, aliases),
        is_command_phase(s.phase),
        command_of(truncated(rcpt@)) == Some(Command::RcptTo),
        local_part(truncated(rcpt@)) == Some(t),
        aliases.dom().contains(lossy_text(t)),
        opt_text(found) == lookup(accounts, aliases, lossy_text(t)),
        k < MAX_RECENT_MESSAGES,
        command_of(truncated(data_line@)) == Some(Command::Data),
        has_suffix(body@, terminator()),
    ensures
        delivery_steps(s, rcpt, found, k, data_line, body).1 == ActionView::Store(
            record_of(aliases[lossy_text(t)], payload_of(body@)),
        ),
        aliases[lossy_text(t)] != lossy_text(t),
{
    assert(Seq::<u8>::empty() + body@ =~= body@);
    assert(accounts.contains(aliases[lossy_text(t)]));
}

/// A message sent to a local part that is neither an account nor an alias
/// is stored under the local part's text as it is.
pub proof fn lemma_unknown_recipient_delivery(
    accounts: Set<Seq<char>>,
    aliases: Map<Seq<char>, Seq<char>>,
    s: SessionView,
    rcpt: Vec<u8>,
    t: Seq<u8>,
    found: Option<String>,
    k: i64,
    data_line: Vec<u8>,
    body: Vec<u8>,
)
    requires
        is_command_phase(s.phase),
        command_of(truncated(rcpt@)) == Some(Command::RcptTo),
        local_part(truncated(rcpt@)) == Some(t),
        !accounts.contains(lossy_text(t)),
        !aliases.dom().contains(lossy_text(t)),
        opt_text(found) == lookup(accounts, aliases, lossy_text(t)),
        k < MAX_RECENT_MESSAGES,
        command_of(truncated(data_line@)) == Some(Command::Data),
        has_suffix(body@, terminator()),
    ensures
        delivery_steps(s, rcpt, found, k, data_line, body).1 == ActionView::Store(
            record_of(lossy_text(t), payload_of(body@)),
        ),
{
    assert(Seq::<u8>::empty() + body@ =~= body@);
}

/// A body that ends with the terminator is taken in full but for the
/// terminator itself, and its preview never exceeds `PREVIEW_CHARS`
/// characters.
pub proof fn lemma_body_capture(s: SessionView, chunk: Vec<u8>)
    requires
        s.phase == Phase::DataMode,
        has_suffix(s.data + chunk@, terminator()),
    ensures
        ({
            let data = s.data + chunk@;
            &&& payload_of(data) + terminator() == data
            &&& next(s, Event::Received(chunk)).1 == ActionView::Store(
                record_of(s.account, payload_of(data)),
            )
            &&& next(s, Event::Received(chunk)).0.phase == Phase::Storing
        }),
{
    let data = s.data + chunk@;
    assert(payload_of(data) + terminator() =~= data);
}

/// Every message the dialogue stores has a preview of at most
/// `PREVIEW_CHARS` characters.
pub proof fn lemma_preview_bound(s: SessionView, e: Event)
    ensures
        next(s, e).1 matches ActionView::Store(r) ==> r.body_preview.len() <= PREVIEW_CHARS,
{
}

/// Nothing suppresses a repeated message: the same body submitted again,
/// on the same connection after a successful store or on another
/// connection holding the same account, is handed to the store again as
/// the same record.
pub proof fn lemma_no_deduplication(s: SessionView, other: SessionView, data_line: Vec<u8>, body: Vec<u8>)
    requires
        is_command_phase(s.phase),
        is_command_phase(other.phase),
        other.account == s.account,
        command_of(truncated(data_line@)) == Some(Command::Data),
        has_suffix(body@, terminator()),
    ensures
        ({
            let first = next(next(s, Event::Received(data_line)).0, Event::Received(body));
            let stored = next(first.0, Event::Stored(true)).0;
            let again = next(next(stored, Event::Received(data_line)).0, Event::Received(body));
            let elsewhere = next(next(other, Event::Received(data_line)).0, Event::Received(body));
            &&& first.1 == ActionView::Store(record_of(s.account, payload_of(body@)))
            &&& again.1 == first.1
            &&& elsewhere.1 == first.1
        }),
{
    assert(Seq::<u8>::empty() + body@ =~= body@);
}

} // verus!
