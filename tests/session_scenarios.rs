use mailpulse::limiter::check_rate_limit;
use mailpulse::protocol::{Reply, READ_BUFFER_SIZE};
use mailpulse::session::{Action, Event, MessageRecord, Phase, Session};

/// An in-memory store: accounts, aliases and the appended messages, all of
/// them counted as recent.
struct FakeStore {
    accounts: Vec<String>,
    aliases: Vec<(String, String)>,
    rows: Vec<MessageRecord>,
    count_fails: bool,
    insert_fails: bool,
}

impl FakeStore {
    fn new(accounts: &[&str], aliases: &[(&str, &str)]) -> FakeStore {
        FakeStore {
            accounts: accounts.iter().map(|a| a.to_string()).collect(),
            aliases: aliases.iter().map(|(a, o)| (a.to_string(), o.to_string())).collect(),
            rows: Vec::new(),
            count_fails: false,
            insert_fails: false,
        }
    }

    fn lookup(&self, token: &str) -> Option<String> {
        if self.accounts.iter().any(|a| a == token) {
            return Some(token.to_string());
        }
        self.aliases.iter().find(|(a, _)| a == token).map(|(_, o)| o.clone())
    }

    fn rows_for(&self, account: &str) -> usize {
        self.rows.iter().filter(|r| r.account_id == account).count()
    }
}

/// What one read produced: the bytes written back and whether the
/// connection was closed.
struct Outcome {
    written: String,
    closed: bool,
}

fn feed(session: &mut Session, store: &mut FakeStore, input: &[u8]) -> Outcome {
    let mut written = String::new();
    let mut action = session.step(Event::Received(input.to_vec()));
    loop {
        action = match action {
            Action::Send(reply) => {
                written.push_str(reply.text());
                return Outcome { written, closed: reply.closes() };
            },
            Action::Read => return Outcome { written, closed: false },
            Action::Close => return Outcome { written, closed: true },
            Action::Resolve(token) => {
                let found = store.lookup(&token);
                session.step(Event::Resolved(found))
            },
            Action::CountRecent(account) => {
                let count = if store.count_fails { None } else { Some(store.rows_for(&account) as i64) };
                session.step(Event::RecentCount(count))
            },
            Action::Store(record) => {
                let ok = !store.insert_fails;
                if ok {
                    store.rows.push(record);
                }
                session.step(Event::Stored(ok))
            },
        };
    }
}

fn open() -> Session {
    let (session, first) = Session::open();
    match first {
        Action::Send(r) => assert_eq!(r.text(), "220 mailpulse.net ESMTP\r\n"),
        _ => panic!("the greeting comes first"),
    }
    session
}

const BODY: &[u8] = b"From: Alice <alice@example.com>\r\nSubject: Hello\r\n\r\nHi there\r\n.\r\n";

#[test]
fn scenario_single_delivery() {
    let mut store = FakeStore::new(&["acct1"], &[]);
    let mut s = open();
    assert_eq!(feed(&mut s, &mut store, b"EHLO x\r\n").written, "250 OK\r\n");
    assert_eq!(feed(&mut s, &mut store, b"MAIL FROM:<a@b>\r\n").written, "250 OK\r\n");
    assert_eq!(feed(&mut s, &mut store, b"RCPT TO:<acct1@host>\r\n").written, "250 OK\r\n");
    assert_eq!(feed(&mut s, &mut store, b"DATA\r\n").written, "354 End data with <CRLF>.<CRLF>\r\n");
    let out = feed(&mut s, &mut store, BODY);
    assert_eq!(out.written, "250 OK\r\n");
    assert!(!out.closed);
    assert_eq!(store.rows.len(), 1);
    assert_eq!(store.rows_for("acct1"), 1);
    assert_eq!(store.rows[0].sender, "alice@example.com");
    assert_eq!(store.rows[0].subject, "Hello");
    assert_eq!(store.rows[0].body_preview.trim_end(), "Hi there");
}

#[test]
fn scenario_rate_limit_after_hundred() {
    let mut store = FakeStore::new(&["acct1"], &[]);
    let mut s = open();
    for _ in 0..100 {
        assert_eq!(feed(&mut s, &mut store, b"RCPT TO:<acct1@host>\r\n").written, "250 OK\r\n");
        assert_eq!(feed(&mut s, &mut store, b"DATA\r\n").written, "354 End data with <CRLF>.<CRLF>\r\n");
        assert_eq!(feed(&mut s, &mut store, BODY).written, "250 OK\r\n");
    }
    assert_eq!(store.rows_for("acct1"), 100);
    let out = feed(&mut s, &mut store, b"RCPT TO:<acct1@host>\r\n");
    assert_eq!(out.written, "450 Requested mail action not taken: limit exceeded\r\n");
    assert!(out.closed);
    assert_eq!(s.phase, Phase::Closed);
}

#[test]
fn scenario_unknown_recipient_kept_verbatim() {
    let mut store = FakeStore::new(&["acct1"], &[("temp_9", "acct1")]);
    let mut s = open();
    assert_eq!(feed(&mut s, &mut store, b"RCPT TO:<ghost@host>\r\n").written, "250 OK\r\n");
    feed(&mut s, &mut store, b"DATA\r\n");
    assert_eq!(feed(&mut s, &mut store, BODY).written, "250 OK\r\n");
    assert_eq!(store.rows.len(), 1);
    assert_eq!(store.rows[0].account_id, "ghost");
}

#[test]
fn scenario_unrecognized_command_gets_no_reply() {
    let mut store = FakeStore::new(&[], &[]);
    let mut s = open();
    let out = feed(&mut s, &mut store, b"NOOPX\r\n");
    assert_eq!(out.written, "");
    assert!(!out.closed);
    let out = feed(&mut s, &mut store, b"QUIT\r\n");
    assert_eq!(out.written, "221 Bye\r\n");
    assert!(out.closed);
}

#[test]
fn alias_resolves_to_owner() {
    let mut store = FakeStore::new(&["acct1"], &[("temp_42", "acct1")]);
    let mut s = open();
    assert_eq!(feed(&mut s, &mut store, b"RCPT TO:<temp_42@localhost>\r\n").written, "250 OK\r\n");
    assert_eq!(s.account, "acct1");
    feed(&mut s, &mut store, b"DATA\r\n");
    feed(&mut s, &mut store, BODY);
    assert_eq!(store.rows[0].account_id, "acct1");
    assert_eq!(store.rows_for("temp_42"), 0);
}

#[test]
fn gate_allows_below_limit_and_denies_at_limit() {
    assert!(check_rate_limit(Some(0)));
    assert!(check_rate_limit(Some(99)));
    assert!(!check_rate_limit(Some(100)));
    assert!(!check_rate_limit(Some(250)));
    assert!(!check_rate_limit(None));
}

#[test]
fn gate_fails_closed_on_count_error() {
    let mut store = FakeStore::new(&["acct1"], &[]);
    store.count_fails = true;
    let mut s = open();
    let out = feed(&mut s, &mut store, b"RCPT TO:<acct1@host>\r\n");
    assert_eq!(out.written, "450 Requested mail action not taken: limit exceeded\r\n");
    assert!(out.closed);
}

#[test]
fn ninety_nine_prior_messages_still_accepted() {
    let mut store = FakeStore::new(&["acct1"], &[]);
    for _ in 0..99 {
        store.rows.push(MessageRecord {
            account_id: "acct1".to_string(),
            sender: String::new(),
            subject: String::new(),
            body_preview: String::new(),
        });
    }
    let mut s = open();
    assert_eq!(feed(&mut s, &mut store, b"RCPT TO:<acct1@host>\r\n").written, "250 OK\r\n");
}

#[test]
fn body_split_over_reads_is_captured_without_terminator() {
    let mut store = FakeStore::new(&["acct1"], &[]);
    let mut s = open();
    feed(&mut s, &mut store, b"RCPT TO:<acct1@host>\r\n");
    feed(&mut s, &mut store, b"DATA\r\n");
    let out = feed(&mut s, &mut store, b"Subject: parts\r\n\r\nfirst line\r\n");
    assert_eq!(out.written, "");
    assert_eq!(s.phase, Phase::DataMode);
    let out = feed(&mut s, &mut store, b"second line\r\n.\r\n");
    assert_eq!(out.written, "250 OK\r\n");
    assert_eq!(store.rows[0].subject, "parts");
    assert_eq!(store.rows[0].body_preview, "first line\r\nsecond line");
}

#[test]
fn preview_is_cut_to_five_hundred_chars() {
    let mut store = FakeStore::new(&["acct1"], &[]);
    let mut s = open();
    feed(&mut s, &mut store, b"RCPT TO:<acct1@host>\r\n");
    feed(&mut s, &mut store, b"DATA\r\n");
    let mut body = b"Subject: long\r\n\r\n".to_vec();
    body.extend(std::iter::repeat(b'x').take(700));
    body.extend_from_slice(b"\r\n.\r\n");
    feed(&mut s, &mut store, &body);
    assert_eq!(store.rows[0].body_preview.chars().count(), 500);
    assert!(store.rows[0].body_preview.chars().all(|c| c == 'x'));
}

#[test]
fn identical_payloads_are_stored_twice() {
    let mut store = FakeStore::new(&["acct1"], &[]);
    for _ in 0..2 {
        let mut s = open();
        feed(&mut s, &mut store, b"RCPT TO:<acct1@host>\r\n");
        feed(&mut s, &mut store, b"DATA\r\n");
        assert_eq!(feed(&mut s, &mut store, BODY).written, "250 OK\r\n");
    }
    assert_eq!(store.rows_for("acct1"), 2);
}

#[test]
fn store_failure_answers_451_and_keeps_connection() {
    let mut store = FakeStore::new(&["acct1"], &[]);
    store.insert_fails = true;
    let mut s = open();
    feed(&mut s, &mut store, b"RCPT TO:<acct1@host>\r\n");
    feed(&mut s, &mut store, b"DATA\r\n");
    let out = feed(&mut s, &mut store, BODY);
    assert_eq!(out.written, "451 Requested action aborted: local error\r\n");
    assert!(!out.closed);
    assert_eq!(feed(&mut s, &mut store, b"QUIT\r\n").written, "221 Bye\r\n");
}

#[test]
fn peer_close_during_body_stores_what_arrived() {
    let mut store = FakeStore::new(&["acct1"], &[]);
    let mut s = open();
    feed(&mut s, &mut store, b"RCPT TO:<acct1@host>\r\n");
    feed(&mut s, &mut store, b"DATA\r\n");
    feed(&mut s, &mut store, b"Subject: cut\r\n\r\npartial");
    match s.step(Event::PeerClosed) {
        Action::Store(r) => {
            assert_eq!(r.account_id, "acct1");
            assert_eq!(r.subject, "cut");
        },
        _ => panic!("the partial body is stored"),
    }
}

#[test]
fn recipient_without_at_keeps_previous_account() {
    let mut store = FakeStore::new(&["acct1"], &[]);
    let mut s = open();
    feed(&mut s, &mut store, b"RCPT TO:<acct1@host>\r\n");
    match s.step(Event::Received(b"RCPT TO:<nobody>\r\n".to_vec())) {
        Action::CountRecent(a) => assert_eq!(a, "acct1"),
        _ => panic!("expected a count for acct1"),
    }
}

#[test]
fn long_line_is_cut_at_read_buffer_size() {
    assert_eq!(READ_BUFFER_SIZE, 2048);
    let mut store = FakeStore::new(&[], &[]);
    let mut s = open();
    let mut line = b"RCPT TO:<".to_vec();
    line.extend(std::iter::repeat(b'a').take(2100));
    line.extend_from_slice(b"@host>\r\n");
    match s.step(Event::Received(line)) {
        Action::CountRecent(a) => assert_eq!(a, ""),
        _ => panic!("the @ lies past the buffer, so nothing is extracted"),
    }
    let mut s = open();
    let mut line = b"HELO ".to_vec();
    line.extend(std::iter::repeat(b'h').take(3000));
    assert_eq!(feed(&mut s, &mut store, &line).written, "250 OK\r\n");
}

#[test]
fn commands_are_case_sensitive() {
    let mut store = FakeStore::new(&[], &[]);
    let mut s = open();
    assert_eq!(feed(&mut s, &mut store, b"quit\r\n").written, "");
    assert_eq!(feed(&mut s, &mut store, b"HELO there\r\n").written, "250 OK\r\n");
    assert_eq!(s.phase, Phase::Greeted);
}

#[test]
fn reply_codes() {
    assert_eq!(Reply::Accepted.code(), 250);
    assert_eq!(Reply::StartData.code(), 354);
    assert_eq!(Reply::RateLimited.code(), 450);
    assert_eq!(Reply::LocalError.code(), 451);
    assert_eq!(Reply::Bye.code(), 221);
    assert_eq!(Reply::Greeting.code(), 220);
    assert!(Reply::Bye.closes());
    assert!(!Reply::LocalError.closes());
}

#[test]
fn closed_session_only_closes() {
    let mut store = FakeStore::new(&[], &[]);
    let mut s = open();
    feed(&mut s, &mut store, b"QUIT\r\n");
    assert!(matches!(s.step(Event::Received(b"HELO\r\n".to_vec())), Action::Close));
}
