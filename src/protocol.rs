//! Wire-level pieces of the mail dialogue: command keywords, replies,
//! the body terminator and the recipient's local part.

use vstd::prelude::*;

verus! {

/// Size of the reusable read buffer: a command line longer than this is
/// cut to its first `READ_BUFFER_SIZE` bytes.
pub const READ_BUFFER_SIZE: usize = 2048;

/// Whether `p` is a prefix of `s`.
pub open spec fn has_prefix(s: Seq<u8>, p: Seq<u8>) -> bool {
    p.len() <= s.len() && s.subrange(0, p.len() as int) == p
}

/// Whether `p` is a suffix of `s`.
pub open spec fn has_suffix(s: Seq<u8>, p: Seq<u8>) -> bool {
    p.len() <= s.len() && s.subrange(s.len() - p.len(), s.len() as int) == p
}

/// Tests whether `kw` is a prefix of `line`.
pub fn starts_with(line: &[u8], kw: &[u8]) -> (r: bool)
    ensures
        r == has_prefix(line@, kw@),
{
    if kw.len() > line.len() {
        return false;
    }
    let mut i: usize = 0;
    while i < kw.len()
        invariant
            kw@.len() <= line@.len(),
            i <= kw@.len(),
            forall|k: int| 0 <= k < i ==> line@[k] == kw@[k],
        decreases kw@.len() - i,
    {
        if line[i] != kw[i] {
            assert(line@.subrange(0, kw@.len() as int)[i as int] != kw@[i as int]);
            return false;
        }
        i = i + 1;
    }
    assert(line@.subrange(0, kw@.len() as int) =~= kw@);
    true
}

/// The command keywords of the dialogue, matched case-sensitively as a
/// literal prefix of the received line.
#[derive(Clone, Copy, Debug, PartialEq, Eq, Structural)]
pub enum Command {
    Helo,
    Ehlo,
    MailFrom,
    RcptTo,
    Data,
    Quit,
}

/// The bytes of a command keyword.
pub open spec fn keyword(c: Command) -> Seq<u8> {
    match c {
        Command::Helo => seq!['H' as u8, 'E' as u8, 'L' as u8, 'O' as u8],
        Command::Ehlo => seq!['E' as u8, 'H' as u8, 'L' as u8, 'O' as u8],
        Command::MailFrom => seq!['M' as u8, 'A' as u8, 'I' as u8, 'L' as u8, ' ' as u8, 'F' as u8, 'R' as u8, 'O' as u8, 'M' as u8],
        Command::RcptTo => seq!['R' as u8, 'C' as u8, 'P' as u8, 'T' as u8, ' ' as u8, 'T' as u8, 'O' as u8],
        Command::Data => seq!['D' as u8, 'A' as u8, 'T' as u8, 'A' as u8],
        Command::Quit => seq!['Q' as u8, 'U' as u8, 'I' as u8, 'T' as u8],
    }
}

/// The command that a line carries, keywords tried in the order of the
/// dialogue; `None` for a line that starts with no keyword.
pub open spec fn command_of(line: Seq<u8>) -> Option<Command> {
    if has_prefix(line, keyword(Command::Helo)) {
        Some(Command::Helo)
    } else if has_prefix(line, keyword(Command::Ehlo)) {
        Some(Command::Ehlo)
    } else if has_prefix(line, keyword(Command::MailFrom)) {
        Some(Command::MailFrom)
    } else if has_prefix(line, keyword(Command::RcptTo)) {
        Some(Command::RcptTo)
    } else if has_prefix(line, keyword(Command::Data)) {
        Some(Command::Data)
    } else if has_prefix(line, keyword(Command::Quit)) {
        Some(Command::Quit)
    } else {
        None
    }
}

/// The bytes of a command keyword.
pub fn keyword_bytes(c: Command) -> (r: Vec<u8>)
    ensures
        r@ == keyword(c),
{
    let r = match c {
        Command::Helo => vec!['H' as u8, 'E' as u8, 'L' as u8, 'O' as u8],
        Command::Ehlo => vec!['E' as u8, 'H' as u8, 'L' as u8, 'O' as u8],
        Command::MailFrom => vec!['M' as u8, 'A' as u8, 'I' as u8, 'L' as u8, ' ' as u8, 'F' as u8, 'R' as u8, 'O' as u8, 'M' as u8],
        Command::RcptTo => vec!['R' as u8, 'C' as u8, 'P' as u8, 'T' as u8, ' ' as u8, 'T' as u8, 'O' as u8],
        Command::Data => vec!['D' as u8, 'A' as u8, 'T' as u8, 'A' as u8],
        Command::Quit => vec!['Q' as u8, 'U' as u8, 'I' as u8, 'T' as u8],
    };
    assert(r@ =~= keyword(c));
    r
}

/// Classifies a received line by its leading keyword.
pub fn parse_command(line: &[u8]) -> (r: Option<Command>)
    ensures
        r == command_of(line@),
{
    if starts_with(line, keyword_bytes(Command::Helo).as_slice()) {
        Some(Command::Helo)
    } else if starts_with(line, keyword_bytes(Command::Ehlo).as_slice()) {
        Some(Command::Ehlo)
    } else if starts_with(line, keyword_bytes(Command::MailFrom).as_slice()) {
        Some(Command::MailFrom)
    } else if starts_with(line, keyword_bytes(Command::RcptTo).as_slice()) {
        Some(Command::RcptTo)
    } else if starts_with(line, keyword_bytes(Command::Data).as_slice()) {
        Some(Command::Data)
    } else if starts_with(line, keyword_bytes(Command::Quit).as_slice()) {
        Some(Command::Quit)
    } else {
        None
    }
}

/// The replies of the dialogue.
#[derive(Clone, Copy, Debug, PartialEq, Eq, Structural)]
pub enum Reply {
    /// Sent once, before anything is read.
    Greeting,
    /// A command or a message was accepted.
    Accepted,
    /// The body may follow.
    StartData,
    /// The recipient is over its delivery limit; the connection closes.
    RateLimited,
    /// The message could not be stored; the connection stays open.
    LocalError,
    /// Answer to the closing command; the connection closes.
    Bye,
}

/// The exact line sent for a reply.
pub open spec fn reply_text(r: Reply) -> Seq<char> {
    match r {
        Reply::Greeting => "220 mailpulse.net ESMTP\r\n"@,
        Reply::Accepted => "250 OK\r\n"@,
        Reply::StartData => "354 End data with <CRLF>.<CRLF>\r\n"@,
        Reply::RateLimited => "450 Requested mail action not taken: limit exceeded\r\n"@,
        Reply::LocalError => "451 Requested action aborted: local error\r\n"@,
        Reply::Bye => "221 Bye\r\n"@,
    }
}

/// The numeric code that a reply starts with.
pub open spec fn reply_code(r: Reply) -> u16 {
    match r {
        Reply::Greeting => 220,
        Reply::Accepted => 250,
        Reply::StartData => 354,
        Reply::RateLimited => 450,
        Reply::LocalError => 451,
        Reply::Bye => 221,
    }
}

impl Reply {
    /// The line to write for this reply, ending in CR LF.
    pub fn text(&self) -> (r: &'static str)
        ensures
            r@ == reply_text(*self),
    {
        match self {
            Reply::Greeting => "220 mailpulse.net ESMTP\r\n",
            Reply::Accepted => "250 OK\r\n",
            Reply::StartData => "354 End data with <CRLF>.<CRLF>\r\n",
            Reply::RateLimited => "450 Requested mail action not taken: limit exceeded\r\n",
            Reply::LocalError => "451 Requested action aborted: local error\r\n",
            Reply::Bye => "221 Bye\r\n",
        }
    }

    /// The numeric code of this reply.
    pub fn code(&self) -> (r: u16)
        ensures
            r == reply_code(*self),
    {
        match self {
            Reply::Greeting => 220,
            Reply::Accepted => 250,
            Reply::StartData => 354,
            Reply::RateLimited => 450,
            Reply::LocalError => 451,
            Reply::Bye => 221,
        }
    }

    /// Whether the connection closes once this reply is sent.
    pub fn closes(&self) -> (r: bool)
        ensures
            r == (*self == Reply::RateLimited || *self == Reply::Bye),
    {
        match self {
            Reply::RateLimited | Reply::Bye => true,
            _ => false,
        }
    }
}

/// The body terminator: CR LF "." CR LF.
pub open spec fn terminator() -> Seq<u8> {
    seq![13u8, 10u8, '.' as u8, 13u8, 10u8]
}

/// Whether the accumulated body ends with the terminator.
pub fn ends_with_terminator(buf: &[u8]) -> (r: bool)
    ensures
        r == has_suffix(buf@, terminator()),
{
    let n = buf.len();
    if n < 5 {
        return false;
    }
    let r = buf[n - 5] == 13 && buf[n - 4] == 10 && buf[n - 3] == '.' as u8 && buf[n - 2] == 13
        && buf[n - 1] == 10;
    assert(r ==> buf@.subrange(n - 5, n as int) =~= terminator());
    assert(buf@.subrange(n - 5, n as int) == terminator() ==> {
        &&& buf@.subrange(n - 5, n as int)[0] == buf@[n - 5]
        &&& buf@.subrange(n - 5, n as int)[1] == buf@[n - 4]
        &&& buf@.subrange(n - 5, n as int)[2] == buf@[n - 3]
        &&& buf@.subrange(n - 5, n as int)[3] == buf@[n - 2]
        &&& buf@.subrange(n - 5, n as int)[4] == buf@[n - 1]
    });
    r
}

/// The first position at or after `i` that holds `b`.
pub open spec fn find_from(s: Seq<u8>, b: u8, i: int) -> Option<int>
    decreases s.len() - i,
{
    if i < 0 || i >= s.len() {
        None
    } else if s[i] == b {
        Some(i)
    } else {
        find_from(s, b, i + 1)
    }
}

/// The local part of a recipient command: the bytes between the first `<`
/// and the first `@` after it; `None` where either is missing.
pub open spec fn local_part(line: Seq<u8>) -> Option<Seq<u8>> {
    match find_from(line, '<' as u8, 0) {
        Some(i) => match find_from(line, '@' as u8, i + 1) {
            Some(j) => Some(line.subrange(i + 1, j)),
            None => None,
        },
        None => None,
    }
}

proof fn lemma_find_from_bounds(s: Seq<u8>, b: u8, i: int)
    ensures
        find_from(s, b, i) matches Some(k) ==> 0 <= i <= k < s.len() && s[k] == b,
    decreases s.len() - i,
{
    if 0 <= i < s.len() && s[i] != b {
        lemma_find_from_bounds(s, b, i + 1);
    }
}

/// The first position at or after `from` that holds `b`.
fn find_byte(s: &[u8], b: u8, from: usize) -> (r: Option<usize>)
    ensures
        match r {
            Some(k) => find_from(s@, b, from as int) == Some(k as int) && from <= k < s@.len()
                && s@[k as int] == b,
            None => find_from(s@, b, from as int) is None,
        },
{
    let mut i = from;
    while i < s.len()
        invariant
            from <= i,
            find_from(s@, b, from as int) == find_from(s@, b, i as int),
        decreases s@.len() - i,
    {
        if s[i] == b {
            proof {
                lemma_find_from_bounds(s@, b, from as int);
            }
            return Some(i);
        }
        i = i + 1;
    }
    None
}

/// Copies `s[from..to]`.
pub fn copy_range(s: &[u8], from: usize, to: usize) -> (r: Vec<u8>)
    requires
        from <= to <= s@.len(),
    ensures
        r@ == s@.subrange(from as int, to as int),
{
    let mut r: Vec<u8> = Vec::new();
    let mut i = from;
    while i < to
        invariant
            from <= i <= to <= s@.len(),
            r@ == s@.subrange(from as int, i as int),
        decreases to - i,
    {
        r.push(s[i]);
        i = i + 1;
        assert(r@ =~= s@.subrange(from as int, i as int));
    }
    r
}

/// Extracts the local part of a recipient command line.
pub fn extract_local_part(line: &[u8]) -> (r: Option<Vec<u8>>)
    ensures
        match r {
            Some(v) => local_part(line@) == Some(v@),
            None => local_part(line@) is None,
        },
{
    let n = line.len();
    match find_byte(line, '<' as u8, 0) {
        Some(i) => {
            assert(i < n);
            match find_byte(line, '@' as u8, i + 1) {
                Some(j) => {
                    Some(copy_range(line, i + 1, j))
                },
                None => None,
            }
        },
        None => None,
    }
}

/// The first `READ_BUFFER_SIZE` bytes of `s`, or all of it when shorter.
pub open spec fn truncated(s: Seq<u8>) -> Seq<u8> {
    if s.len() <= READ_BUFFER_SIZE {
        s
    } else {
        s.subrange(0, READ_BUFFER_SIZE as int)
    }
}

} // verus!
