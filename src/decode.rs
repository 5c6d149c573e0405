//! Summary fields of a raw message: sender, subject and a body preview.
//! Parsing is done by `mail_parser`; what is taken from its result is
//! decided here.

use vstd::prelude::*;
use vstd::string::*;
use mail_parser::{Addr, HeaderValue, Message};

verus! {

/// Most characters of the body kept in a preview.
pub const PREVIEW_CHARS: usize = 500;

/// The `From` header of a parsed message, with each address reduced to its
/// e-mail address (if it has one).
#[derive(Clone, Debug)]
pub enum SenderHeader {
    /// The message has no `From` header.
    Missing,
    Address(Option<String>),
    AddressList(Vec<Option<String>>),
    Group(Vec<Option<String>>),
    GroupList(Vec<Vec<Option<String>>>),
    /// A `From` header of another shape (text, a date, ...).
    Other,
}

/// Header fields and text body of a parsed message.
#[derive(Clone, Debug)]
pub struct MailFields {
    pub subject: Option<String>,
    /// The first text part of the body.
    pub text: Option<String>,
    pub message_id: Option<String>,
    /// The `Date` header as seconds since the Unix epoch.
    pub date: Option<i64>,
}

/// Whether the parser finds a message (at least one header) in the bytes.
pub uninterp spec fn mail_parses(raw: Seq<u8>) -> bool;

/// The `From` header that the parser finds in the bytes.
pub uninterp spec fn mail_sender(raw: Seq<u8>) -> Option<SenderHeader>;

/// The header fields and text body that the parser finds in the bytes.
pub uninterp spec fn mail_fields(raw: Seq<u8>) -> Option<MailFields>;

/// Relies on `mail_parser::Message::parse` and `Message::header("From")`:
/// `None` exactly when no message is found, else the `From` header with
/// each address's e-mail address.
#[verifier::external_body]
pub(crate) fn parse_sender(raw: &[u8]) -> (r: Option<SenderHeader>)
    ensures
        r == mail_sender(raw@),
        r is Some <==> mail_parses(raw@),
{
    let a = |x: &Addr| x.address.as_ref().map(|s| s.to_string());
    let list = |v: &Vec<Addr>| v.iter().map(a).collect();
    Message::parse(raw).map(|m| match m.header("From") {
        Some(HeaderValue::Address(x)) => SenderHeader::Address(a(x)),
        Some(HeaderValue::AddressList(l)) => SenderHeader::AddressList(list(l)),
        Some(HeaderValue::Group(g)) => SenderHeader::Group(list(&g.addresses)),
        Some(HeaderValue::GroupList(l)) => SenderHeader::GroupList(l.iter().map(|g| list(&g.addresses)).collect()),
        Some(_) => SenderHeader::Other,
        None => SenderHeader::Missing,
    })
}

/// Relies on `mail_parser::Message::parse` and the accessors `subject`,
/// `body_text(0)`, `message_id` and `date` (as `DateTime::to_timestamp`):
/// `None` exactly when no message is found.
#[verifier::external_body]
pub(crate) fn parse_fields(raw: &[u8]) -> (r: Option<MailFields>)
    ensures
        r == mail_fields(raw@),
        r is Some <==> mail_parses(raw@),
{
    Message::parse(raw).map(|m| MailFields {
        subject: m.subject().map(|s| s.to_string()),
        text: m.body_text(0).map(|b| b.to_string()),
        message_id: m.message_id().map(|s| s.to_string()),
        date: m.date().map(|d| d.to_timestamp()),
    })
}

/// The text of an optional string, empty where there is none.
pub open spec fn text_or_empty(s: Option<String>) -> Seq<char> {
    match s {
        Some(t) => t@,
        None => Seq::empty(),
    }
}

/// The sender's address: the address of a single sender, else the first
/// address of the list, of the group, or of the first group; empty where
/// there is none.
pub open spec fn sender_of(h: SenderHeader) -> Seq<char> {
    match h {
        SenderHeader::Address(a) => text_or_empty(a),
        SenderHeader::AddressList(l) => if l@.len() > 0 {
            text_or_empty(l@[0])
        } else {
            Seq::empty()
        },
        SenderHeader::Group(l) => if l@.len() > 0 {
            text_or_empty(l@[0])
        } else {
            Seq::empty()
        },
        SenderHeader::GroupList(gs) => if gs@.len() > 0 && gs@[0]@.len() > 0 {
            text_or_empty(gs@[0]@[0])
        } else {
            Seq::empty()
        },
        _ => Seq::empty(),
    }
}

/// The first `PREVIEW_CHARS` characters of `s`.
pub open spec fn preview_of(s: Seq<char>) -> Seq<char> {
    if s.len() <= PREVIEW_CHARS {
        s
    } else {
        s.subrange(0, PREVIEW_CHARS as int)
    }
}

/// A copy of an optional string, empty where there is none.
pub fn string_or_empty(s: &Option<String>) -> (r: String)
    ensures
        r@ == text_or_empty(*s),
{
    match s {
        Some(t) => t.clone(),
        None => String::new(),
    }
}

/// The sender's address in a `From` header.
pub fn extract_sender(h: &SenderHeader) -> (r: String)
    ensures
        r@ == sender_of(*h),
{
    match h {
        SenderHeader::Address(a) => string_or_empty(a),
        SenderHeader::AddressList(l) | SenderHeader::Group(l) => if l.len() > 0 {
            string_or_empty(&l[0])
        } else {
            String::new()
        },
        SenderHeader::GroupList(gs) => if gs.len() > 0 && gs[0].len() > 0 {
            string_or_empty(&gs[0][0])
        } else {
            String::new()
        },
        _ => String::new(),
    }
}

/// The first `PREVIEW_CHARS` characters of a text.
pub fn preview(text: &str) -> (r: String)
    ensures
        r@ == preview_of(text@),
        r@.len() <= PREVIEW_CHARS,
{
    let n = text.unicode_len();
    let end = if n <= PREVIEW_CHARS {
        n
    } else {
        PREVIEW_CHARS
    };
    let r = text.substring_char(0, end).to_owned();
    assert(n <= PREVIEW_CHARS ==> r@ =~= text@);
    r
}

/// Sender, subject and body preview of a message.
#[derive(Clone, Debug)]
pub struct Summary {
    pub sender: String,
    pub subject: String,
    pub body_preview: String,
}

/// The sender of a parse result, empty where the parser found nothing.
pub open spec fn summary_sender(h: Option<SenderHeader>) -> Seq<char> {
    match h {
        Some(s) => sender_of(s),
        None => Seq::empty(),
    }
}

/// The subject of a parse result, empty where there is none.
pub open spec fn summary_subject(f: Option<MailFields>) -> Seq<char> {
    match f {
        Some(m) => text_or_empty(m.subject),
        None => Seq::empty(),
    }
}

/// The preview of a parse result's text body, empty where there is none.
pub open spec fn summary_preview(f: Option<MailFields>) -> Seq<char> {
    match f {
        Some(m) => preview_of(text_or_empty(m.text)),
        None => Seq::empty(),
    }
}

/// Builds the summary from what the parser found.
pub fn summarize(sender: &Option<SenderHeader>, fields: &Option<MailFields>) -> (r: Summary)
    ensures
        r.sender@ == summary_sender(*sender),
        r.subject@ == summary_subject(*fields),
        r.body_preview@ == summary_preview(*fields),
{
    let sender_str = match sender {
        Some(h) => extract_sender(h),
        None => String::new(),
    };
    match fields {
        Some(m) => {
            let subject = string_or_empty(&m.subject);
            let body_preview = match &m.text {
                Some(t) => preview(t.as_str()),
                None => String::new(),
            };
            assert(m.text is None ==> preview_of(text_or_empty(m.text)) =~= Seq::<char>::empty());
            Summary { sender: sender_str, subject, body_preview }
        },
        None => Summary { sender: sender_str, subject: String::new(), body_preview: String::new() },
    }
}

/// Decodes a raw message into its summary; a message the parser cannot
/// read gives three empty fields.
pub fn decode_message(raw: &[u8]) -> (r: Summary)
    ensures
        r.sender@ == summary_sender(mail_sender(raw@)),
        r.subject@ == summary_subject(mail_fields(raw@)),
        r.body_preview@ == summary_preview(mail_fields(raw@)),
        !mail_parses(raw@) ==> r.sender@.len() == 0 && r.subject@.len() == 0
            && r.body_preview@.len() == 0,
        r.body_preview@.len() <= PREVIEW_CHARS,
{
    let sender = parse_sender(raw);
    let fields = parse_fields(raw);
    summarize(&sender, &fields)
}

} // verus!
