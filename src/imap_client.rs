//! Fetching the newest message of an IMAP mailbox: how to log in, which
//! message is newest and what is kept of it.

use vstd::prelude::*;
use vstd::string::*;
use vstd::utf8::encode_utf8;
use crate::decode::{
    mail_fields, mail_parses, mail_sender, parse_fields, parse_sender, preview_of, string_or_empty,
    text_or_empty, MailFields, SenderHeader,
};
use crate::oauth::{base64_standard, xoauth2_payload, xoauth2_string};

verus! {

/// Credentials of a mailbox.
#[derive(Clone, Debug)]
pub struct ImapCredentials {
    pub email: String,
    /// A regular or application password.
    pub password: Option<String>,
    /// An OAuth access token.
    pub access_token: Option<String>,
    pub server: String,
    pub port: u16,
}

/// The newest message of a mailbox, summarized.
#[derive(Clone, Debug)]
pub struct FetchedEmail {
    pub message_id: Option<String>,
    pub sender: String,
    pub subject: String,
    pub body_preview: String,
    /// Seconds since the Unix epoch.
    pub received_at: i64,
}

/// How to log in to a mailbox.
#[derive(Clone, Debug)]
pub enum LoginMethod {
    /// SASL XOAUTH2 with this encoded initial response.
    XOAuth2(String),
    /// A plain login with this password.
    Password(String),
}

/// Chooses the login: XOAUTH2 where an access token is stored, else the
/// password; an error where there is neither, or where the XOAUTH2 string
/// would be too long to encode.
pub fn login_method(creds: &ImapCredentials) -> (r: Result<LoginMethod, String>)
    ensures
        match creds.access_token {
            Some(t) => match r {
                Ok(LoginMethod::XOAuth2(x)) => x@ == base64_standard(
                    xoauth2_payload(encode_utf8(creds.email@), encode_utf8(t@)),
                ),
                Ok(LoginMethod::Password(_)) => false,
                Err(_) => encode_utf8(creds.email@).len() + encode_utf8(t@).len() + 20
                    > usize::MAX / 2,
            },
            None => match creds.password {
                Some(p) => r == Ok::<LoginMethod, String>(LoginMethod::Password(p)),
                None => r matches Err(e) && e@ == "No credentials provided"@,
            },
        },
{
    match &creds.access_token {
        Some(t) => {
            let email = creds.email.as_str();
            let token = t.as_str();
            let email_len = email.as_bytes().len();
            let token_len = token.as_bytes().len();
            let limit = usize::MAX / 2 - 20;
            if email_len > limit || token_len > limit - email_len {
                return Err(String::from_str("Credentials too long"));
            }
            Ok(LoginMethod::XOAuth2(xoauth2_string(email, token)))
        },
        None => match &creds.password {
            Some(p) => Ok(LoginMethod::Password(p.clone())),
            None => Err(String::from_str("No credentials provided")),
        },
    }
}

/// The highest message number of a search result, `None` where it is
/// empty.
pub fn latest_uid(uids: &Vec<u32>) -> (r: Option<u32>)
    ensures
        match r {
            Some(m) => uids@.contains(m) && forall|i: int| 0 <= i < uids@.len() ==> uids@[i] <= m,
            None => uids@.len() == 0,
        },
{
    if uids.len() == 0 {
        return None;
    }
    let mut best = uids[0];
    let mut i: usize = 1;
    while i < uids.len()
        invariant
            1 <= i <= uids@.len(),
            uids@.contains(best),
            forall|k: int| 0 <= k < i ==> uids@[k] <= best,
        decreases uids@.len() - i,
    {
        if uids[i] > best {
            best = uids[i];
        }
        i = i + 1;
    }
    Some(best)
}

/// The sender's address as a mailbox fetch reads it: the single address,
/// or the first of a list; empty otherwise.
pub open spec fn address_sender_of(h: SenderHeader) -> Seq<char> {
    match h {
        SenderHeader::Address(a) => text_or_empty(a),
        SenderHeader::AddressList(l) => if l@.len() > 0 {
            text_or_empty(l@[0])
        } else {
            Seq::empty()
        },
        _ => Seq::empty(),
    }
}

/// The sender's address of a `From` header, groups not read.
pub fn extract_sender(h: &SenderHeader) -> (r: String)
    ensures
        r@ == address_sender_of(*h),
{
    match h {
        SenderHeader::Address(a) => string_or_empty(a),
        SenderHeader::AddressList(l) => if l.len() > 0 {
            string_or_empty(&l[0])
        } else {
            String::new()
        },
        _ => String::new(),
    }
}

/// Whether `e` summarizes the parser's findings, `now` standing in for a
/// missing date.
pub open spec fn summarizes(e: FetchedEmail, sender: SenderHeader, fields: MailFields, now: i64) -> bool {
    &&& e.message_id == fields.message_id
    &&& e.sender@ == address_sender_of(sender)
    &&& e.subject@ == text_or_empty(fields.subject)
    &&& e.body_preview@ == preview_of(text_or_empty(fields.text))
    &&& e.received_at == match fields.date {
        Some(d) => d,
        None => now,
    }
}

/// Summarizes what the parser found in a fetched message; `None` where it
/// found no message.
pub fn fetched_from_parts(
    sender: &Option<SenderHeader>,
    fields: &Option<MailFields>,
    now: i64,
) -> (r: Option<FetchedEmail>)
    ensures
        match (sender, fields) {
            (Some(s), Some(f)) => r matches Some(e) && summarizes(e, *s, *f, now),
            _ => r is None,
        },
{
    match (sender, fields) {
        (Some(s), Some(f)) => {
            let body_preview = match &f.text {
                Some(t) => crate::decode::preview(t.as_str()),
                None => String::new(),
            };
            assert(f.text is None ==> preview_of(text_or_empty(f.text)) =~= Seq::<char>::empty());
            Some(
                FetchedEmail {
                    message_id: f.message_id.clone(),
                    sender: extract_sender(s),
                    subject: string_or_empty(&f.subject),
                    body_preview,
                    received_at: match f.date {
                        Some(d) => d,
                        None => now,
                    },
                },
            )
        },
        _ => None,
    }
}

/// Parses a fetched message and summarizes it; `None` where the parser
/// finds no message.
pub fn fetched_from_raw(raw: &[u8], now: i64) -> (r: Option<FetchedEmail>)
    ensures
        r is Some <==> mail_parses(raw@),
        match (mail_sender(raw@), mail_fields(raw@)) {
            (Some(s), Some(f)) => r matches Some(e) && summarizes(e, s, f, now),
            _ => r is None,
        },
{
    let sender = parse_sender(raw);
    let fields = parse_fields(raw);
    fetched_from_parts(&sender, &fields, now)
}

} // verus!
