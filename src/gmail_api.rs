//! Messages listed through Gmail's API: what is kept of each one's
//! metadata.

use vstd::prelude::*;
use vstd::string::*;
use crate::decode::{string_or_empty, text_or_empty};
use crate::text::text_eq;

verus! {

/// A message fetched through Gmail's API.
#[derive(Clone, Debug)]
pub struct FetchedEmail {
    pub message_id: String,
    pub sender: String,
    pub subject: String,
    pub body_preview: String,
    /// Seconds since the Unix epoch.
    pub received_at: i64,
}

/// One metadata header of a message.
#[derive(Clone, Debug)]
pub struct GmailHeader {
    pub name: String,
    pub value: String,
}

/// The value of the last header with this name, empty where there is none.
pub open spec fn header_value(hs: Seq<GmailHeader>, name: Seq<char>) -> Seq<char>
    decreases hs.len(),
{
    if hs.len() == 0 {
        Seq::empty()
    } else if hs.last().name@ == name {
        hs.last().value@
    } else {
        header_value(hs.drop_last(), name)
    }
}

/// The `From` and `Subject` values of a header list, the last of each
/// counting.
pub fn sender_and_subject(headers: &Vec<GmailHeader>) -> (r: (String, String))
    ensures
        r.0@ == header_value(headers@, "From"@),
        r.1@ == header_value(headers@, "Subject"@),
{
    let mut sender = String::new();
    let mut subject = String::new();
    let mut i: usize = 0;
    while i < headers.len()
        invariant
            i <= headers@.len(),
            sender@ == header_value(headers@.subrange(0, i as int), "From"@),
            subject@ == header_value(headers@.subrange(0, i as int), "Subject"@),
        decreases headers@.len() - i,
    {
        let h = &headers[i];
        if text_eq(h.name.as_str(), "From") {
            sender = h.value.clone();
        } else if text_eq(h.name.as_str(), "Subject") {
            subject = h.value.clone();
        }
        proof {
            reveal_strlit("From");
            reveal_strlit("Subject");
            assert("From"@.len() != "Subject"@.len());
            assert(headers@.subrange(0, i + 1).drop_last() =~= headers@.subrange(0, i as int));
            assert(headers@.subrange(0, i + 1).last() == headers@[i as int]);
        }
        i = i + 1;
    }
    proof {
        assert(headers@.subrange(0, headers@.len() as int) =~= headers@);
    }
    (sender, subject)
}

/// Whether a text is one or more ASCII digits.
pub open spec fn all_digits(s: Seq<char>) -> bool {
    s.len() > 0 && forall|i: int| 0 <= i < s.len() ==> '0' <= #[trigger] s[i] <= '9'
}

/// The number that a string of digits writes in base ten.
pub open spec fn digits_value(s: Seq<char>) -> int
    decreases s.len(),
{
    if s.len() == 0 {
        0
    } else {
        digits_value(s.drop_last()) * 10 + (s.last() as int - '0' as int)
    }
}

/// The integer that a text writes: an optional sign, then digits.
pub open spec fn decimal_value(s: Seq<char>) -> Option<int> {
    if s.len() > 0 && s[0] == '-' && all_digits(s.drop_first()) {
        Some(-digits_value(s.drop_first()))
    } else if s.len() > 0 && s[0] == '+' && all_digits(s.drop_first()) {
        Some(digits_value(s.drop_first()))
    } else if all_digits(s) {
        Some(digits_value(s))
    } else {
        None
    }
}

/// Relies on `str::parse::<i64>`: an optional sign followed by digits only,
/// within the range of `i64`.
#[verifier::external_body]
fn parse_i64(s: &str) -> (r: Option<i64>)
    ensures
        r == match decimal_value(s@) {
            Some(v) => if i64::MIN <= v <= i64::MAX {
                Some(v as i64)
            } else {
                None
            },
            None => None,
        },
{
    s.parse::<i64>().ok()
}

/// Whole seconds of a millisecond count, rounded toward zero.
pub open spec fn secs_of_millis(ms: int) -> int {
    if ms >= 0 {
        ms / 1000
    } else {
        -((-ms) / 1000)
    }
}

/// The receive time of a message, in seconds, from its internal date in
/// milliseconds; `now` where the date is missing or is not a number.
pub fn internal_date_secs(internal_date: &Option<String>, now: i64) -> (r: i64)
    ensures
        r == match internal_date {
            Some(d) => match decimal_value(d@) {
                Some(v) => if i64::MIN <= v <= i64::MAX {
                    secs_of_millis(v)
                } else {
                    now as int
                },
                None => now as int,
            },
            None => now as int,
        },
{
    match internal_date {
        Some(d) => match parse_i64(d.as_str()) {
            Some(ms) => ms / 1000,
            None => now,
        },
        None => now,
    }
}

/// The message kept for a fetched message's metadata: sender and subject
/// from its headers, its snippet as preview, its receive time in seconds.
pub fn gmail_fetched_email(
    id: String,
    headers: Option<Vec<GmailHeader>>,
    snippet: Option<String>,
    internal_date: Option<String>,
    now: i64,
) -> (r: FetchedEmail)
    ensures
        r.message_id == id,
        r.sender@ == match headers {
            Some(hs) => header_value(hs@, "From"@),
            None => Seq::empty(),
        },
        r.subject@ == match headers {
            Some(hs) => header_value(hs@, "Subject"@),
            None => Seq::empty(),
        },
        r.body_preview@ == text_or_empty(snippet),
        r.received_at == match internal_date {
            Some(d) => match decimal_value(d@) {
                Some(v) => if i64::MIN <= v <= i64::MAX {
                    secs_of_millis(v)
                } else {
                    now as int
                },
                None => now as int,
            },
            None => now as int,
        },
{
    let (sender, subject) = match &headers {
        Some(hs) => sender_and_subject(hs),
        None => (String::new(), String::new()),
    };
    FetchedEmail {
        message_id: id,
        sender,
        subject,
        body_preview: string_or_empty(&snippet),
        received_at: internal_date_secs(&internal_date, now),
    }
}

} // verus!
