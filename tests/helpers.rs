use mailpulse::decode::{decode_message, extract_sender, preview, summarize, MailFields, SenderHeader};
use mailpulse::gmail_api::{gmail_fetched_email, internal_date_secs, sender_and_subject, GmailHeader};
use mailpulse::imap_client::{fetched_from_raw, latest_uid, login_method, ImapCredentials, LoginMethod};
use mailpulse::jwt::{extract_bearer_token, Claims, TOKEN_LIFETIME_SECS};
use mailpulse::oauth::xoauth2_string;
use mailpulse::protocol::{extract_local_part, parse_command, Command};
use mailpulse::recipient::resolve;
use mailpulse::routes::{
    access_allowed, account_email, alias_address, choose_sync_source, connect_state, login_state,
    parse_callback_state, parse_connect_state, sso_return_location, sso_return_url, sso_state,
    temp_alias_name, CreateUserRequest, Provider, ProviderProfile, SyncSource,
};
use mailpulse::workos_auth::{get_auth_url, WorkOSConfig};

#[test]
fn bearer_token_is_extracted() {
    assert_eq!(extract_bearer_token("Bearer abc.def"), Some("abc.def"));
    assert_eq!(extract_bearer_token("Bearer "), Some(""));
    assert_eq!(extract_bearer_token("Basic abc"), None);
    assert_eq!(extract_bearer_token("bearer abc"), None);
    assert_eq!(extract_bearer_token(""), None);
}

#[test]
fn claims_last_a_day() {
    let c = Claims::issue("u1", 1_000);
    assert_eq!(c.sub, "u1");
    assert_eq!(c.iat, 1_000);
    assert_eq!(c.exp, 1_000 + 86_400);
    assert_eq!(TOKEN_LIFETIME_SECS, 86_400);
}

#[test]
fn xoauth2_string_is_base64_of_the_login_line() {
    assert_eq!(xoauth2_string("a@b.com", "tok123"), "dXNlcj1hQGIuY29tAWF1dGg9QmVhcmVyIHRvazEyMwEB");
}

#[test]
fn auth_url_encodes_redirect_and_state() {
    let config = WorkOSConfig::new("key".to_string(), "client_1".to_string(), "http://localhost:8080");
    assert_eq!(config.redirect_uri, "http://localhost:8080/auth/workos/callback");
    assert_eq!(
        get_auth_url(&config, "authkit_login|http://x"),
        "https://api.workos.com/user_management/authorize?response_type=code&client_id=client_1\
         &redirect_uri=http%3A%2F%2Flocalhost%3A8080%2Fauth%2Fworkos%2Fcallback\
         &provider=authkit&state=authkit_login%7Chttp%3A%2F%2Fx"
    );
}

#[test]
fn callback_state_is_split_at_two_colons() {
    let c = parse_callback_state("u1:google").unwrap();
    assert_eq!((c.user_id.as_str(), c.provider.as_str(), c.redirect), ("u1", "google", None));
    let c = parse_callback_state("u1:gmail_connect:http://x:5176/").unwrap();
    assert_eq!(c.user_id, "u1");
    assert_eq!(c.provider, "gmail_connect");
    assert_eq!(c.redirect.as_deref(), Some("http://x:5176/"));
    assert!(parse_callback_state("nocolon").is_none());
}

#[test]
fn connect_state_reads_third_field() {
    let c = parse_connect_state("u1:gmail_connect:home/").unwrap();
    assert_eq!(c.user_id, "u1");
    assert_eq!(c.return_url, "home");
    let c = parse_connect_state("u1:gmail_connect").unwrap();
    assert_eq!(c.return_url, "http://localhost:5176");
    let c = parse_connect_state("u1:gmail_connect:http://x:1").unwrap();
    assert_eq!(c.return_url, "http");
    assert!(parse_connect_state("u1").is_none());
}

#[test]
fn states_are_built() {
    assert_eq!(login_state("u1", "google"), "u1:google");
    assert_eq!(connect_state("u1", None), "u1:gmail_connect:http://localhost:5176");
    assert_eq!(connect_state("u1", Some("https://a")), "u1:gmail_connect:https://a");
    assert_eq!(sso_state(None), "authkit_login|http://localhost:5176");
    assert_eq!(sso_state(Some("https://a")), "authkit_login|https://a");
}

#[test]
fn sso_return_url_takes_second_field() {
    assert_eq!(sso_return_url(Some("authkit_login|https://a.b//")), "https://a.b");
    assert_eq!(sso_return_url(Some("authkit_login")), "http://localhost:5176");
    assert_eq!(sso_return_url(None), "http://localhost:5176");
    assert_eq!(
        sso_return_location("https://a", "t0k", "{\"id\":\"u 1\"}"),
        "https://a/?token=t0k&user=%7B%22id%22%3A%22u+1%22%7D"
    );
}

#[test]
fn providers_map_to_servers_and_names() {
    assert_eq!(Provider::from_name("google"), Some(Provider::Google));
    assert_eq!(Provider::from_name("gmail_connect"), Some(Provider::GmailConnect));
    assert_eq!(Provider::from_name("microsoft"), Some(Provider::Microsoft));
    assert_eq!(Provider::from_name("yahoo"), None);
    assert_eq!(Provider::GmailConnect.imap_server(), "imap.gmail.com");
    assert_eq!(Provider::Microsoft.imap_server(), "outlook.office365.com");
    assert_eq!(Provider::GmailConnect.stored_name(), "google");
    assert_eq!(Provider::Microsoft.stored_name(), "microsoft");
}

#[test]
fn account_email_falls_back() {
    let none = ProviderProfile { email: None, mail: None, user_principal_name: None };
    assert_eq!(account_email(Provider::Google, "u1", None), "u1@gmail.com");
    assert_eq!(account_email(Provider::Microsoft, "u1", None), "u1@outlook.com");
    assert_eq!(account_email(Provider::Google, "u1", Some(none.clone())), "unknown@gmail.com");
    assert_eq!(account_email(Provider::Microsoft, "u1", Some(none)), "unknown@outlook.com");
    let p = ProviderProfile {
        email: None,
        mail: None,
        user_principal_name: Some("x@corp".to_string()),
    };
    assert_eq!(account_email(Provider::Microsoft, "u1", Some(p)), "x@corp");
}

#[test]
fn sync_source_prefers_gmail_api() {
    let s = |x: &str| Some(x.to_string());
    assert!(matches!(
        choose_sync_source(&s("workos"), &s("tok"), &s("pw"), &s("imap.x")),
        SyncSource::GmailApi(t) if t == "tok"
    ));
    assert!(matches!(choose_sync_source(&s("google"), &None, &s("pw"), &s("imap.x")), SyncSource::Imap));
    assert!(matches!(choose_sync_source(&s("microsoft"), &s("tok"), &s("pw"), &s("imap.x")), SyncSource::Imap));
    assert!(matches!(choose_sync_source(&None, &None, &s("pw"), &None), SyncSource::Unconfigured));
}

#[test]
fn access_only_to_own_data() {
    assert!(access_allowed("u1", "u1"));
    assert!(!access_allowed("u1", "u2"));
}

#[test]
fn temp_alias_names() {
    assert_eq!(temp_alias_name(1700000000123456), "temp_1700000000123456");
    assert_eq!(temp_alias_name(0), "temp_0");
    assert_eq!(temp_alias_name(-42), "temp_-42");
    assert_eq!(temp_alias_name(i64::MIN), "temp_-9223372036854775808");
    assert_eq!(alias_address("temp_5"), "temp_5@localhost");
}

#[test]
fn default_imap_port() {
    let r = CreateUserRequest {
        id: "u".to_string(),
        email: "e".to_string(),
        imap_server: None,
        imap_port: None,
        imap_password: None,
    };
    assert_eq!(r.port_or_default(), 993);
    let r = CreateUserRequest { imap_port: Some(143), ..r };
    assert_eq!(r.port_or_default(), 143);
}

#[test]
fn local_part_extraction() {
    assert_eq!(extract_local_part(b"RCPT TO:<user_1@mailpulse.net>"), Some(b"user_1".to_vec()));
    assert_eq!(extract_local_part(b"RCPT TO:<a@b@c>"), Some(b"a".to_vec()));
    assert_eq!(extract_local_part(b"RCPT TO:x@y<z@w>"), Some(b"z".to_vec()));
    assert_eq!(extract_local_part(b"RCPT TO:<nobody>"), None);
    assert_eq!(extract_local_part(b"RCPT TO:user@host"), None);
    assert_eq!(extract_local_part(b"RCPT TO:<@host>"), Some(Vec::new()));
}

#[test]
fn command_keywords() {
    assert_eq!(parse_command(b"HELO a"), Some(Command::Helo));
    assert_eq!(parse_command(b"EHLO a"), Some(Command::Ehlo));
    assert_eq!(parse_command(b"MAIL FROM:<a@b>"), Some(Command::MailFrom));
    assert_eq!(parse_command(b"RCPT TO:<a@b>"), Some(Command::RcptTo));
    assert_eq!(parse_command(b"DATA"), Some(Command::Data));
    assert_eq!(parse_command(b"QUIT"), Some(Command::Quit));
    assert_eq!(parse_command(b"MAIL  FROM"), None);
    assert_eq!(parse_command(b"HEL"), None);
}

#[test]
fn resolution_keeps_unknown_token() {
    let t = "ghost".to_string();
    assert_eq!(resolve(&t, None), "ghost");
    assert_eq!(resolve(&t, Some("acct1".to_string())), "acct1");
}

#[test]
fn decoding_reads_sender_subject_and_preview() {
    let raw = b"From: Alice <alice@example.com>\r\nSubject: Greetings\r\n\r\nBody text";
    let s = decode_message(raw);
    assert_eq!(s.sender, "alice@example.com");
    assert_eq!(s.subject, "Greetings");
    assert_eq!(s.body_preview, "Body text");
    let empty = decode_message(b"");
    assert_eq!((empty.sender.as_str(), empty.subject.as_str(), empty.body_preview.as_str()), ("", "", ""));
}

#[test]
fn decoding_group_sender() {
    let raw = b"From: Team: bob@example.com, carol@example.com;\r\nSubject: x\r\n\r\nhi";
    assert_eq!(decode_message(raw).sender, "bob@example.com");
}

#[test]
fn sender_rules() {
    let a = |x: &str| Some(x.to_string());
    assert_eq!(extract_sender(&SenderHeader::Address(a("x@y"))), "x@y");
    assert_eq!(extract_sender(&SenderHeader::AddressList(vec![None, a("z@y")])), "");
    assert_eq!(extract_sender(&SenderHeader::Group(vec![a("g@y")])), "g@y");
    assert_eq!(extract_sender(&SenderHeader::GroupList(vec![vec![], vec![a("h@y")]])), "");
    assert_eq!(extract_sender(&SenderHeader::GroupList(vec![vec![a("h@y")]])), "h@y");
    assert_eq!(extract_sender(&SenderHeader::Other), "");
    assert_eq!(extract_sender(&SenderHeader::Missing), "");
}

#[test]
fn summary_from_parts() {
    let fields = MailFields {
        subject: Some("S".to_string()),
        text: Some("y".repeat(501)),
        message_id: None,
        date: None,
    };
    let s = summarize(&Some(SenderHeader::Address(Some("a@b".to_string()))), &Some(fields));
    assert_eq!(s.sender, "a@b");
    assert_eq!(s.subject, "S");
    assert_eq!(s.body_preview, "y".repeat(500));
    let s = summarize(&None, &None);
    assert_eq!(s.subject, "");
    assert_eq!(preview("short"), "short");
    assert_eq!(preview(&"é".repeat(600)).chars().count(), 500);
}

#[test]
fn imap_login_choice() {
    let mut creds = ImapCredentials {
        email: "a@b.com".to_string(),
        password: Some("pw".to_string()),
        access_token: Some("tok123".to_string()),
        server: "imap.x".to_string(),
        port: 993,
    };
    assert!(matches!(login_method(&creds), Ok(LoginMethod::XOAuth2(x)) if x == "dXNlcj1hQGIuY29tAWF1dGg9QmVhcmVyIHRvazEyMwEB"));
    creds.access_token = None;
    assert!(matches!(login_method(&creds), Ok(LoginMethod::Password(p)) if p == "pw"));
    creds.password = None;
    assert!(matches!(login_method(&creds), Err(e) if e == "No credentials provided"));
}

#[test]
fn newest_uid() {
    assert_eq!(latest_uid(&vec![3, 9, 4]), Some(9));
    assert_eq!(latest_uid(&vec![]), None);
}

#[test]
fn fetched_message_summary() {
    let raw = b"From: bob@example.com\r\nSubject: Hi\r\nMessage-ID: <m1@x>\r\nDate: Thu, 01 Jan 1970 00:01:40 +0000\r\n\r\nhello";
    let e = fetched_from_raw(raw, 5).unwrap();
    assert_eq!(e.sender, "bob@example.com");
    assert_eq!(e.subject, "Hi");
    assert_eq!(e.message_id.as_deref(), Some("m1@x"));
    assert_eq!(e.received_at, 100);
    assert_eq!(e.body_preview, "hello");
    assert!(fetched_from_raw(b"", 5).is_none());
    let no_date = fetched_from_raw(b"Subject: x\r\n\r\nbody", 77).unwrap();
    assert_eq!(no_date.received_at, 77);
}

#[test]
fn gmail_metadata() {
    let h = |n: &str, v: &str| GmailHeader { name: n.to_string(), value: v.to_string() };
    let hs = vec![h("From", "a@x"), h("Subject", "one"), h("From", "b@x"), h("To", "c@x")];
    assert_eq!(sender_and_subject(&hs), ("b@x".to_string(), "one".to_string()));
    assert_eq!(internal_date_secs(&Some("1700000000123".to_string()), 0), 1700000000);
    assert_eq!(internal_date_secs(&Some("-1500".to_string()), 0), -1);
    assert_eq!(internal_date_secs(&Some("soon".to_string()), 7), 7);
    assert_eq!(internal_date_secs(&None, 7), 7);
    let e = gmail_fetched_email("id1".to_string(), Some(hs), None, Some("2000".to_string()), 0);
    assert_eq!(e.message_id, "id1");
    assert_eq!(e.sender, "b@x");
    assert_eq!(e.body_preview, "");
    assert_eq!(e.received_at, 2);
}
