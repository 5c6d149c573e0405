//! Requests and answers of the web API, and the decisions its handlers
//! make: who may read an account, how an OAuth state string is read, what a
//! provider maps to and where a mailbox is synced from.

use vstd::prelude::*;
use vstd::string::*;
use crate::recipient::opt_text;
use crate::workos_auth::{form_urlencoded, urlencode};
use crate::text::{char_index_from, decimal, push_decimal, find_char, slice_text, text_eq, trim_end, trim_end_char};

verus! {

/// IMAP port used where a registration names none.
pub const DEFAULT_IMAP_PORT: i32 = 993;

/// A stored message as the API returns it.
#[derive(Clone, Debug)]
pub struct EmailResponse {
    pub sender: String,
    pub subject: String,
    pub preview: String,
    pub received_at: String,
}

/// Registration of an account with IMAP credentials.
#[derive(Clone, Debug)]
pub struct CreateUserRequest {
    pub id: String,
    pub email: String,
    pub imap_server: Option<String>,
    pub imap_port: Option<i32>,
    pub imap_password: Option<String>,
}

impl CreateUserRequest {
    /// The IMAP port of the registration, `DEFAULT_IMAP_PORT` where none
    /// is given.
    pub fn port_or_default(&self) -> (r: i32)
        ensures
            r == match self.imap_port {
                Some(p) => p,
                None => DEFAULT_IMAP_PORT,
            },
    {
        match self.imap_port {
            Some(p) => p,
            None => DEFAULT_IMAP_PORT,
        }
    }
}

/// Answer to a registration.
#[derive(Clone, Debug)]
pub struct UserResponse {
    pub id: String,
    pub email: String,
    pub created: bool,
}

/// Answer to a mailbox sync.
#[derive(Clone, Debug)]
pub struct SyncResponse {
    pub synced: bool,
    pub email: Option<EmailResponse>,
    pub message: String,
}

/// Query of the OAuth start pages.
#[derive(Clone, Debug)]
pub struct AuthQuery {
    pub user_id: String,
}

/// Query of the OAuth callbacks.
#[derive(Clone, Debug)]
pub struct CallbackQuery {
    pub code: String,
    pub state: String,
}

/// Query of the hosted sign-in start page.
#[derive(Clone, Debug)]
pub struct SSOQuery {
    pub email: Option<String>,
    pub organization_id: Option<String>,
    pub connection_id: Option<String>,
    pub redirect_to: Option<String>,
}

/// Query of the hosted sign-in callback.
#[derive(Clone, Debug)]
pub struct WorkOSCallbackQuery {
    pub code: String,
    pub state: Option<String>,
}

/// Query of the page that connects a Gmail mailbox.
#[derive(Clone, Debug)]
pub struct ConnectGmailQuery {
    pub user_id: String,
    pub redirect_to: Option<String>,
}

/// A stored message in the list of an account's messages.
#[derive(Clone, Debug)]
pub struct SyncedEmail {
    pub sender: String,
    pub subject: String,
    pub preview: String,
    pub received_at: String,
}

/// Whether a token issued to `token_user_id` may read the data of
/// `path_user_id`: only its own.
pub fn access_allowed(token_user_id: &str, path_user_id: &str) -> (r: bool)
    ensures
        r == (token_user_id@ == path_user_id@),
{
    text_eq(token_user_id, path_user_id)
}

/// The mail providers an OAuth flow can name.
#[derive(Clone, Copy, Debug, PartialEq, Eq, Structural)]
pub enum Provider {
    Google,
    /// Google, reached through the page that connects a mailbox.
    GmailConnect,
    Microsoft,
}

/// The provider a name in a state string stands for.
pub open spec fn provider_named(name: Seq<char>) -> Option<Provider> {
    if name == "google"@ {
        Some(Provider::Google)
    } else if name == "gmail_connect"@ {
        Some(Provider::GmailConnect)
    } else if name == "microsoft"@ {
        Some(Provider::Microsoft)
    } else {
        None
    }
}

impl Provider {
    /// The provider a name stands for; `None` for an unknown name.
    pub fn from_name(name: &str) -> (r: Option<Provider>)
        ensures
            r == provider_named(name@),
    {
        if text_eq(name, "google") {
            Some(Provider::Google)
        } else if text_eq(name, "gmail_connect") {
            Some(Provider::GmailConnect)
        } else if text_eq(name, "microsoft") {
            Some(Provider::Microsoft)
        } else {
            None
        }
    }

    /// Whether the provider's tokens are exchanged at Google.
    pub open spec fn is_google(self) -> bool {
        self == Provider::Google || self == Provider::GmailConnect
    }

    /// The provider's IMAP host.
    pub fn imap_server(&self) -> (r: &'static str)
        ensures
            r@ == if self.is_google() {
                "imap.gmail.com"@
            } else {
                "outlook.office365.com"@
            },
    {
        match self {
            Provider::Google | Provider::GmailConnect => "imap.gmail.com",
            Provider::Microsoft => "outlook.office365.com",
        }
    }

    /// The provider name stored with an account: both Google flows are
    /// stored as `google`.
    pub fn stored_name(&self) -> (r: &'static str)
        ensures
            r@ == if self.is_google() {
                "google"@
            } else {
                "microsoft"@
            },
    {
        match self {
            Provider::Google | Provider::GmailConnect => "google",
            Provider::Microsoft => "microsoft",
        }
    }
}

/// What the provider's profile endpoint told about the account.
#[derive(Clone, Debug)]
pub struct ProviderProfile {
    /// Google's `email` field.
    pub email: Option<String>,
    /// Microsoft's `mail` field.
    pub mail: Option<String>,
    /// Microsoft's `userPrincipalName` field.
    pub user_principal_name: Option<String>,
}

/// The first present value, else `default`.
pub open spec fn first_or(a: Option<String>, b: Option<String>, default: Seq<char>) -> Seq<char> {
    match a {
        Some(x) => x@,
        None => match b {
            Some(y) => y@,
            None => default,
        },
    }
}

/// The mail address recorded for an account after an OAuth flow: the
/// address from the provider's profile, else a placeholder, or an address
/// made of the user id where the profile could not be read.
pub open spec fn account_email_of(p: Provider, user_id: Seq<char>, profile: Option<ProviderProfile>) -> Seq<char> {
    match profile {
        Some(info) => if p.is_google() {
            first_or(info.email, None, "unknown@gmail.com"@)
        } else {
            first_or(info.mail, info.user_principal_name, "unknown@outlook.com"@)
        },
        None => if p.is_google() {
            user_id + "@gmail.com"@
        } else {
            user_id + "@outlook.com"@
        },
    }
}

/// The mail address recorded for an account after an OAuth flow.
pub fn account_email(p: Provider, user_id: &str, profile: Option<ProviderProfile>) -> (r: String)
    ensures
        r@ == account_email_of(p, user_id@, profile),
{
    let google = match p {
        Provider::Google | Provider::GmailConnect => true,
        Provider::Microsoft => false,
    };
    match profile {
        Some(info) => if google {
            match info.email {
                Some(e) => e,
                None => String::from_str("unknown@gmail.com"),
            }
        } else {
            match info.mail {
                Some(m) => m,
                None => match info.user_principal_name {
                    Some(u) => u,
                    None => String::from_str("unknown@outlook.com"),
                },
            }
        },
        None => {
            let mut e = user_id.to_owned();
            if google {
                e.append("@gmail.com");
            } else {
                e.append("@outlook.com");
            }
            e
        },
    }
}

/// The parts of an OAuth callback state `user_id:provider[:redirect]`.
#[derive(Clone, Debug)]
pub struct CallbackState {
    pub user_id: String,
    pub provider: String,
    /// Where to send the browser once the tokens are stored.
    pub redirect: Option<String>,
}

/// The fields of a callback state, split at its first two colons: user id,
/// provider and, after a second colon, the return address; `None` where
/// the state holds no colon.
pub open spec fn callback_fields(s: Seq<char>) -> Option<(Seq<char>, Seq<char>, Option<Seq<char>>)> {
    match char_index_from(s, ':', 0) {
        None => None,
        Some(i) => match char_index_from(s, ':', i + 1) {
            None => Some((s.subrange(0, i), s.subrange(i + 1, s.len() as int), None)),
            Some(j) => Some(
                (s.subrange(0, i), s.subrange(i + 1, j), Some(s.subrange(j + 1, s.len() as int))),
            ),
        },
    }
}

/// Reads a callback state.
pub fn parse_callback_state(state: &str) -> (r: Option<CallbackState>)
    ensures
        match r {
            Some(c) => callback_fields(state@) == Some((c.user_id@, c.provider@, opt_text(c.redirect))),
            None => callback_fields(state@) is None,
        },
{
    let n = state.unicode_len();
    match find_char(state, ':', 0) {
        None => None,
        Some(i) => {
            let user_id = slice_text(state, 0, i);
            match find_char(state, ':', i + 1) {
                None => Some(
                    CallbackState { user_id, provider: slice_text(state, i + 1, n), redirect: None },
                ),
                Some(j) => Some(
                    CallbackState {
                        user_id,
                        provider: slice_text(state, i + 1, j),
                        redirect: Some(slice_text(state, j + 1, n)),
                    },
                ),
            }
        },
    }
}

/// Where the browser returns to when the state names no address.
pub open spec fn default_return_url() -> Seq<char> {
    "http://localhost:5176"@
}

/// The state of a login through a provider: `user_id:provider`.
pub fn login_state(user_id: &str, provider: &str) -> (r: String)
    ensures
        r@ == user_id@ + ":"@ + provider@,
{
    let mut s = user_id.to_owned();
    s.append(":");
    s.append(provider);
    s
}

/// The state of a Gmail connection: `user_id:gmail_connect:return`, the
/// return address defaulting to `default_return_url()`.
pub fn connect_state(user_id: &str, redirect_to: Option<&str>) -> (r: String)
    ensures
        r@ == user_id@ + ":gmail_connect:"@ + match redirect_to {
            Some(t) => t@,
            None => default_return_url(),
        },
{
    let mut s = user_id.to_owned();
    s.append(":gmail_connect:");
    match redirect_to {
        Some(t) => s.append(t),
        None => s.append("http://localhost:5176"),
    }
    s
}

/// The parts of a Gmail connection state that its callback uses.
#[derive(Clone, Debug)]
pub struct ConnectState {
    pub user_id: String,
    /// Where to send the browser, without trailing slashes.
    pub return_url: String,
}

/// The third colon-separated field of a state that has at least two
/// colons, or `default_return_url()`.
pub open spec fn third_field_or_default(s: Seq<char>, i: int) -> Seq<char> {
    match char_index_from(s, ':', i + 1) {
        None => default_return_url(),
        Some(j) => match char_index_from(s, ':', j + 1) {
            None => s.subrange(j + 1, s.len() as int),
            Some(k) => s.subrange(j + 1, k),
        },
    }
}

/// The user id and return address of a Gmail connection state.
pub open spec fn connect_fields(s: Seq<char>) -> Option<(Seq<char>, Seq<char>)> {
    match char_index_from(s, ':', 0) {
        None => None,
        Some(i) => Some((s.subrange(0, i), trim_end(third_field_or_default(s, i), '/'))),
    }
}

/// Reads a Gmail connection state, split at every colon: the first field
/// is the user id, the third (if any) the return address, trailing
/// slashes removed; `None` where the state holds no colon.
pub fn parse_connect_state(state: &str) -> (r: Option<ConnectState>)
    ensures
        match r {
            Some(c) => connect_fields(state@) == Some((c.user_id@, c.return_url@)),
            None => connect_fields(state@) is None,
        },
{
    let n = state.unicode_len();
    match find_char(state, ':', 0) {
        None => None,
        Some(i) => {
            let user_id = slice_text(state, 0, i);
            let field = match find_char(state, ':', i + 1) {
                None => String::from_str("http://localhost:5176"),
                Some(j) => match find_char(state, ':', j + 1) {
                    None => slice_text(state, j + 1, n),
                    Some(k) => slice_text(state, j + 1, k),
                },
            };
            let return_url = trim_end_char(field.as_str(), '/').to_owned();
            Some(ConnectState { user_id, return_url })
        },
    }
}

/// The state of a hosted sign-in: `authkit_login|return`, the return
/// address defaulting to `default_return_url()`.
pub fn sso_state(redirect_to: Option<&str>) -> (r: String)
    ensures
        r@ == "authkit_login|"@ + match redirect_to {
            Some(t) => t@,
            None => default_return_url(),
        },
{
    let mut s = String::from_str("authkit_login|");
    match redirect_to {
        Some(t) => s.append(t),
        None => s.append("http://localhost:5176"),
    }
    s
}

/// The second `|`-separated field of a hosted sign-in state, or
/// `default_return_url()` where it has none.
pub open spec fn sso_return_field(s: Seq<char>) -> Seq<char> {
    match char_index_from(s, '|', 0) {
        None => default_return_url(),
        Some(i) => match char_index_from(s, '|', i + 1) {
            None => s.subrange(i + 1, s.len() as int),
            Some(j) => s.subrange(i + 1, j),
        },
    }
}

/// Where the hosted sign-in callback sends the browser: the state's
/// return address (an absent state reads as empty), without trailing
/// slashes.
pub fn sso_return_url(state: Option<&str>) -> (r: String)
    ensures
        r@ == trim_end(
            sso_return_field(
                match state {
                    Some(s) => s@,
                    None => Seq::empty(),
                },
            ),
            '/',
        ),
{
    let s = match state {
        Some(s) => s,
        None => "",
    };
    proof {
        reveal_strlit("");
    }
    let n = s.unicode_len();
    let field = match find_char(s, '|', 0) {
        None => String::from_str("http://localhost:5176"),
        Some(i) => match find_char(s, '|', i + 1) {
            None => slice_text(s, i + 1, n),
            Some(j) => slice_text(s, i + 1, j),
        },
    };
    trim_end_char(field.as_str(), '/').to_owned()
}

/// Where a mailbox is synced from.
#[derive(Clone, Debug)]
pub enum SyncSource {
    /// Gmail's API, with this access token.
    GmailApi(String),
    /// The account's IMAP server with its password.
    Imap,
    /// Neither is configured.
    Unconfigured,
}

/// Whether a stored provider name syncs through Gmail's API.
pub open spec fn uses_gmail_api(provider: Option<String>) -> bool {
    match provider {
        Some(p) => p@ == "google"@ || p@ == "gmail_connect"@ || p@ == "workos"@,
        None => false,
    }
}

/// Chooses the sync source of an account: Gmail's API for the Google and
/// hosted sign-in providers with an access token, else IMAP where a
/// password and a server are stored.
pub fn choose_sync_source(
    auth_provider: &Option<String>,
    access_token: &Option<String>,
    imap_password: &Option<String>,
    imap_server: &Option<String>,
) -> (r: SyncSource)
    ensures
        match r {
            SyncSource::GmailApi(t) => uses_gmail_api(*auth_provider) && *access_token == Some(t),
            SyncSource::Imap => !(uses_gmail_api(*auth_provider) && access_token.is_some())
                && imap_password.is_some() && imap_server.is_some(),
            SyncSource::Unconfigured => !(uses_gmail_api(*auth_provider) && access_token.is_some())
                && !(imap_password.is_some() && imap_server.is_some()),
        },
{
    let gmail = match auth_provider {
        Some(p) => text_eq(p.as_str(), "google") || text_eq(p.as_str(), "gmail_connect") || text_eq(
            p.as_str(),
            "workos",
        ),
        None => false,
    };
    if gmail {
        if let Some(t) = access_token {
            return SyncSource::GmailApi(t.clone());
        }
    }
    if imap_password.is_some() && imap_server.is_some() {
        SyncSource::Imap
    } else {
        SyncSource::Unconfigured
    }
}

/// The name of a temporary alias made at a time in microseconds:
/// `temp_<micros>`.
pub fn temp_alias_name(micros: i64) -> (r: String)
    ensures
        r@ == "temp_"@ + decimal(micros as int),
{
    let mut s = String::from_str("temp_");
    push_decimal(&mut s, micros);
    s
}

/// The mail address of an alias: `<alias>@localhost`.
pub fn alias_address(alias: &str) -> (r: String)
    ensures
        r@ == alias@ + "@localhost"@,
{
    let mut s = alias.to_owned();
    s.append("@localhost");
    s
}

/// Where the hosted sign-in callback sends the browser: the return
/// address with the session token and the user's description (JSON text,
/// form-encoded) as query parameters.
pub fn sso_return_location(base: &str, token: &str, user_json: &str) -> (r: String)
    ensures
        r@ == base@ + "/?token="@ + token@ + "&user="@ + form_urlencoded(user_json.spec_bytes()),
{
    let mut s = base.to_owned();
    s.append("/?token=");
    s.append(token);
    s.append("&user=");
    let encoded = urlencode(user_json.as_bytes());
    s.append(encoded.as_str());
    s
}

} // verus!
