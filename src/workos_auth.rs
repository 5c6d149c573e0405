//! The hosted sign-in provider: its configuration, the user it reports and
//! the authorization URL that starts a sign-in.

use vstd::prelude::*;
use vstd::string::*;
use vstd::utf8::encode_utf8;

verus! {

/// Client configuration of the sign-in provider.
#[derive(Clone, Debug)]
pub struct WorkOSConfig {
    pub api_key: String,
    pub client_id: String,
    pub redirect_uri: String,
}

/// A signed-in user as the provider reports it.
#[derive(Clone, Debug)]
pub struct WorkOSUser {
    pub id: String,
    pub email: String,
    pub first_name: Option<String>,
    pub last_name: Option<String>,
    pub email_verified: bool,
}

/// The `application/x-www-form-urlencoded` serialization of a byte string.
pub uninterp spec fn form_urlencoded(b: Seq<u8>) -> Seq<char>;

/// Relies on `url::form_urlencoded::byte_serialize`, collected into one
/// string.
#[verifier::external_body]
pub(crate) fn urlencode(b: &[u8]) -> (r: String)
    ensures
        r@ == form_urlencoded(b@),
{
    url::form_urlencoded::byte_serialize(b).collect::<String>()
}

/// The callback address under a server's base URL.
pub open spec fn redirect_uri_for(server_url: Seq<char>) -> Seq<char> {
    server_url + "/auth/workos/callback"@
}

impl WorkOSConfig {
    /// A configuration whose callback lies under `server_url`.
    pub fn new(api_key: String, client_id: String, server_url: &str) -> (r: WorkOSConfig)
        ensures
            r.api_key == api_key,
            r.client_id == client_id,
            r.redirect_uri@ == redirect_uri_for(server_url@),
    {
        let mut redirect_uri = server_url.to_owned();
        redirect_uri.append("/auth/workos/callback");
        WorkOSConfig { api_key, client_id, redirect_uri }
    }
}

/// The hosted login page's URL for a configuration and a state value.
pub open spec fn auth_url(client_id: Seq<char>, redirect_uri: Seq<u8>, state: Seq<u8>) -> Seq<char> {
    "https://api.workos.com/user_management/authorize?response_type=code&client_id="@ + client_id
        + "&redirect_uri="@ + form_urlencoded(redirect_uri) + "&provider=authkit&state="@
        + form_urlencoded(state)
}

/// The URL of the hosted login page, which offers every enabled sign-in
/// method; `state` comes back unchanged on the callback.
pub fn get_auth_url(config: &WorkOSConfig, state: &str) -> (r: String)
    ensures
        r@ == auth_url(config.client_id@, encode_utf8(config.redirect_uri@), state.spec_bytes()),
{
    let mut url = String::from_str(
        "https://api.workos.com/user_management/authorize?response_type=code&client_id=",
    );
    url.append(config.client_id.as_str());
    url.append("&redirect_uri=");
    let redirect = urlencode(config.redirect_uri.as_str().as_bytes());
    url.append(redirect.as_str());
    url.append("&provider=authkit&state=");
    let encoded_state = urlencode(state.as_bytes());
    url.append(encoded_state.as_str());
    url
}

} // verus!
