//! Mail-provider OAuth: the tokens a code exchange yields and the XOAUTH2
//! initial response that logs a mailbox in with them.

use vstd::prelude::*;
use vstd::string::*;

verus! {

/// Tokens from an authorization-code exchange.
#[derive(Clone, Debug)]
pub struct OAuthTokens {
    pub access_token: String,
    pub refresh_token: Option<String>,
    /// Lifetime of the access token in seconds, where the provider gives it.
    pub expires_in: Option<u64>,
}

/// The standard, padded base64 encoding of a byte string.
pub uninterp spec fn base64_standard(b: Seq<u8>) -> Seq<char>;

/// Relies on `base64::Engine::encode` with the `STANDARD` engine: padded
/// encoding, four characters for each started group of three bytes (it
/// panics where that length overflows).
#[verifier::external_body]
fn encode_base64(b: &[u8]) -> (r: String)
    requires
        b@.len() <= usize::MAX / 2,
    ensures
        r@ == base64_standard(b@),
        r@.len() == 4 * ((b@.len() + 2) / 3),
{
    base64::Engine::encode(&base64::engine::general_purpose::STANDARD, b)
}

/// The bytes of `user=`.
pub open spec fn user_field() -> Seq<u8> {
    seq!['u' as u8, 's' as u8, 'e' as u8, 'r' as u8, '=' as u8]
}

/// The bytes of `\x01auth=Bearer `.
pub open spec fn auth_field() -> Seq<u8> {
    seq![
        1u8,
        'a' as u8,
        'u' as u8,
        't' as u8,
        'h' as u8,
        '=' as u8,
        'B' as u8,
        'e' as u8,
        'a' as u8,
        'r' as u8,
        'e' as u8,
        'r' as u8,
        ' ' as u8,
    ]
}

/// The XOAUTH2 initial response before encoding:
/// `user=<email>\x01auth=Bearer <token>\x01\x01`.
pub open spec fn xoauth2_payload(email: Seq<u8>, token: Seq<u8>) -> Seq<u8> {
    user_field() + email + auth_field() + token + seq![1u8, 1u8]
}

/// Appends the bytes of `src` to `dst`.
fn extend_bytes(dst: &mut Vec<u8>, src: &[u8])
    ensures
        final(dst)@ == old(dst)@ + src@,
{
    let mut i: usize = 0;
    while i < src.len()
        invariant
            i <= src@.len(),
            dst@ == old(dst)@ + src@.subrange(0, i as int),
        decreases src@.len() - i,
    {
        dst.push(src[i]);
        i = i + 1;
        assert(dst@ =~= old(dst)@ + src@.subrange(0, i as int));
    }
    assert(src@.subrange(0, src@.len() as int) =~= src@);
}

/// The base64-encoded XOAUTH2 string for a mailbox login.
pub fn xoauth2_string(email: &str, access_token: &str) -> (r: String)
    requires
        email.spec_bytes().len() + access_token.spec_bytes().len() + 20 <= usize::MAX / 2,
    ensures
        r@ == base64_standard(xoauth2_payload(email.spec_bytes(), access_token.spec_bytes())),
{
    let mut payload: Vec<u8> = vec!['u' as u8, 's' as u8, 'e' as u8, 'r' as u8, '=' as u8];
    extend_bytes(&mut payload, email.as_bytes());
    let field: Vec<u8> = vec![
        1u8,
        'a' as u8,
        'u' as u8,
        't' as u8,
        'h' as u8,
        '=' as u8,
        'B' as u8,
        'e' as u8,
        'a' as u8,
        'r' as u8,
        'e' as u8,
        'r' as u8,
        ' ' as u8,
    ];
    extend_bytes(&mut payload, field.as_slice());
    extend_bytes(&mut payload, access_token.as_bytes());
    payload.push(1u8);
    payload.push(1u8);
    assert(payload@ =~= xoauth2_payload(email.spec_bytes(), access_token.spec_bytes()));
    encode_base64(payload.as_slice())
}

} // verus!
