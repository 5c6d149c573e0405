//! Recipient resolution: a local part names an account directly or
//! through an alias; an unknown one is kept as it is.

use vstd::prelude::*;

verus! {

/// The text that a byte string decodes to, invalid UTF-8 sequences
/// replaced.
pub uninterp spec fn lossy_text(b: Seq<u8>) -> Seq<char>;

/// Whether every byte is ASCII.
pub open spec fn is_ascii_bytes(b: Seq<u8>) -> bool {
    forall|i: int| 0 <= i < b.len() ==> b[i] < 128
}

/// Relies on `String::from_utf8_lossy`: valid UTF-8, and so ASCII, is
/// decoded as it is.
#[verifier::external_body]
pub(crate) fn text_of_bytes(b: &[u8]) -> (r: String)
    ensures
        r@ == lossy_text(b@),
        is_ascii_bytes(b@) ==> r@ == b@.map_values(|x: u8| x as char),
{
    String::from_utf8_lossy(b).into_owned()
}

/// The text of an optional string.
pub open spec fn opt_text(o: Option<String>) -> Option<Seq<char>> {
    match o {
        Some(s) => Some(s@),
        None => None,
    }
}

/// What the store's lookup returns for a token: the token itself when it
/// is an account id, else the owner of the alias it names, else nothing.
pub open spec fn lookup(
    accounts: Set<Seq<char>>,
    aliases: Map<Seq<char>, Seq<char>>,
    token: Seq<char>,
) -> Option<Seq<char>> {
    if accounts.contains(token) {
        Some(token)
    } else if aliases.dom().contains(token) {
        Some(aliases[token])
    } else {
        None
    }
}

/// Account ids and alias strings never collide, and every alias belongs to
/// an account.
pub open spec fn namespaces_disjoint(
    accounts: Set<Seq<char>>,
    aliases: Map<Seq<char>, Seq<char>>,
) -> bool {
    &&& forall|a: Seq<char>| aliases.dom().contains(a) ==> !accounts.contains(a)
    &&& forall|a: Seq<char>| aliases.dom().contains(a) ==> accounts.contains(#[trigger] aliases[a])
}

/// The account id for a token given what the lookup found: the match, or
/// the token itself unchanged.
pub open spec fn resolved(token: Seq<char>, found: Option<Seq<char>>) -> Seq<char> {
    match found {
        Some(id) => id,
        None => token,
    }
}

/// Resolves a recipient token to an account id from the lookup's answer.
pub fn resolve(token: &String, found: Option<String>) -> (r: String)
    ensures
        r@ == resolved(token@, opt_text(found)),
{
    match found {
        Some(id) => id,
        None => token.clone(),
    }
}

/// Resolution through the lookup yields the alias's owner for an alias,
/// never the alias text itself, and the token for an unknown token.
pub proof fn lemma_resolution(
    accounts: Set<Seq<char>>,
    aliases: Map<Seq<char>, Seq<char>>,
    token: Seq<char>,
)
    requires
        namespaces_disjoint(accounts, aliases),
    ensures
        aliases.dom().contains(token) ==> resolved(token, lookup(accounts, aliases, token))
            == aliases[token] && resolved(token, lookup(accounts, aliases, token)) != token,
        accounts.contains(token) ==> resolved(token, lookup(accounts, aliases, token)) == token,
        !accounts.contains(token) && !aliases.dom().contains(token) ==> resolved(
            token,
            lookup(accounts, aliases, token),
        ) == token,
{
    if aliases.dom().contains(token) {
        assert(accounts.contains(aliases[token]));
    }
}

} // verus!
