//! The caller authenticator: extracts a bearer token from the raw
//! `Authorization` header value and checks it against a snapshot of the
//! stored access tokens. This check gates every failover scan; it does no
//! I/O of its own. The admin-session claims are also built here.

use vstd::prelude::*;

use crate::errors::ErrorKind;
use crate::models::{ApiToken, Claims};

verus! {

/// The literal scheme prefix a well-formed header must carry: `Bearer `,
/// case-sensitive, with a single trailing space.
pub open spec fn spec_bearer_prefix() -> Seq<char> {
    seq!['B', 'e', 'a', 'r', 'e', 'r', ' ']
}

/// Whether a header value starts with the bearer scheme prefix.
pub open spec fn spec_has_bearer_prefix(h: Seq<char>) -> bool {
    h.len() >= 7 && h.subrange(0, 7) == spec_bearer_prefix()
}

/// The token carried by a well-formed header: everything after the prefix.
pub open spec fn spec_bearer_token(h: Seq<char>) -> Seq<char> {
    h.subrange(7, h.len() as int)
}

/// The view of an optional raw header value.
pub open spec fn spec_header_view(header: Option<&str>) -> Option<Seq<char>> {
    match header {
        Some(h) => Some(h@),
        None => None,
    }
}

/// Extracts the bearer token from the raw `Authorization` header value.
/// A missing header or one without the exact `Bearer ` prefix is rejected;
/// nothing else about the token's shape is checked here.
pub fn parse_bearer_token(header: Option<&str>) -> (r: Result<String, ErrorKind>)
    ensures
        match r {
            Ok(t) => {
                &&& header is Some
                &&& spec_has_bearer_prefix(header->0@)
                &&& t@ == spec_bearer_token(header->0@)
            },
            Err(k) => {
                &&& k == ErrorKind::MissingOrMalformedCredential
                &&& (header is None || !spec_has_bearer_prefix(header->0@))
            },
        },
{
    match header {
        None => Err(ErrorKind::MissingOrMalformedCredential),
        Some(h) => {
            let n = h.unicode_len();
            if n < 7 {
                return Err(ErrorKind::MissingOrMalformedCredential);
            }
            if h.get_char(0) != 'B' || h.get_char(1) != 'e' || h.get_char(2) != 'a'
                || h.get_char(3) != 'r' || h.get_char(4) != 'e' || h.get_char(5) != 'r'
                || h.get_char(6) != ' ' {
                return Err(ErrorKind::MissingOrMalformedCredential);
            }
            assert(h@.subrange(0, 7) =~= spec_bearer_prefix());
            let token = h.substring_char(7, n);
            Ok(String::from_str(token))
        },
    }
}

/// Whether some stored access token's secret equals the presented one.
pub open spec fn spec_token_in_store(tokens: Seq<ApiToken>, secret: Seq<char>) -> bool {
    exists|i: int| 0 <= i < tokens.len() && tokens[i].token@ == secret
}

/// Membership check of a presented secret against a snapshot of the stored
/// access tokens: `Ok` exactly when some stored token matches.
pub fn validate_api_token(tokens: &Vec<ApiToken>, secret: &str) -> (r: Result<(), ErrorKind>)
    ensures
        r is Ok <==> spec_token_in_store(tokens@, secret@),
        r is Err ==> r->Err_0 == ErrorKind::InvalidCredential,
{
    let presented = String::from_str(secret);
    let n = tokens.len();
    let mut i: usize = 0;
    while i < n
        invariant
            n == tokens@.len(),
            0 <= i <= n,
            presented@ == secret@,
            forall|j: int| 0 <= j < i ==> tokens@[j].token@ != secret@,
        decreases n - i,
    {
        if tokens[i].token == presented {
            return Ok(());
        }
        i += 1;
    }
    Err(ErrorKind::InvalidCredential)
}

/// The outcome of the whole authentication step on a raw header value and a
/// token-store snapshot.
pub open spec fn spec_authenticate(header: Option<Seq<char>>, tokens: Seq<ApiToken>) -> Result<
    (),
    ErrorKind,
> {
    match header {
        None => Err(ErrorKind::MissingOrMalformedCredential),
        Some(h) => if !spec_has_bearer_prefix(h) {
            Err(ErrorKind::MissingOrMalformedCredential)
        } else if !spec_token_in_store(tokens, spec_bearer_token(h)) {
            Err(ErrorKind::InvalidCredential)
        } else {
            Ok(())
        },
    }
}

/// The full authentication step: header syntax first, then membership of the
/// extracted token in the store snapshot. Runs before any upstream work.
pub fn authenticate(header: Option<&str>, tokens: &Vec<ApiToken>) -> (r: Result<(), ErrorKind>)
    ensures
        r == spec_authenticate(spec_header_view(header), tokens@),
{
    let token = match parse_bearer_token(header) {
        Err(k) => {
            return Err(k);
        },
        Ok(token) => token,
    };
    let r = validate_api_token(tokens, token.as_str());
    proof {
        if r is Ok {
            assert(r->Ok_0 == ());
        }
    }
    r
}

/// How long an admin session lasts, in seconds.
pub open spec fn spec_session_seconds() -> int {
    86400
}

/// Builds the admin-session claims for a subject at a given moment: the
/// expiry is one day past `now`. `None` only when that expiry does not fit
/// the claims' timestamp type, which no sane clock value produces.
pub fn claims_for(user_id: &str, now: i64) -> (r: Option<Claims>)
    ensures
        r is Some <==> 0 <= now + spec_session_seconds() <= usize::MAX,
        r matches Some(c) ==> c.sub@ == user_id@ && c.exp == now + spec_session_seconds(),
{
    let expiry: i128 = now as i128 + 86400;
    if 0 <= expiry && expiry <= usize::MAX as i128 {
        Some(Claims { sub: String::from_str(user_id), exp: expiry as usize })
    } else {
        None
    }
}

} // verus!
