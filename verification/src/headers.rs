//! Construction of the authorization header set for a retrieval request.
//!
//! The header set holds exactly one entry, `Authorization: Bearer <token>`,
//! built fresh per request. The only validation at this stage is that the
//! bearer string can be encoded as an HTTP header value.

use vstd::prelude::*;
use vstd::string::StringExecFns;

use crate::errors::{ErrorKind, RetrieverError};
use crate::retriever::ConfigRetrieverArgs;

verus! {

#[verifier::external_type_specification]
#[verifier::external_body]
pub struct ExHeaderValue(reqwest::header::HeaderValue);

#[verifier::external_type_specification]
#[verifier::external_body]
#[verifier::reject_recursive_types(T)]
pub struct ExHeaderMap<T>(reqwest::header::HeaderMap<T>);

/// Whether a character may stand in an HTTP header value: the horizontal
/// tab, a visible ASCII character or the space, or any character beyond
/// ASCII (whose UTF-8 bytes all lie at 128 or above).
pub open spec fn valid_header_char(c: char) -> bool {
    c == '\t' || (c as int >= 32 && c as int != 127)
}

/// Whether every character of the string may stand in an HTTP header value.
pub open spec fn valid_header_value(s: Seq<char>) -> bool {
    forall|i: int| 0 <= i < s.len() ==> valid_header_char(s[i])
}

/// The characters a header value was made from.
pub uninterp spec fn header_value_chars(v: reqwest::header::HeaderValue) -> Seq<char>;

/// The entries a header map holds, keyed by lowercase header name.
pub uninterp spec fn header_entries(m: reqwest::header::HeaderMap) -> Map<Seq<char>, Seq<char>>;

/// The entries of a header map with none inserted yet.
pub open spec fn no_entries() -> Map<Seq<char>, Seq<char>> {
    Map::empty()
}

/// Relies on reqwest::header::HeaderValue::from_str, which succeeds exactly
/// when every byte of the string is the horizontal tab, in 32..=126, or at
/// least 128; a string satisfies `valid_header_value` exactly when its UTF-8
/// bytes all pass that test, since every byte of a multi-byte character lies
/// at 128 or above.
#[verifier::external_body]
fn header_value_from_str(s: &str) -> (r: Option<reqwest::header::HeaderValue>)
    ensures
        r is Some <==> valid_header_value(s@),
        r matches Some(v) ==> header_value_chars(v) == s@,
{
    match reqwest::header::HeaderValue::from_str(s) {
        Ok(v) => Some(v),
        Err(_) => None,
    }
}

/// Relies on reqwest::header::HeaderMap::new and insert: the fresh map holds
/// no entries, and insert binds the named header to the given value. Header
/// names are stored case-insensitively, modelled here by their lowercase
/// form. Insert can panic only when a map has grown to its maximum capacity,
/// which a map holding nothing is far from.
#[verifier::external_body]
fn singleton_authorization_map(value: reqwest::header::HeaderValue) -> (m:
    reqwest::header::HeaderMap)
    ensures
        header_entries(m) == no_entries().insert("authorization"@, header_value_chars(value)),
{
    let mut headers = reqwest::header::HeaderMap::new();
    headers.insert("Authorization", value);
    headers
}

/// The full value of the authorization header for a token.
pub open spec fn bearer_chars(token: Seq<char>) -> Seq<char> {
    "Bearer "@ + token
}

/// Builds the header set for a retrieval request: exactly one entry,
/// `Authorization: Bearer <access_token>`. Fails exactly when the token
/// holds a character that cannot stand in an HTTP header value.
pub fn get_headers(args: &ConfigRetrieverArgs) -> (r: Result<
    reqwest::header::HeaderMap,
    RetrieverError,
>)
    ensures
        r is Ok <==> valid_header_value(args.access_token@),
        r matches Ok(m) ==> header_entries(m) == no_entries().insert(
            "authorization"@,
            bearer_chars(args.access_token@),
        ),
        r matches Err(e) ==> e.kind == ErrorKind::UnexpectedError
            && e.message@ == "failed to create authorization header: invalid header value"@,
{
    let mut bearer = "Bearer ".to_owned();
    bearer.append(args.access_token.as_str());
    proof {
        reveal_strlit("Bearer ");
        assert(bearer@ == bearer_chars(args.access_token@));
        lemma_bearer_validity(args.access_token@);
    }
    match header_value_from_str(bearer.as_str()) {
        Some(value) => Ok(singleton_authorization_map(value)),
        None => Err(
            RetrieverError {
                kind: ErrorKind::UnexpectedError,
                message: "failed to create authorization header: invalid header value".to_owned(),
            },
        ),
    }
}

/// The bearer string for a token is a valid header value exactly when the
/// token itself is: the fixed prefix consists of valid characters only.
proof fn lemma_bearer_validity(token: Seq<char>)
    ensures
        valid_header_value(bearer_chars(token)) <==> valid_header_value(token),
{
    reveal_strlit("Bearer ");
    let b = bearer_chars(token);
    if valid_header_value(token) {
        assert forall|i: int| 0 <= i < b.len() implies valid_header_char(b[i]) by {
            if i < "Bearer "@.len() {
                assert(valid_header_char("Bearer "@[i]));
            } else {
                assert(b[i] == token[i - "Bearer "@.len()]);
            }
        }
    }
    if valid_header_value(b) {
        assert forall|i: int| 0 <= i < token.len() implies valid_header_char(token[i]) by {
            assert(token[i] == b[i + "Bearer "@.len()]);
            assert(valid_header_char(b[i + "Bearer "@.len()]));
        }
    }
}

} // verus!
