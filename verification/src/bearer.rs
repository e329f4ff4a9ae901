//! The token extractor: reads a bearer credential out of the raw value of an
//! `Authorization` header.
//!
//! The header grammar is that of the `headers` crate, which does the decoding.
//! What it accepts is written down here as [`is_bearer`] and [`token_of`]; the
//! verified code around the call decides between a token and a rejection.

use headers::authorization::Bearer;
use headers::{Authorization, Header, HeaderValue};
use vstd::prelude::*;

verus! {

/// The scheme name and the space that parts it from the token: `Bearer `.
pub open spec fn scheme_prefix() -> Seq<char> {
    seq!['B', 'e', 'a', 'r', 'e', 'r', ' ']
}

/// Whether `b` may stand in a header value that is read as text: a printable
/// ASCII character, the space among them, or a tab.
pub open spec fn is_text_byte(b: u8) -> bool {
    (0x20 <= b && b < 0x7f) || b == 0x09
}

/// The bytes of an ASCII text as characters, one for one.
pub open spec fn text_of(bytes: Seq<u8>) -> Seq<char> {
    Seq::new(bytes.len(), |i: int| bytes[i] as char)
}

/// Whether a header value carries a bearer credential: it starts with
/// `Bearer` and one space, spelled exactly so, and all of it is text.
pub open spec fn is_bearer(value: Seq<u8>) -> bool {
    &&& value.len() >= 7
    &&& text_of(value.subrange(0, 7)) == scheme_prefix()
    &&& forall|i: int| 0 <= i < value.len() ==> is_text_byte(#[trigger] value[i])
}

/// The token of a bearer credential: all that follows `Bearer` and its space,
/// untrimmed and possibly empty.
pub open spec fn token_of(value: Seq<u8>) -> Seq<char>
    recommends
        is_bearer(value),
{
    text_of(value.subrange(7, value.len() as int))
}

/// What the extractor makes of a request: the token where the header is
/// present and carries a bearer credential, nothing otherwise.
pub open spec fn extracted(header: Option<Seq<u8>>) -> Option<Seq<char>> {
    match header {
        Some(value) => if is_bearer(value) {
            Some(token_of(value))
        } else {
            None
        },
        None => None,
    }
}

/// The header as contracts see it.
pub open spec fn header_view(header: Option<&[u8]>) -> Option<Seq<u8>> {
    match header {
        Some(value) => Some(value@),
        None => None,
    }
}

/// Why a request was turned away. There is one reason only: no usable bearer
/// credential came with it.
#[derive(Clone, Copy, Debug, PartialEq, Eq, Structural)]
pub enum Rejection {
    Unauthorized,
}

impl Rejection {
    /// The HTTP status that answers a rejected request; the answer has no body.
    pub fn status(&self) -> (code: u16)
        ensures
            code == 401,
    {
        401
    }
}

/// Decodes one `Authorization` header value as `headers` does for
/// `Authorization<Bearer>`: `HeaderValue::from_bytes`, then `Header::decode`
/// on that single value, then `Bearer::token`.
///
/// Trusted: the value is accepted exactly when it starts with `Bearer` and a
/// space and every byte of it is printable ASCII or a tab (the bytes for which
/// `HeaderValue::to_str` succeeds, all of which `from_bytes` admits); the token
/// is the rest of the value after those seven bytes, as it stands.
#[verifier::external_body]
fn decode_bearer(value: &[u8]) -> (token: Option<String>)
    ensures
        token is Some <==> is_bearer(value@),
        token matches Some(t) ==> t@ == token_of(value@),
{
    let value = HeaderValue::from_bytes(value).ok()?;
    let credentials = Authorization::<Bearer>::decode(&mut std::iter::once(&value)).ok()?;
    Some(credentials.token().to_owned())
}

/// Extracts the bearer token from the raw `Authorization` header of a request,
/// `None` standing for a request without that header.
///
/// A missing header and a header that is not a bearer credential are both
/// answered with [`Rejection::Unauthorized`].
pub fn extract_token(header: Option<&[u8]>) -> (outcome: Result<String, Rejection>)
    ensures
        match outcome {
            Ok(token) => extracted(header_view(header)) == Some(token@),
            Err(rejection) => extracted(header_view(header)) is None && rejection
                == Rejection::Unauthorized,
        },
{
    match header {
        Some(value) => match decode_bearer(value) {
            Some(token) => Ok(token),
            None => Err(Rejection::Unauthorized),
        },
        None => Err(Rejection::Unauthorized),
    }
}

/// A header that is not a bearer credential is treated exactly as a missing
/// header: the extractor makes the same of both.
pub proof fn lemma_not_bearer_as_missing(value: Seq<u8>)
    requires
        !is_bearer(value),
    ensures
        extracted(Some(value)) == extracted(None),
{
}

} // verus!
