//! What a transport computes around the request that it sends: the value of
//! the `Authorization` header before, and the JSON of the body after.

use crate::client::error::ClientError;
use serde_json::Value;
use vstd::prelude::*;
use vstd::utf8::encode_utf8;

verus! {

/// The Base64 text of `input`, standard alphabet, with padding: what
/// `base64::encode_config` returns for it with `base64::STANDARD`, as bytes.
pub uninterp spec fn base64_standard(input: Seq<u8>) -> Seq<u8>;

/// The JSON value that the text `body` holds, or `None` where it holds none:
/// what `serde_json::from_slice` returns for it.
pub uninterp spec fn json_parsed(body: Seq<u8>) -> Option<Value>;

/// Whether the Base64 text of `len` bytes has a length that a `usize` holds.
pub open spec fn base64_fits(len: nat) -> bool {
    len / 3 * 4 + 4 <= usize::MAX
}

/// `base64::encode_config` with `base64::STANDARD`: the result is the text
/// named [`base64_standard`].  The function panics where the length of the
/// text overflows a `usize`; such a call is ruled out.
#[verifier::external_body]
fn base64_encode(input: &[u8]) -> (r: Vec<u8>)
    requires
        base64_fits(input@.len()),
    ensures
        r@ == base64_standard(input@),
{
    base64::encode_config(input, base64::STANDARD).into_bytes()
}

/// `serde_json::from_slice` for a `serde_json::Value`: the result is the value
/// named [`json_parsed`], or an error where there is none.
#[verifier::external_body]
fn json_from_slice(body: &[u8]) -> (r: Result<Value, serde_json::Error>)
    ensures
        match r {
            Ok(json) => json_parsed(body@) == Some(json),
            Err(_) => json_parsed(body@) is None,
        },
{
    serde_json::from_slice(body)
}

/// The bytes of `Basic `, the scheme that the header value starts with.
pub open spec fn basic_scheme() -> Seq<u8> {
    seq![66u8, 97u8, 115u8, 105u8, 99u8, 32u8]
}

/// The credentials as HTTP Basic authentication writes them before encoding:
/// the client ID, a colon, the client secret.
pub open spec fn basic_credentials(client_id: Seq<char>, client_secret: Seq<char>) -> Seq<u8> {
    encode_utf8(client_id) + seq![58u8] + encode_utf8(client_secret)
}

/// The value of the `Authorization` header that carries the client credentials
/// as HTTP Basic authentication.
pub open spec fn basic_auth_header(client_id: Seq<char>, client_secret: Seq<char>) -> Seq<u8> {
    basic_scheme() + base64_standard(basic_credentials(client_id, client_secret))
}

/// Computes the value of the `Authorization` header for the client
/// credentials, or `None` where they are too long to encode.
pub fn basic_auth(client_id: &str, client_secret: &str) -> (r: Option<Vec<u8>>)
    ensures
        match r {
            Some(header) => header@ == basic_auth_header(client_id@, client_secret@),
            None => !base64_fits(basic_credentials(client_id@, client_secret@).len()),
        },
{
    let id = client_id.as_bytes();
    let secret = client_secret.as_bytes();
    let mut credentials: Vec<u8> = Vec::new();
    credentials.extend_from_slice(id);
    credentials.push(58u8);
    credentials.extend_from_slice(secret);
    assert(credentials@ =~= basic_credentials(client_id@, client_secret@));
    if credentials.len() / 3 > (usize::MAX - 4) / 4 {
        return None;
    }
    let mut encoded = base64_encode(credentials.as_slice());
    let mut header: Vec<u8> = Vec::new();
    header.push(66u8);
    header.push(97u8);
    header.push(115u8);
    header.push(105u8);
    header.push(99u8);
    header.push(32u8);
    assert(header@ =~= basic_scheme());
    header.append(&mut encoded);
    Some(header)
}

/// Reads the body of a response as JSON.
pub fn decode_json(body: &[u8]) -> (r: Result<Value, ClientError>)
    ensures
        match r {
            Ok(json) => json_parsed(body@) == Some(json),
            Err(error) => error is Json && json_parsed(body@) is None,
        },
{
    match json_from_slice(body) {
        Ok(json) => Ok(json),
        Err(error) => Err(ClientError::Json(error)),
    }
}

} // verus!
