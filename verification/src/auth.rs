//! The Authorization header value sent with every request: the
//! credential, Basic-auth-encoded.

use vstd::prelude::*;
use vstd::string::StringExecFns;

verus! {

/// The base64 encoding (standard alphabet, padded) of the text's UTF-8
/// bytes. A function of the text alone.
pub uninterp spec fn base64_of(s: Seq<char>) -> Seq<char>;

/// Relies on base64's `Engine::encode` with the `STANDARD` engine
/// (RFC 4648 alphabet, padded): encodes the credential's UTF-8 bytes,
/// a function of the text alone; an empty input encodes to an empty
/// string.
#[verifier::external_body]
fn base64_encode(s: &str) -> (r: String)
    ensures
        r@ == base64_of(s@),
        s@.len() == 0 ==> r@.len() == 0,
{
    base64::Engine::encode(&base64::engine::general_purpose::STANDARD, s.as_bytes())
}

/// The value of the Authorization header for this credential:
/// `Basic ` followed by the credential's base64 encoding.
pub fn auth_header_value(credential: &str) -> (r: String)
    ensures
        r@ == "Basic "@ + base64_of(credential@),
{
    let mut s: String = String::from_str("Basic ");
    let encoded = base64_encode(credential);
    s.append(encoded.as_str());
    s
}

} // verus!
