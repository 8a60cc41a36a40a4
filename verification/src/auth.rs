//! Basic-authentication header construction.

use vstd::prelude::*;
use vstd::string::StringExecFns;
use base64::Engine;

verus! {

/// The standard base64 encoding (RFC 4648, with padding) of a string's UTF-8
/// bytes. The encoding is a function of the string's characters alone.
pub uninterp spec fn base64_of(s: Seq<char>) -> Seq<char>;

/// Relies on base64's `Engine::encode` with the `STANDARD` engine: the
/// standard padded base64 encoding of the input bytes, a pure function of the
/// input. The length bound keeps the engine's output-size computation, which
/// panics on overflow, far from its limit even for four-byte characters.
#[verifier::external_body]
fn base64_standard(s: &str) -> (r: String)
    requires
        s@.len() <= usize::MAX / 16,
    ensures
        r@ == base64_of(s@),
{
    base64::engine::general_purpose::STANDARD.encode(s)
}

/// The credential pair as the Basic scheme wants it before encoding:
/// `username:password`.
pub open spec fn credential_pair(username: Seq<char>, password: Seq<char>) -> Seq<char> {
    username + ":"@ + password
}

/// The value of the `Authorization` header: `Basic ` followed by the base64
/// encoding of `username:password`. Cannot fail; any text credentials encode.
pub fn basic_auth_value(username: &str, password: &str) -> (r: String)
    requires
        username@.len() + password@.len() + 1 <= usize::MAX / 16,
    ensures
        r@ == "Basic "@ + base64_of(credential_pair(username@, password@)),
{
    proof {
        reveal_strlit(":");
    }
    let mut pair = String::from_str(username);
    pair.append(":");
    pair.append(password);
    let encoded = base64_standard(pair.as_str());
    let mut r = String::from_str("Basic ");
    r.append(encoded.as_str());
    r
}

} // verus!
