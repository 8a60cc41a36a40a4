//! The remote-write endpoint: parsing the configured URL.
//!
//! The wire encoder wants the endpoint as a parsed URL value, so the check
//! that the configuration holds one happens here, once per cycle, and a
//! malformed URL surfaces as the cycle's `Encoding` error.

use vstd::prelude::*;
use vstd::string::StringExecFns;
use crate::error::SwError;

verus! {

#[verifier::external_type_specification]
#[verifier::external_body]
pub struct ExUrl(url::Url);

#[verifier::external_type_specification]
#[verifier::external_body]
pub struct ExUrlParseError(url::ParseError);

/// Whether a string is an absolute URL the `url` crate accepts. A function of
/// the string alone.
pub uninterp spec fn url_accepted(s: Seq<char>) -> bool;

/// The URL value the `url` crate parses an accepted string into. A function
/// of the string alone.
pub uninterp spec fn parsed_url_of(s: Seq<char>) -> url::Url;

/// Relies on `url::Url::parse`: it returns `Ok` exactly on the strings that
/// parse as absolute URLs, and both the acceptance and the parsed value are
/// functions of the string alone.
#[verifier::external_body]
fn parse_url(s: &str) -> (r: Result<url::Url, url::ParseError>)
    ensures
        r is Ok <==> url_accepted(s@),
        r matches Ok(u) ==> u == parsed_url_of(s@),
{
    url::Url::parse(s)
}

/// Parses the configured remote-write URL. Succeeds exactly on the strings
/// the `url` crate accepts as absolute URLs, returning the parsed value of
/// the configured string itself; anything else is this cycle's `Encoding`
/// error, naming the offending string.
pub fn parse_endpoint(s: &str) -> (r: Result<url::Url, SwError>)
    ensures
        r is Ok <==> url_accepted(s@),
        r matches Ok(u) ==> u == parsed_url_of(s@),
        r matches Err(e) ==> e matches SwError::Encoding(m) && m@ == "invalid remote write URL: "@
            + s@,
{
    match parse_url(s) {
        Ok(u) => Ok(u),
        Err(_) => Err(
            SwError::Encoding(String::from_str("invalid remote write URL: ").concat(s)),
        ),
    }
}

} // verus!
