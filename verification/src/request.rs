//! The transport-ready request: what the wire encoder produced, plus the
//! authentication this core layers on top, and the classification of a
//! delivery attempt's report.
//!
//! The wire encoder itself works on the floating-point samples and stays with
//! the process around this crate; what comes back from it is the plain
//! request below, and everything done to it afterwards is proved here.

use vstd::prelude::*;
use vstd::string::StringExecFns;
use crate::auth::base64_of;
use crate::auth::basic_auth_value;
use crate::auth::credential_pair;
use crate::error::SwError;

verus! {

/// One HTTP header.
#[derive(Debug, Clone)]
pub struct Header {
    pub name: String,
    pub value: String,
}

/// A prepared HTTP request: method, target URL, headers and encoded body, as
/// plain values.
#[derive(Debug, Clone)]
pub struct HttpRequest {
    pub method: String,
    pub url: String,
    pub headers: Vec<Header>,
    pub body: Vec<u8>,
}

/// The headers with every `Authorization` header removed, order otherwise
/// kept.
pub open spec fn without_authorization(hs: Seq<Header>) -> Seq<Header>
    decreases hs.len(),
{
    if hs.len() == 0 {
        Seq::empty()
    } else if hs.first().name@ == "Authorization"@ {
        without_authorization(hs.drop_first())
    } else {
        seq![hs.first()] + without_authorization(hs.drop_first())
    }
}

/// Layers Basic authentication onto a built request: inserts an
/// `Authorization` header carrying `Basic ` and the base64-encoded
/// credentials, overwriting any `Authorization` header already present.
/// Method, URL and body pass through untouched, as does every other header.
pub fn with_authorization(req: HttpRequest, username: &str, password: &str) -> (r: HttpRequest)
    requires
        username@.len() + password@.len() + 1 <= usize::MAX / 16,
    ensures
        r.method@ == req.method@,
        r.url@ == req.url@,
        r.body@ == req.body@,
        r.headers@.len() == without_authorization(req.headers@).len() + 1,
        r.headers@.drop_last() == without_authorization(req.headers@),
        r.headers@.last().name@ == "Authorization"@,
        r.headers@.last().value@ == "Basic "@ + base64_of(
            credential_pair(username@, password@),
        ),
{
    let HttpRequest { method, url, headers, body } = req;
    let auth_name = String::from_str("Authorization");
    let mut kept: Vec<Header> = Vec::new();
    let n = headers.len();
    assert(headers@.skip(0) =~= headers@);
    for i in 0..n
        invariant
            n == headers@.len(),
            auth_name@ == "Authorization"@,
            kept@ + without_authorization(headers@.skip(i as int)) == without_authorization(
                headers@,
            ),
    {
        let h = &headers[i];
        assert(headers@.skip(i as int).first() == headers@[i as int]);
        assert(headers@.skip(i as int).drop_first() =~= headers@.skip(i + 1));
        if !(h.name == auth_name) {
            let copy = Header { name: h.name.clone(), value: h.value.clone() };
            assert(copy == headers@[i as int]);
            kept.push(copy);
            assert(kept@ + without_authorization(headers@.skip(i + 1)) =~= without_authorization(
                headers@,
            ));
        }
    }
    assert(headers@.skip(n as int) =~= Seq::<Header>::empty());
    assert(kept@ =~= without_authorization(headers@));
    let value = basic_auth_value(username, password);
    kept.push(Header { name: auth_name, value });
    assert(kept@.drop_last() =~= without_authorization(headers@));
    HttpRequest { method, url, headers: kept, body }
}

/// The report of one delivery attempt that produced a response. Any response
/// received — 2xx or not — is a completed attempt in this design; the status
/// code is only observed, never classified.
#[derive(Debug, Clone, PartialEq, Eq, Structural)]
pub struct DeliveryOutcome {
    pub status_code: u16,
}

/// The Delivery Client's verdict on what the transport reported back: a
/// received response of any status is a completed attempt carrying that
/// status, and a failure to obtain a response at all — connection, DNS, TLS
/// or timeout — is a `Transport` error carrying the transport's words.
pub fn complete_delivery(send_result: Result<u16, String>) -> (r: Result<
    DeliveryOutcome,
    SwError,
>)
    ensures
        send_result matches Ok(code) ==> r matches Ok(o) && o == (DeliveryOutcome {
            status_code: code,
        }),
        send_result matches Err(m) ==> r matches Err(e) && e matches SwError::Transport(d)
            && d@ == m@,
{
    match send_result {
        Ok(code) => Ok(DeliveryOutcome { status_code: code }),
        Err(m) => Err(SwError::Transport(m)),
    }
}

} // verus!
