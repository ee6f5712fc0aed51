//! Request templates, prepared (credential-bearing) requests, and raw
//! responses: the plain data that flows between the executor and whatever
//! transport the application wires in.

use vstd::prelude::*;

verus! {

/// The characters of an optional string.
pub open spec fn opt_view(o: Option<String>) -> Option<Seq<char>> {
    match o {
        Option::Some(s) => Option::Some(s@),
        Option::None => Option::None,
    }
}

/// The HTTP method of a request.
#[derive(Clone, Copy, Debug, PartialEq, Eq, Structural)]
pub enum Method {
    Get,
    Post,
    Put,
    Patch,
    Delete,
}

/// What an endpoint wrapper hands to the executor: everything about a call
/// except the credential and the anti-forgery token, which the executor
/// attaches itself. Immutable once built; the executor copies it to retry.
#[derive(Debug, PartialEq, Eq)]
pub struct RequestTemplate {
    pub method: Method,
    pub url: String,
    /// Extra headers for fussy endpoints, as (name, value) pairs. The
    /// authentication headers are never listed here.
    pub headers: Vec<(String, String)>,
    pub body: Option<String>,
}

/// A request ready to be sent: the template's data plus the credential to
/// attach as the session cookie and the anti-forgery token to attach under
/// its dedicated header.
#[derive(Debug, PartialEq, Eq)]
pub struct PreparedRequest {
    pub method: Method,
    pub url: String,
    pub headers: Vec<(String, String)>,
    pub body: Option<String>,
    /// Attached as the roblosecurity session cookie when present.
    pub credential: Option<String>,
    /// Attached under the anti-forgery token header when present.
    pub xcsrf: Option<String>,
}

/// What the transport hands back for one send: the status code, the fresh
/// anti-forgery token embedded in the response headers if there was one, and
/// the response body.
#[derive(Debug, PartialEq, Eq)]
pub struct RawResponse {
    pub status: u16,
    pub xcsrf: Option<String>,
    pub body: String,
}

/// A copy of an optional string, equal to the original.
pub fn duplicate_opt_string(o: &Option<String>) -> (r: Option<String>)
    ensures
        r == *o,
{
    match o {
        Some(s) => Some(s.clone()),
        None => None,
    }
}

/// A copy of a header list, equal to the original.
pub fn duplicate_headers(headers: &Vec<(String, String)>) -> (r: Vec<(String, String)>)
    ensures
        r@ == headers@,
{
    let mut r: Vec<(String, String)> = Vec::new();
    let mut i: usize = 0;
    while i < headers.len()
        invariant
            i <= headers.len(),
            r@ =~= headers@.take(i as int),
        decreases headers.len() - i,
    {
        let name = headers[i].0.clone();
        let value = headers[i].1.clone();
        r.push((name, value));
        proof {
            assert(r@ =~= headers@.take(i as int + 1));
        }
        i = i + 1;
    }
    proof {
        assert(r@ =~= headers@);
    }
    r
}

/// Whether two templates carry the same request: same method, url, headers
/// and body.
pub open spec fn template_eq(a: RequestTemplate, b: RequestTemplate) -> bool {
    &&& a.method == b.method
    &&& a.url == b.url
    &&& a.headers@ == b.headers@
    &&& a.body == b.body
}

impl RequestTemplate {
    /// A copy of the template, carrying the same request as the original.
    pub fn duplicate(&self) -> (r: Self)
        ensures
            template_eq(r, *self),
    {
        RequestTemplate {
            method: self.method,
            url: self.url.clone(),
            headers: duplicate_headers(&self.headers),
            body: duplicate_opt_string(&self.body),
        }
    }
}

} // verus!
