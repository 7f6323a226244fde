//! The wire form of one call: method, URL, optional body, and the headers
//! and body-inclusion rules of the transport adapter.
//!
//! Performing the call is the surrounding shell's concern; this module only
//! decides, verifiably, what goes out: every call carries the bearer
//! credential and a JSON content type, and only a `Post` carries a body.

use vstd::prelude::*;

verus! {

/// The HTTP methods the remote API is addressed with.
#[derive(Clone, Copy, Debug, PartialEq, Eq, Structural)]
pub enum Method {
    Post,
    Get,
    Delete,
}

/// One wire request, ready to be performed.
pub struct Request {
    pub method: Method,
    pub url: String,
    pub body: Option<String>,
}

impl Request {
    /// A wire request as given: nothing is validated or rewritten here.
    pub fn new(method: Method, url: &str, body: Option<String>) -> (r: Self)
        ensures
            r.method == method,
            r.url@ == url@,
            r.body == body,
    {
        Request { method, url: String::from_str(url), body }
    }
}

/// The headers attached to every call: the bearer credential and the JSON
/// content type, in that order.
pub fn wire_headers(credential: &str) -> (r: Vec<(String, String)>)
    ensures
        r@.len() == 2,
        r@[0].0@ == "Authorization"@,
        r@[0].1@ == "Bearer "@ + credential@,
        r@[1].0@ == "Content-Type"@,
        r@[1].1@ == "application/json"@,
{
    let auth = String::from_str("Bearer ").concat(credential);
    let mut r: Vec<(String, String)> = Vec::new();
    r.push((String::from_str("Authorization"), auth));
    r.push((String::from_str("Content-Type"), String::from_str("application/json")));
    r
}

/// The body that actually goes out: only a `Post` carries one.
pub fn outgoing_body(r: &Request) -> (b: Option<String>)
    ensures
        b == (if r.method is Post {
            r.body
        } else {
            None::<String>
        }),
{
    match r.method {
        Method::Post => match &r.body {
            Some(s) => Some(s.clone()),
            None => None,
        },
        _ => None,
    }
}

} // verus!
