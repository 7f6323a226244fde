//! Typed client core for a transactional-email REST service.
//!
//! The crate turns typed domain requests into wire-format HTTP request
//! descriptions, and classifies and decodes wire responses back into typed
//! results or typed errors.  It performs no I/O itself: a thin asynchronous
//! shell around the crate owns the transport and feeds raw status codes and
//! body texts back into the verified functions here.
//!
//! Failure kinds are distinct and never coerced into one another: a remote
//! diagnostic ([`Error::Resend`]), an undecodable body ([`Error::JSON`]),
//! and a transport failure ([`Error::Client`]) reported by the shell.

use vstd::prelude::*;

pub mod api_keys;
pub mod batch;
pub mod domains;
pub mod emails;
pub mod encode;
pub mod http;
pub mod json;
pub mod text;
pub mod urls;

use crate::json::JsonModel;
use crate::json::JsonValue;
use crate::json::model_of;
use crate::json::opt_u64_field;
use crate::json::opt_u64_field_ok;
use crate::json::parsed_json;
use crate::json::str_field;

verus! {

/// The default production endpoint of the remote service.
pub fn default_base_url() -> (r: &'static str)
    ensures
        r@ == "https://api.resend.com"@,
{
    "https://api.resend.com"
}

/// The only success status codes of the remote API.
pub open spec fn is_success_status(status: u16) -> bool {
    status == 200 || status == 201
}

/// Holds the configuration of the remote service: base URL and bearer
/// credential.  Immutable after construction; no I/O happens here.
pub struct Client {
    base_url: String,
    api_key: String,
}

impl Client {
    /// The configured base URL.
    pub closed spec fn base_url_spec(&self) -> Seq<char> {
        self.base_url@
    }

    /// The configured bearer credential.
    pub closed spec fn api_key_spec(&self) -> Seq<char> {
        self.api_key@
    }

    /// A client for the production endpoint holding the given credential.
    /// Construction never fails: the token is not validated locally.
    pub fn new(api_key: &str) -> (c: Self)
        ensures
            c.base_url_spec() == "https://api.resend.com"@,
            c.api_key_spec() == api_key@,
    {
        Client {
            base_url: String::from_str(default_base_url()),
            api_key: String::from_str(api_key),
        }
    }

    /// A client for another endpoint, for deployments that override the
    /// production base URL.
    pub fn new_with_base_url(api_key: &str, base_url: &str) -> (c: Self)
        ensures
            c.base_url_spec() == base_url@,
            c.api_key_spec() == api_key@,
    {
        Client { base_url: String::from_str(base_url), api_key: String::from_str(api_key) }
    }

    /// The configured base URL, for building endpoint paths.
    pub fn base_url(&self) -> (r: &str)
        ensures
            r@ == self.base_url_spec(),
    {
        self.base_url.as_str()
    }

    /// The configured bearer credential, for the transport headers.
    pub fn api_key(&self) -> (r: &str)
        ensures
            r@ == self.api_key_spec(),
    {
        self.api_key.as_str()
    }
}

/// The decoded shape of a non-success response body: the remote's own
/// diagnostic fields, carried verbatim.
#[derive(Debug)]
pub struct ResendErrorResponse {
    pub name: String,
    pub message: String,
    pub status_code: Option<u64>,
}

/// True when a JSON tree has the error-payload shape: string `name` and
/// `message`, and an optional numeric `status_code`.
pub open spec fn error_response_shape(v: JsonModel) -> bool {
    &&& str_field(v, "name"@) is Some
    &&& str_field(v, "message"@) is Some
    &&& opt_u64_field_ok(v, "status_code"@)
}

/// Field-by-field relation between a decoded error payload and the JSON
/// tree it came from.
pub open spec fn error_response_fits(e: ResendErrorResponse, v: JsonModel) -> bool {
    &&& str_field(v, "name"@) == Some(e.name@)
    &&& str_field(v, "message"@) == Some(e.message@)
    &&& opt_u64_field(v, "status_code"@) == e.status_code
}

impl ResendErrorResponse {
    /// Decodes the error payload from a JSON tree.
    pub fn from_json(v: &JsonValue) -> (r: Option<Self>)
        ensures
            match r {
                Some(e) => error_response_shape(model_of(*v)) && error_response_fits(
                    e,
                    model_of(*v),
                ),
                None => !error_response_shape(model_of(*v)),
            },
    {
        let name = match crate::json::get_str_field(v, "name") {
            Some(s) => s,
            None => {
                return None;
            },
        };
        let message = match crate::json::get_str_field(v, "message") {
            Some(s) => s,
            None => {
                return None;
            },
        };
        let status_code = match crate::json::get_opt_u64_field(v, "status_code") {
            Some(o) => o,
            None => {
                return None;
            },
        };
        Some(ResendErrorResponse { name, message, status_code })
    }
}

/// One distinct failure kind per outcome; none is ever coerced into
/// another, and the embedded diagnostic text is surfaced unchanged.
#[derive(Debug)]
pub enum Error {
    /// The remote answered with a non-success status and a decodable
    /// diagnostic payload.
    Resend(ResendErrorResponse),
    /// A body could not be decoded: either the error payload of a
    /// non-success response, or the expected result shape of a success
    /// response.
    JSON(String),
    /// The transport failed before a response arrived; constructed by the
    /// shell that owns the transport, never by the crate itself.
    Client(String),
    /// Reserved; no operation reports it.
    Internal,
}

/// True when the error payload of a non-success response cannot be decoded:
/// the body is not JSON, or not of the error-payload shape.
pub open spec fn error_body_undecodable(body: Seq<char>) -> bool {
    match parsed_json(body) {
        None => true,
        Some(v) => !error_response_shape(v),
    }
}

/// True when a success body cannot be decoded into the shape the operation
/// expects.
pub open spec fn success_body_undecodable(body: Seq<char>, shape: spec_fn(JsonModel) -> bool) -> bool {
    match parsed_json(body) {
        None => true,
        Some(v) => !shape(v),
    }
}

/// What a completed operation reports as [`Error::Resend`]: a non-success
/// status whose body decodes into the remote's diagnostic payload.
pub open spec fn remote_error_case(status: u16, body: Seq<char>, e: Error) -> bool {
    &&& !is_success_status(status)
    &&& e matches Error::Resend(er)
    &&& parsed_json(body) matches Some(v)
    &&& error_response_shape(v)
    &&& error_response_fits(er, v)
}

/// Classifies one raw exchange: status 200 and 201 are the only success
/// codes and hand the body back unparsed; any other status decodes the body
/// as a remote diagnostic, and an undecodable diagnostic is itself reported
/// as a typed outcome, never as a fault.
pub fn interpret(status: u16, body: &str) -> (r: Result<String, Error>)
    ensures
        match r {
            Ok(b) => is_success_status(status) && b@ == body@,
            Err(e) => !is_success_status(status) && (match e {
                Error::Resend(_) => remote_error_case(status, body@, e),
                Error::JSON(_) => error_body_undecodable(body@),
                _ => false,
            }),
        },
{
    if status == 200 || status == 201 {
        Ok(String::from_str(body))
    } else {
        match crate::json::parse_json(body) {
            Ok(v) => match ResendErrorResponse::from_json(&v) {
                Some(e) => Err(Error::Resend(e)),
                None => Err(
                    Error::JSON(String::from_str("error body does not have the expected shape")),
                ),
            },
            Err(m) => Err(Error::JSON(m)),
        }
    }
}

} // verus!
