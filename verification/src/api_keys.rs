//! The API key resource: create, list and delete.
//!
//! Each operation splits into a pure request-building step (`*_request`) and
//! a pure response-interpreting step (`*_result`); the shell that owns the
//! transport performs the call in between.  Building a request serializes
//! the body before any transport work can happen.

use vstd::prelude::*;

use crate::Client;
use crate::Error;
use crate::encode::quoted;
use crate::http::Method;
use crate::http::Request;
use crate::is_success_status;
use crate::json::JsonModel;
use crate::json::JsonValue;
use crate::json::arr_field;
use crate::json::model_of;
use crate::json::models_of;
use crate::json::lemma_models_of;
use crate::json::parsed_json;
use crate::json::str_field;
use crate::remote_error_case;
use crate::success_body_undecodable;
use crate::error_body_undecodable;

verus! {

/// The access level of an API key.  Its only observable form is its wire
/// string: `"full_access"` or `"sending_access"`, never a numeric or
/// structural form.
#[derive(Clone, Copy, Debug, PartialEq, Eq, Structural)]
pub enum Permission {
    FullAccess,
    SendingAccess,
}

impl Permission {
    /// The wire string of a permission.
    pub open spec fn wire_spec(self) -> Seq<char> {
        match self {
            Permission::FullAccess => "full_access"@,
            Permission::SendingAccess => "sending_access"@,
        }
    }

    /// The literal this permission serializes as.
    pub fn as_str(&self) -> (r: &'static str)
        ensures
            r@ == self.wire_spec(),
    {
        match self {
            Permission::FullAccess => "full_access",
            Permission::SendingAccess => "sending_access",
        }
    }
}

/// The body of the create operation: `{name, permission, domain_id}`.
pub struct CreateRequest {
    pub name: String,
    pub permission: Permission,
    pub domain_id: String,
}

impl CreateRequest {
    /// The serialized body, character by character: every field is always
    /// present, and the permission appears as its bare literal string.
    pub open spec fn json_spec(self) -> Seq<char> {
        "{\"name\":"@ + quoted(self.name@) + ",\"permission\":\""@ + self.permission.wire_spec()
            + "\",\"domain_id\":"@ + quoted(self.domain_id@) + "}"@
    }

    /// Serializes the body.  Serialization is total: it cannot fail.
    pub fn to_json(&self) -> (r: String)
        ensures
            r@ == self.json_spec(),
    {
        let mut out: Vec<char> = Vec::new();
        crate::text::push_str_chars(&mut out, "{\"name\":");
        crate::encode::push_quoted(&mut out, self.name.as_str());
        crate::text::push_str_chars(&mut out, ",\"permission\":\"");
        crate::text::push_str_chars(&mut out, self.permission.as_str());
        crate::text::push_str_chars(&mut out, "\",\"domain_id\":");
        crate::encode::push_quoted(&mut out, self.domain_id.as_str());
        crate::text::push_str_chars(&mut out, "}");
        proof {
            assert(out@ =~= self.json_spec());
        }
        crate::text::chars_to_string(&out)
    }
}

/// Success shape of the create operation: `{id, token}`.
pub struct CreateResponse {
    pub id: String,
    pub token: String,
}

/// True when a JSON tree has the create-response shape.
pub open spec fn create_response_shape(v: JsonModel) -> bool {
    &&& str_field(v, "id"@) is Some
    &&& str_field(v, "token"@) is Some
}

/// Field-by-field relation between a decoded create response and its tree.
pub open spec fn create_response_fits(c: CreateResponse, v: JsonModel) -> bool {
    &&& str_field(v, "id"@) == Some(c.id@)
    &&& str_field(v, "token"@) == Some(c.token@)
}

impl CreateResponse {
    /// Decodes a create response from a JSON tree.
    pub fn from_json(v: &JsonValue) -> (r: Option<Self>)
        ensures
            match r {
                Some(c) => create_response_fits(c, model_of(*v)),
                None => !create_response_shape(model_of(*v)),
            },
    {
        let id = match crate::json::get_str_field(v, "id") {
            Some(s) => s,
            None => {
                return None;
            },
        };
        let token = match crate::json::get_str_field(v, "token") {
            Some(s) => s,
            None => {
                return None;
            },
        };
        Some(CreateResponse { id, token })
    }
}

/// One listed API key: `{id, name, created_at}`.
pub struct APIKey {
    pub id: String,
    pub name: String,
    pub created_at: String,
}

/// True when a JSON tree has the shape of one listed API key.
pub open spec fn api_key_shape(v: JsonModel) -> bool {
    &&& str_field(v, "id"@) is Some
    &&& str_field(v, "name"@) is Some
    &&& str_field(v, "created_at"@) is Some
}

/// Field-by-field relation between a decoded API key and its tree.
pub open spec fn api_key_fits(k: APIKey, v: JsonModel) -> bool {
    &&& str_field(v, "id"@) == Some(k.id@)
    &&& str_field(v, "name"@) == Some(k.name@)
    &&& str_field(v, "created_at"@) == Some(k.created_at@)
}

impl APIKey {
    /// Decodes one listed API key from a JSON tree.
    pub fn from_json(v: &JsonValue) -> (r: Option<Self>)
        ensures
            match r {
                Some(k) => api_key_fits(k, model_of(*v)),
                None => !api_key_shape(model_of(*v)),
            },
    {
        let id = match crate::json::get_str_field(v, "id") {
            Some(s) => s,
            None => {
                return None;
            },
        };
        let name = match crate::json::get_str_field(v, "name") {
            Some(s) => s,
            None => {
                return None;
            },
        };
        let created_at = match crate::json::get_str_field(v, "created_at") {
            Some(s) => s,
            None => {
                return None;
            },
        };
        Some(APIKey { id, name, created_at })
    }
}

/// Success shape of the list operation: the envelope `{data: [...]}` is
/// unwrapped, never returned raw.
pub struct ListResponse {
    pub data: Vec<APIKey>,
}

/// True when a JSON tree has the list-response shape: a `data` array whose
/// every element has the API key shape.
pub open spec fn list_response_shape(v: JsonModel) -> bool {
    &&& arr_field(v, "data"@) is Some
    &&& forall|i: int|
        0 <= i < arr_field(v, "data"@)->0.len() ==> api_key_shape(
            #[trigger] arr_field(v, "data"@)->0[i],
        )
}

/// Element-by-element relation between a decoded list and its tree.
pub open spec fn list_response_fits(l: ListResponse, v: JsonModel) -> bool {
    &&& arr_field(v, "data"@) is Some
    &&& l.data@.len() == arr_field(v, "data"@)->0.len()
    &&& forall|i: int|
        0 <= i < arr_field(v, "data"@)->0.len() ==> api_key_fits(
            #[trigger] l.data@[i],
            arr_field(v, "data"@)->0[i],
        )
}

impl ListResponse {
    /// Decodes a list response from a JSON tree, unwrapping the envelope.
    pub fn from_json(v: &JsonValue) -> (r: Option<Self>)
        ensures
            match r {
                Some(l) => list_response_shape(model_of(*v)) && list_response_fits(
                    l,
                    model_of(*v),
                ),
                None => !list_response_shape(model_of(*v)),
            },
    {
        let arr = match crate::json::get_field(v, "data") {
            Some(x) => x,
            None => {
                return None;
            },
        };
        match arr {
            JsonValue::Arr(items) => {
                let ghost es = arr_field(model_of(*v), "data"@)->0;
                proof {
                    lemma_models_of(items@);
                    assert(es == models_of(items@));
                }
                let mut data: Vec<APIKey> = Vec::new();
                let mut i: usize = 0;
                while i < items.len()
                    invariant
                        i <= items.len(),
                        arr_field(model_of(*v), "data"@) == Some(es),
                        es.len() == items@.len(),
                        forall|j: int| 0 <= j < items@.len() ==> es[j] == model_of(items@[j]),
                        data@.len() == i,
                        forall|j: int| 0 <= j < i ==> api_key_shape(#[trigger] es[j]),
                        forall|j: int| 0 <= j < i ==> api_key_fits(#[trigger] data@[j], es[j]),
                    decreases items.len() - i,
                {
                    match APIKey::from_json(&items[i]) {
                        Some(k) => data.push(k),
                        None => {
                            proof {
                                assert(!api_key_shape(
                                    arr_field(model_of(*v), "data"@)->0[i as int],
                                ));
                            }
                            return None;
                        },
                    }
                    i = i + 1;
                }
                Some(ListResponse { data })
            },
            _ => None,
        }
    }
}

/// Builds the wire request of the create operation: POST to the collection
/// endpoint, body serialized before any transport work.
pub fn create_request(client: &Client, r: &CreateRequest) -> (req: Request)
    ensures
        req.method is Post,
        req.url@ == crate::urls::resource_base_spec(client.base_url_spec(), "api-keys"@),
        req.body matches Some(b) && b@ == r.json_spec(),
{
    let url = crate::urls::api_keys::base(client.base_url());
    let body = r.to_json();
    Request::new(Method::Post, url.as_str(), Some(body))
}

/// Completes the create operation from the raw response.
pub fn create_result(status: u16, body: &str) -> (r: Result<CreateResponse, Error>)
    ensures
        match r {
            Ok(c) => {
                &&& is_success_status(status)
                &&& parsed_json(body@) matches Some(v)
                &&& create_response_fits(c, v)
            },
            Err(e) => match e {
                Error::Resend(_) => remote_error_case(status, body@, e),
                Error::JSON(_) => (is_success_status(status) && success_body_undecodable(
                    body@,
                    (|v: JsonModel| create_response_shape(v)),
                )) || (!is_success_status(status) && error_body_undecodable(body@)),
                _ => false,
            },
        },
{
    let text = match crate::interpret(status, body) {
        Ok(t) => t,
        Err(e) => {
            return Err(e);
        },
    };
    let v = match crate::json::parse_json(text.as_str()) {
        Ok(v) => v,
        Err(m) => {
            return Err(Error::JSON(m));
        },
    };
    match CreateResponse::from_json(&v) {
        Some(c) => Ok(c),
        None => Err(Error::JSON(String::from_str("response body does not have the expected shape"))),
    }
}

/// Builds the wire request of the list operation: GET on the collection
/// endpoint, no body.
pub fn list_request(client: &Client) -> (req: Request)
    ensures
        req.method is Get,
        req.url@ == crate::urls::resource_base_spec(client.base_url_spec(), "api-keys"@),
        req.body is None,
{
    let url = crate::urls::api_keys::base(client.base_url());
    Request::new(Method::Get, url.as_str(), None)
}

/// Completes the list operation from the raw response.
pub fn list_result(status: u16, body: &str) -> (r: Result<ListResponse, Error>)
    ensures
        match r {
            Ok(l) => {
                &&& is_success_status(status)
                &&& parsed_json(body@) matches Some(v)
                &&& list_response_shape(v)
                &&& list_response_fits(l, v)
            },
            Err(e) => match e {
                Error::Resend(_) => remote_error_case(status, body@, e),
                Error::JSON(_) => (is_success_status(status) && success_body_undecodable(
                    body@,
                    (|v: JsonModel| list_response_shape(v)),
                )) || (!is_success_status(status) && error_body_undecodable(body@)),
                _ => false,
            },
        },
{
    let text = match crate::interpret(status, body) {
        Ok(t) => t,
        Err(e) => {
            return Err(e);
        },
    };
    let v = match crate::json::parse_json(text.as_str()) {
        Ok(v) => v,
        Err(m) => {
            return Err(Error::JSON(m));
        },
    };
    match ListResponse::from_json(&v) {
        Some(l) => Ok(l),
        None => Err(Error::JSON(String::from_str("response body does not have the expected shape"))),
    }
}

/// Builds the wire request of the delete operation: DELETE with the id in
/// the path, no body.
pub fn delete_request(client: &Client, api_key_id: &str) -> (req: Request)
    ensures
        req.method is Delete,
        req.url@ == crate::urls::resource_with_id_spec(
            client.base_url_spec(),
            "api-keys"@,
            api_key_id@,
        ),
        req.body is None,
{
    let url = crate::urls::api_keys::with_id(client.base_url(), api_key_id);
    Request::new(Method::Delete, url.as_str(), None)
}

/// Completes the delete operation: success carries no body content, and an
/// empty success body is valid, never a decode failure.
pub fn delete_result(status: u16, body: &str) -> (r: Result<(), Error>)
    ensures
        match r {
            Ok(_) => is_success_status(status),
            Err(e) => match e {
                Error::Resend(_) => remote_error_case(status, body@, e),
                Error::JSON(_) => !is_success_status(status) && error_body_undecodable(body@),
                _ => false,
            },
        },
{
    match crate::interpret(status, body) {
        Ok(_) => Ok(()),
        Err(e) => Err(e),
    }
}

} // verus!
