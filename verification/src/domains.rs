//! The domain resource: add, get, verify, list and delete.
//!
//! The remote schema of a domain evolved over time: `records`, `region` and
//! `dns_provider` may be absent from a response, and decoding tolerates
//! their absence rather than failing.  The delete confirmation, unlike the
//! API key one, is a structured body and is decoded.

use vstd::prelude::*;

use crate::Client;
use crate::Error;
use crate::encode::quoted;
use crate::http::Method;
use crate::http::Request;
use crate::is_success_status;
use crate::json::JsonModel;
use crate::json::JsonValue;
use crate::json::arr_field;
use crate::json::bool_field;
use crate::json::lemma_models_of;
use crate::json::model_of;
use crate::json::models_of;
use crate::json::opt_arr_field_ok;
use crate::json::opt_str_field;
use crate::json::opt_str_field_ok;
use crate::json::opt_u64_field;
use crate::json::opt_u64_field_ok;
use crate::json::parsed_json;
use crate::json::str_field;
use crate::remote_error_case;
use crate::success_body_undecodable;
use crate::error_body_undecodable;

verus! {

/// The body of the add operation: `{name, region}`.
pub struct AddRequest {
    pub name: String,
    pub region: String,
}

impl AddRequest {
    /// The serialized body, character by character: both fields are always
    /// present.
    pub open spec fn json_spec(self) -> Seq<char> {
        "{\"name\":"@ + quoted(self.name@) + ",\"region\":"@ + quoted(self.region@) + "}"@
    }

    /// Serializes the body.  Serialization is total: it cannot fail.
    pub fn to_json(&self) -> (r: String)
        ensures
            r@ == self.json_spec(),
    {
        let mut out: Vec<char> = Vec::new();
        crate::text::push_str_chars(&mut out, "{\"name\":");
        crate::encode::push_quoted(&mut out, self.name.as_str());
        crate::text::push_str_chars(&mut out, ",\"region\":");
        crate::encode::push_quoted(&mut out, self.region.as_str());
        crate::text::push_str_chars(&mut out, "}");
        proof {
            assert(out@ =~= self.json_spec());
        }
        crate::text::chars_to_string(&out)
    }
}

/// One DNS record of a domain.  The wire field `type` is carried here as
/// `record_type`.
pub struct Record {
    pub record: String,
    pub name: String,
    pub record_type: String,
    pub ttl: String,
    pub status: Option<String>,
    pub value: String,
    pub priority: Option<usize>,
}

/// True when a JSON tree has the shape of one DNS record.
pub open spec fn record_shape(v: JsonModel) -> bool {
    &&& str_field(v, "record"@) is Some
    &&& str_field(v, "name"@) is Some
    &&& str_field(v, "type"@) is Some
    &&& str_field(v, "ttl"@) is Some
    &&& opt_str_field_ok(v, "status"@)
    &&& str_field(v, "value"@) is Some
    &&& opt_u64_field_ok(v, "priority"@)
    &&& (opt_u64_field(v, "priority"@) matches Some(u) ==> u <= usize::MAX)
}

/// Field-by-field relation between a decoded DNS record and its tree.
pub open spec fn record_fits(r: Record, v: JsonModel) -> bool {
    &&& str_field(v, "record"@) == Some(r.record@)
    &&& str_field(v, "name"@) == Some(r.name@)
    &&& str_field(v, "type"@) == Some(r.record_type@)
    &&& str_field(v, "ttl"@) == Some(r.ttl@)
    &&& (match r.status {
        Some(s) => opt_str_field(v, "status"@) == Some(s@),
        None => opt_str_field(v, "status"@) is None,
    })
    &&& str_field(v, "value"@) == Some(r.value@)
    &&& (match r.priority {
        Some(p) => opt_u64_field(v, "priority"@) == Some(p as u64),
        None => opt_u64_field(v, "priority"@) is None,
    })
}

impl Record {
    /// Decodes one DNS record from a JSON tree.
    pub fn from_json(v: &JsonValue) -> (r: Option<Self>)
        ensures
            match r {
                Some(rec) => record_shape(model_of(*v)) && record_fits(rec, model_of(*v)),
                None => !record_shape(model_of(*v)),
            },
    {
        let record = match crate::json::get_str_field(v, "record") {
            Some(s) => s,
            None => {
                return None;
            },
        };
        let name = match crate::json::get_str_field(v, "name") {
            Some(s) => s,
            None => {
                return None;
            },
        };
        let record_type = match crate::json::get_str_field(v, "type") {
            Some(s) => s,
            None => {
                return None;
            },
        };
        let ttl = match crate::json::get_str_field(v, "ttl") {
            Some(s) => s,
            None => {
                return None;
            },
        };
        let status = match crate::json::get_opt_str_field(v, "status") {
            Some(o) => o,
            None => {
                return None;
            },
        };
        let value = match crate::json::get_str_field(v, "value") {
            Some(s) => s,
            None => {
                return None;
            },
        };
        let priority = match crate::json::get_opt_u64_field(v, "priority") {
            Some(o) => match o {
                Some(u) => {
                    if u <= usize::MAX as u64 {
                        Some(u as usize)
                    } else {
                        return None;
                    }
                },
                None => None,
            },
            None => {
                return None;
            },
        };
        Some(Record { record, name, record_type, ttl, status, value, priority })
    }
}

/// One sending domain as the remote reports it.
pub struct Domain {
    pub id: String,
    pub name: String,
    pub created_at: String,
    pub status: String,
    pub records: Option<Vec<Record>>,
    pub region: Option<String>,
    pub dns_provider: Option<String>,
}

/// True when a JSON tree has the domain shape.  `records`, `region` and
/// `dns_provider` may be absent or `null`.
pub open spec fn domain_shape(v: JsonModel) -> bool {
    &&& str_field(v, "id"@) is Some
    &&& str_field(v, "name"@) is Some
    &&& str_field(v, "created_at"@) is Some
    &&& str_field(v, "status"@) is Some
    &&& opt_arr_field_ok(v, "records"@)
    &&& (arr_field(v, "records"@) is Some ==> forall|i: int|
        0 <= i < arr_field(v, "records"@)->0.len() ==> record_shape(
            #[trigger] arr_field(v, "records"@)->0[i],
        ))
    &&& opt_str_field_ok(v, "region"@)
    &&& opt_str_field_ok(v, "dns_provider"@)
}

/// Field-by-field relation between a decoded domain and its tree.
pub open spec fn domain_fits(d: Domain, v: JsonModel) -> bool {
    &&& str_field(v, "id"@) == Some(d.id@)
    &&& str_field(v, "name"@) == Some(d.name@)
    &&& str_field(v, "created_at"@) == Some(d.created_at@)
    &&& str_field(v, "status"@) == Some(d.status@)
    &&& (match d.records {
        Some(rs) => {
            &&& arr_field(v, "records"@) is Some
            &&& rs@.len() == arr_field(v, "records"@)->0.len()
            &&& forall|i: int|
                0 <= i < rs@.len() ==> record_fits(
                    #[trigger] rs@[i],
                    arr_field(v, "records"@)->0[i],
                )
        },
        None => arr_field(v, "records"@) is None,
    })
    &&& (match d.region {
        Some(s) => opt_str_field(v, "region"@) == Some(s@),
        None => opt_str_field(v, "region"@) is None,
    })
    &&& (match d.dns_provider {
        Some(s) => opt_str_field(v, "dns_provider"@) == Some(s@),
        None => opt_str_field(v, "dns_provider"@) is None,
    })
}

impl Domain {
    /// Decodes a domain from a JSON tree.
    pub fn from_json(v: &JsonValue) -> (r: Option<Self>)
        ensures
            match r {
                Some(d) => domain_shape(model_of(*v)) && domain_fits(d, model_of(*v)),
                None => !domain_shape(model_of(*v)),
            },
    {
        let id = match crate::json::get_str_field(v, "id") {
            Some(s) => s,
            None => {
                return None;
            },
        };
        let name = match crate::json::get_str_field(v, "name") {
            Some(s) => s,
            None => {
                return None;
            },
        };
        let created_at = match crate::json::get_str_field(v, "created_at") {
            Some(s) => s,
            None => {
                return None;
            },
        };
        let status = match crate::json::get_str_field(v, "status") {
            Some(s) => s,
            None => {
                return None;
            },
        };
        let records = match crate::json::get_field(v, "records") {
            None => None,
            Some(x) => match x {
                JsonValue::Null => None,
                JsonValue::Arr(items) => {
                    let ghost es = arr_field(model_of(*v), "records"@)->0;
                    proof {
                        lemma_models_of(items@);
                        assert(es == models_of(items@));
                    }
                    let mut rs: Vec<Record> = Vec::new();
                    let mut i: usize = 0;
                    while i < items.len()
                        invariant
                            i <= items.len(),
                            arr_field(model_of(*v), "records"@) == Some(es),
                            es.len() == items@.len(),
                            forall|j: int| 0 <= j < items@.len() ==> es[j] == model_of(items@[j]),
                            rs@.len() == i,
                            forall|j: int| 0 <= j < i ==> record_shape(#[trigger] es[j]),
                            forall|j: int| 0 <= j < i ==> record_fits(#[trigger] rs@[j], es[j]),
                        decreases items.len() - i,
                    {
                        match Record::from_json(&items[i]) {
                            Some(rec) => rs.push(rec),
                            None => {
                                proof {
                                    assert(!record_shape(
                                        arr_field(model_of(*v), "records"@)->0[i as int],
                                    ));
                                }
                                return None;
                            },
                        }
                        i = i + 1;
                    }
                    Some(rs)
                },
                _ => {
                    return None;
                },
            },
        };
        let region = match crate::json::get_opt_str_field(v, "region") {
            Some(o) => o,
            None => {
                return None;
            },
        };
        let dns_provider = match crate::json::get_opt_str_field(v, "dns_provider") {
            Some(o) => o,
            None => {
                return None;
            },
        };
        Some(Domain { id, name, created_at, status, records, region, dns_provider })
    }
}

/// Success shape of the verify operation: `{object, id}`.
pub struct VerifyResponse {
    pub object: String,
    pub id: String,
}

/// True when a JSON tree has the verify-response shape.
pub open spec fn verify_response_shape(v: JsonModel) -> bool {
    &&& str_field(v, "object"@) is Some
    &&& str_field(v, "id"@) is Some
}

/// Field-by-field relation between a decoded verify response and its tree.
pub open spec fn verify_response_fits(c: VerifyResponse, v: JsonModel) -> bool {
    &&& str_field(v, "object"@) == Some(c.object@)
    &&& str_field(v, "id"@) == Some(c.id@)
}

impl VerifyResponse {
    /// Decodes a verify response from a JSON tree.
    pub fn from_json(v: &JsonValue) -> (r: Option<Self>)
        ensures
            match r {
                Some(c) => verify_response_fits(c, model_of(*v)),
                None => !verify_response_shape(model_of(*v)),
            },
    {
        let object = match crate::json::get_str_field(v, "object") {
            Some(s) => s,
            None => {
                return None;
            },
        };
        let id = match crate::json::get_str_field(v, "id") {
            Some(s) => s,
            None => {
                return None;
            },
        };
        Some(VerifyResponse { object, id })
    }
}

/// The structured delete confirmation: `{object, id, deleted}`.
pub struct DeleteResponse {
    pub object: String,
    pub id: String,
    pub deleted: bool,
}

/// True when a JSON tree has the delete-confirmation shape.
pub open spec fn delete_response_shape(v: JsonModel) -> bool {
    &&& str_field(v, "object"@) is Some
    &&& str_field(v, "id"@) is Some
    &&& bool_field(v, "deleted"@) is Some
}

/// Field-by-field relation between a decoded delete confirmation and its
/// tree.
pub open spec fn delete_response_fits(c: DeleteResponse, v: JsonModel) -> bool {
    &&& str_field(v, "object"@) == Some(c.object@)
    &&& str_field(v, "id"@) == Some(c.id@)
    &&& bool_field(v, "deleted"@) == Some(c.deleted)
}

impl DeleteResponse {
    /// Decodes a delete confirmation from a JSON tree.
    pub fn from_json(v: &JsonValue) -> (r: Option<Self>)
        ensures
            match r {
                Some(c) => delete_response_fits(c, model_of(*v)),
                None => !delete_response_shape(model_of(*v)),
            },
    {
        let object = match crate::json::get_str_field(v, "object") {
            Some(s) => s,
            None => {
                return None;
            },
        };
        let id = match crate::json::get_str_field(v, "id") {
            Some(s) => s,
            None => {
                return None;
            },
        };
        let deleted = match crate::json::get_bool_field(v, "deleted") {
            Some(b) => b,
            None => {
                return None;
            },
        };
        Some(DeleteResponse { object, id, deleted })
    }
}

/// Success shape of the list operation: the envelope `{data: [...]}` is
/// unwrapped, never returned raw.
pub struct ListDomainsResponse {
    pub data: Vec<Domain>,
}

/// True when a JSON tree has the list-response shape: a `data` array whose
/// every element has the domain shape.
pub open spec fn list_domains_shape(v: JsonModel) -> bool {
    &&& arr_field(v, "data"@) is Some
    &&& forall|i: int|
        0 <= i < arr_field(v, "data"@)->0.len() ==> domain_shape(
            #[trigger] arr_field(v, "data"@)->0[i],
        )
}

/// Element-by-element relation between a decoded list and its tree.
pub open spec fn list_domains_fits(l: ListDomainsResponse, v: JsonModel) -> bool {
    &&& arr_field(v, "data"@) is Some
    &&& l.data@.len() == arr_field(v, "data"@)->0.len()
    &&& forall|i: int|
        0 <= i < arr_field(v, "data"@)->0.len() ==> domain_fits(
            #[trigger] l.data@[i],
            arr_field(v, "data"@)->0[i],
        )
}

impl ListDomainsResponse {
    /// Decodes a list response from a JSON tree, unwrapping the envelope.
    pub fn from_json(v: &JsonValue) -> (r: Option<Self>)
        ensures
            match r {
                Some(l) => list_domains_shape(model_of(*v)) && list_domains_fits(l, model_of(*v)),
                None => !list_domains_shape(model_of(*v)),
            },
    {
        let arr = match crate::json::get_field(v, "data") {
            Some(x) => x,
            None => {
                return None;
            },
        };
        match arr {
            JsonValue::Arr(items) => {
                let ghost es = arr_field(model_of(*v), "data"@)->0;
                proof {
                    lemma_models_of(items@);
                    assert(es == models_of(items@));
                }
                let mut data: Vec<Domain> = Vec::new();
                let mut i: usize = 0;
                while i < items.len()
                    invariant
                        i <= items.len(),
                        arr_field(model_of(*v), "data"@) == Some(es),
                        es.len() == items@.len(),
                        forall|j: int| 0 <= j < items@.len() ==> es[j] == model_of(items@[j]),
                        data@.len() == i,
                        forall|j: int| 0 <= j < i ==> domain_shape(#[trigger] es[j]),
                        forall|j: int| 0 <= j < i ==> domain_fits(#[trigger] data@[j], es[j]),
                    decreases items.len() - i,
                {
                    match Domain::from_json(&items[i]) {
                        Some(d) => data.push(d),
                        None => {
                            proof {
                                assert(!domain_shape(
                                    arr_field(model_of(*v), "data"@)->0[i as int],
                                ));
                            }
                            return None;
                        },
                    }
                    i = i + 1;
                }
                Some(ListDomainsResponse { data })
            },
            _ => None,
        }
    }
}

/// Builds the wire request of the add operation: POST to the collection
/// endpoint, body serialized before any transport work.
pub fn add_request(client: &Client, r: &AddRequest) -> (req: Request)
    ensures
        req.method is Post,
        req.url@ == crate::urls::resource_base_spec(client.base_url_spec(), "domains"@),
        req.body matches Some(b) && b@ == r.json_spec(),
{
    let url = crate::urls::domains::base(client.base_url());
    let body = r.to_json();
    Request::new(Method::Post, url.as_str(), Some(body))
}

/// Completes an operation whose success body is one domain.
fn domain_result(status: u16, body: &str) -> (r: Result<Domain, Error>)
    ensures
        match r {
            Ok(d) => {
                &&& is_success_status(status)
                &&& parsed_json(body@) matches Some(v)
                &&& domain_shape(v)
                &&& domain_fits(d, v)
            },
            Err(e) => match e {
                Error::Resend(_) => remote_error_case(status, body@, e),
                Error::JSON(_) => (is_success_status(status) && success_body_undecodable(
                    body@,
                    (|v: JsonModel| domain_shape(v)),
                )) || (!is_success_status(status) && error_body_undecodable(body@)),
                _ => false,
            },
        },
{
    let text = match crate::interpret(status, body) {
        Ok(t) => t,
        Err(e) => {
            return Err(e);
        },
    };
    let v = match crate::json::parse_json(text.as_str()) {
        Ok(v) => v,
        Err(m) => {
            return Err(Error::JSON(m));
        },
    };
    match Domain::from_json(&v) {
        Some(d) => Ok(d),
        None => Err(Error::JSON(String::from_str("response body does not have the expected shape"))),
    }
}

/// Completes the add operation from the raw response.
pub fn add_result(status: u16, body: &str) -> (r: Result<Domain, Error>)
    ensures
        match r {
            Ok(d) => {
                &&& is_success_status(status)
                &&& parsed_json(body@) matches Some(v)
                &&& domain_shape(v)
                &&& domain_fits(d, v)
            },
            Err(e) => match e {
                Error::Resend(_) => remote_error_case(status, body@, e),
                Error::JSON(_) => (is_success_status(status) && success_body_undecodable(
                    body@,
                    (|v: JsonModel| domain_shape(v)),
                )) || (!is_success_status(status) && error_body_undecodable(body@)),
                _ => false,
            },
        },
{
    domain_result(status, body)
}

/// Builds the wire request of the get operation: GET with the id in the
/// path, no body.
pub fn get_request(client: &Client, domain_id: &str) -> (req: Request)
    ensures
        req.method is Get,
        req.url@ == crate::urls::resource_with_id_spec(
            client.base_url_spec(),
            "domains"@,
            domain_id@,
        ),
        req.body is None,
{
    let url = crate::urls::domains::with_id(client.base_url(), domain_id);
    Request::new(Method::Get, url.as_str(), None)
}

/// Completes the get operation from the raw response.
pub fn get_result(status: u16, body: &str) -> (r: Result<Domain, Error>)
    ensures
        match r {
            Ok(d) => {
                &&& is_success_status(status)
                &&& parsed_json(body@) matches Some(v)
                &&& domain_shape(v)
                &&& domain_fits(d, v)
            },
            Err(e) => match e {
                Error::Resend(_) => remote_error_case(status, body@, e),
                Error::JSON(_) => (is_success_status(status) && success_body_undecodable(
                    body@,
                    (|v: JsonModel| domain_shape(v)),
                )) || (!is_success_status(status) && error_body_undecodable(body@)),
                _ => false,
            },
        },
{
    domain_result(status, body)
}

/// Builds the wire request of the verify operation: POST to the item
/// endpoint with no body.
pub fn verify_request(client: &Client, domain_id: &str) -> (req: Request)
    ensures
        req.method is Post,
        req.url@ == crate::urls::resource_with_id_spec(
            client.base_url_spec(),
            "domains"@,
            domain_id@,
        ),
        req.body is None,
{
    let url = crate::urls::domains::with_id(client.base_url(), domain_id);
    Request::new(Method::Post, url.as_str(), None)
}

/// Completes the verify operation from the raw response.
pub fn verify_result(status: u16, body: &str) -> (r: Result<VerifyResponse, Error>)
    ensures
        match r {
            Ok(c) => {
                &&& is_success_status(status)
                &&& parsed_json(body@) matches Some(v)
                &&& verify_response_fits(c, v)
            },
            Err(e) => match e {
                Error::Resend(_) => remote_error_case(status, body@, e),
                Error::JSON(_) => (is_success_status(status) && success_body_undecodable(
                    body@,
                    (|v: JsonModel| verify_response_shape(v)),
                )) || (!is_success_status(status) && error_body_undecodable(body@)),
                _ => false,
            },
        },
{
    let text = match crate::interpret(status, body) {
        Ok(t) => t,
        Err(e) => {
            return Err(e);
        },
    };
    let v = match crate::json::parse_json(text.as_str()) {
        Ok(v) => v,
        Err(m) => {
            return Err(Error::JSON(m));
        },
    };
    match VerifyResponse::from_json(&v) {
        Some(c) => Ok(c),
        None => Err(Error::JSON(String::from_str("response body does not have the expected shape"))),
    }
}

/// Builds the wire request of the list operation: GET on the collection
/// endpoint, no body.
pub fn list_request(client: &Client) -> (req: Request)
    ensures
        req.method is Get,
        req.url@ == crate::urls::resource_base_spec(client.base_url_spec(), "domains"@),
        req.body is None,
{
    let url = crate::urls::domains::base(client.base_url());
    Request::new(Method::Get, url.as_str(), None)
}

/// Completes the list operation from the raw response.
pub fn list_result(status: u16, body: &str) -> (r: Result<ListDomainsResponse, Error>)
    ensures
        match r {
            Ok(l) => {
                &&& is_success_status(status)
                &&& parsed_json(body@) matches Some(v)
                &&& list_domains_shape(v)
                &&& list_domains_fits(l, v)
            },
            Err(e) => match e {
                Error::Resend(_) => remote_error_case(status, body@, e),
                Error::JSON(_) => (is_success_status(status) && success_body_undecodable(
                    body@,
                    (|v: JsonModel| list_domains_shape(v)),
                )) || (!is_success_status(status) && error_body_undecodable(body@)),
                _ => false,
            },
        },
{
    let text = match crate::interpret(status, body) {
        Ok(t) => t,
        Err(e) => {
            return Err(e);
        },
    };
    let v = match crate::json::parse_json(text.as_str()) {
        Ok(v) => v,
        Err(m) => {
            return Err(Error::JSON(m));
        },
    };
    match ListDomainsResponse::from_json(&v) {
        Some(l) => Ok(l),
        None => Err(Error::JSON(String::from_str("response body does not have the expected shape"))),
    }
}

/// Builds the wire request of the delete operation: DELETE with the id in
/// the path, no body.
pub fn delete_request(client: &Client, domain_id: &str) -> (req: Request)
    ensures
        req.method is Delete,
        req.url@ == crate::urls::resource_with_id_spec(
            client.base_url_spec(),
            "domains"@,
            domain_id@,
        ),
        req.body is None,
{
    let url = crate::urls::domains::with_id(client.base_url(), domain_id);
    Request::new(Method::Delete, url.as_str(), None)
}

/// Completes the delete operation: the confirmation body is decoded.
pub fn delete_result(status: u16, body: &str) -> (r: Result<DeleteResponse, Error>)
    ensures
        match r {
            Ok(c) => {
                &&& is_success_status(status)
                &&& parsed_json(body@) matches Some(v)
                &&& delete_response_fits(c, v)
            },
            Err(e) => match e {
                Error::Resend(_) => remote_error_case(status, body@, e),
                Error::JSON(_) => (is_success_status(status) && success_body_undecodable(
                    body@,
                    (|v: JsonModel| delete_response_shape(v)),
                )) || (!is_success_status(status) && error_body_undecodable(body@)),
                _ => false,
            },
        },
{
    let text = match crate::interpret(status, body) {
        Ok(t) => t,
        Err(e) => {
            return Err(e);
        },
    };
    let v = match crate::json::parse_json(text.as_str()) {
        Ok(v) => v,
        Err(m) => {
            return Err(Error::JSON(m));
        },
    };
    match DeleteResponse::from_json(&v) {
        Some(c) => Ok(c),
        None => Err(Error::JSON(String::from_str("response body does not have the expected shape"))),
    }
}

} // verus!
