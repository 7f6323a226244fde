//! Batch sending: one POST carrying an array of email payloads to the same
//! collection endpoint, answered with the envelope `{data: [{id}]}`.

use vstd::prelude::*;

use crate::Client;
use crate::Error;
use crate::emails::SendEmailRequest;
use crate::emails::SendEmailResponse;
use crate::emails::decode_send_data;
use crate::emails::send_data_fits;
use crate::emails::send_data_shape;
use crate::encode::comma_join;
use crate::http::Method;
use crate::http::Request;
use crate::is_success_status;
use crate::json::JsonModel;
use crate::json::parsed_json;
use crate::remote_error_case;
use crate::success_body_undecodable;
use crate::error_body_undecodable;

verus! {

/// The decoded batch envelope.
pub struct BatchSendResponse {
    pub data: Vec<SendEmailResponse>,
}

impl BatchSendResponse {
    /// Decodes the batch envelope from a JSON tree.
    pub fn from_json(v: &crate::json::JsonValue) -> (r: Option<Self>)
        ensures
            match r {
                Some(l) => send_data_shape(crate::json::model_of(*v)) && send_data_fits(
                    l.data@,
                    crate::json::model_of(*v),
                ),
                None => !send_data_shape(crate::json::model_of(*v)),
            },
    {
        match decode_send_data(v) {
            Some(data) => Some(BatchSendResponse { data }),
            None => None,
        }
    }
}

/// The serialized batch body: a JSON array of send bodies, in order.
pub open spec fn batch_json_spec(rs: Seq<SendEmailRequest>) -> Seq<char> {
    seq!['['] + comma_join(rs.map_values(|r: SendEmailRequest| r.json_spec())) + seq![']']
}

/// Serializes the batch body.  Serialization is total: it cannot fail.
#[verifier::rlimit(100)]
pub fn batch_to_json(requests: &Vec<SendEmailRequest>) -> (r: String)
    ensures
        r@ == batch_json_spec(requests@),
{
    let mut out: Vec<char> = Vec::new();
    out.push('[');
    let mut i: usize = 0;
    while i < requests.len()
        invariant
            i <= requests@.len(),
            out@ == seq!['['] + comma_join(
                requests@.subrange(0, i as int).map_values(|r: SendEmailRequest| r.json_spec()),
            ),
        decreases requests@.len() - i,
    {
        if i > 0 {
            out.push(',');
        }
        let one = requests[i].to_json();
        crate::text::push_str_chars(&mut out, one.as_str());
        i = i + 1;
        proof {
            let f = |r: SendEmailRequest| r.json_spec();
            let part = requests@.subrange(0, i as int).map_values(f);
            let prev = requests@.subrange(0, i - 1).map_values(f);
            assert(part.drop_last() =~= prev);
            assert(part.last() == requests@[i - 1].json_spec());
            if i == 1 {
                assert(comma_join(part) == requests@[0].json_spec());
            }
            assert(out@ =~= seq!['['] + comma_join(part));
        }
    }
    out.push(']');
    proof {
        assert(requests@.subrange(0, requests@.len() as int) =~= requests@);
        assert(out@ =~= batch_json_spec(requests@));
    }
    crate::text::chars_to_string(&out)
}

/// Builds the wire request of the batch send operation: POST to the email
/// collection endpoint, the whole array serialized before any transport
/// work.
pub fn send_request(client: &Client, requests: &Vec<SendEmailRequest>) -> (req: Request)
    ensures
        req.method is Post,
        req.url@ == crate::urls::resource_base_spec(client.base_url_spec(), "emails"@),
        req.body matches Some(b) && b@ == batch_json_spec(requests@),
{
    let url = crate::urls::emails::base(client.base_url());
    let body = batch_to_json(requests);
    Request::new(Method::Post, url.as_str(), Some(body))
}

/// Completes the batch send operation from the raw response.
pub fn send_result(status: u16, body: &str) -> (r: Result<BatchSendResponse, Error>)
    ensures
        match r {
            Ok(l) => {
                &&& is_success_status(status)
                &&& parsed_json(body@) matches Some(v)
                &&& send_data_shape(v)
                &&& send_data_fits(l.data@, v)
            },
            Err(e) => match e {
                Error::Resend(_) => remote_error_case(status, body@, e),
                Error::JSON(_) => (is_success_status(status) && success_body_undecodable(
                    body@,
                    (|v: JsonModel| send_data_shape(v)),
                )) || (!is_success_status(status) && error_body_undecodable(body@)),
                _ => false,
            },
        },
{
    let text = match crate::interpret(status, body) {
        Ok(t) => t,
        Err(e) => {
            return Err(e);
        },
    };
    let v = match crate::json::parse_json(text.as_str()) {
        Ok(v) => v,
        Err(m) => {
            return Err(Error::JSON(m));
        },
    };
    match BatchSendResponse::from_json(&v) {
        Some(l) => Ok(l),
        None => Err(Error::JSON(String::from_str("response body does not have the expected shape"))),
    }
}

} // verus!
