//! The email resource: send, batch payloads, and retrieval.
//!
//! `SendEmailRequest` is the one body with omission rules: `from`, `to` and
//! `subject` are left out entirely when empty, while the container fields
//! (`bcc`, `cc`, `reply_to`, `headers`, `attachments`, `tags`) are always
//! written, even when empty.  That asymmetry matches the remote schema and
//! is pinned character by character by the serialization specification.

use vstd::prelude::*;

use crate::Client;
use crate::Error;
use crate::encode::byte_array;
use crate::encode::comma_join;
use crate::encode::quoted;
use crate::encode::string_array;
use crate::http::Method;
use crate::http::Request;
use crate::is_success_status;
use crate::json::JsonModel;
use crate::json::JsonValue;
use crate::json::arr_field;
use crate::json::lemma_models_of;
use crate::json::model_of;
use crate::json::models_of;
use crate::json::parsed_json;
use crate::json::str_elems;
use crate::json::str_elems_ok;
use crate::json::str_field;
use crate::remote_error_case;
use crate::success_body_undecodable;
use crate::error_body_undecodable;

verus! {

/// Success shape of the send operation: `{id}`.
pub struct SendEmailResponse {
    pub id: String,
}

/// True when a JSON tree has the send-response shape.
pub open spec fn send_email_response_shape(v: JsonModel) -> bool {
    str_field(v, "id"@) is Some
}

/// Field-by-field relation between a decoded send response and its tree.
pub open spec fn send_email_response_fits(c: SendEmailResponse, v: JsonModel) -> bool {
    str_field(v, "id"@) == Some(c.id@)
}

impl SendEmailResponse {
    /// Decodes a send response from a JSON tree.
    pub fn from_json(v: &JsonValue) -> (r: Option<Self>)
        ensures
            match r {
                Some(c) => send_email_response_fits(c, model_of(*v)),
                None => !send_email_response_shape(model_of(*v)),
            },
    {
        let id = match crate::json::get_str_field(v, "id") {
            Some(s) => s,
            None => {
                return None;
            },
        };
        Some(SendEmailResponse { id })
    }
}

/// True when a JSON tree is the batch envelope: a `data` array whose every
/// element has the send-response shape.
pub open spec fn send_data_shape(v: JsonModel) -> bool {
    &&& arr_field(v, "data"@) is Some
    &&& forall|i: int|
        0 <= i < arr_field(v, "data"@)->0.len() ==> send_email_response_shape(
            #[trigger] arr_field(v, "data"@)->0[i],
        )
}

/// Element-by-element relation between decoded send responses and the
/// batch envelope they came from.
pub open spec fn send_data_fits(ks: Seq<SendEmailResponse>, v: JsonModel) -> bool {
    &&& arr_field(v, "data"@) is Some
    &&& ks.len() == arr_field(v, "data"@)->0.len()
    &&& forall|i: int|
        0 <= i < arr_field(v, "data"@)->0.len() ==> send_email_response_fits(
            #[trigger] ks[i],
            arr_field(v, "data"@)->0[i],
        )
}

/// Decodes the batch envelope from a JSON tree, unwrapping `data`.
pub fn decode_send_data(v: &JsonValue) -> (r: Option<Vec<SendEmailResponse>>)
    ensures
        match r {
            Some(ks) => send_data_shape(model_of(*v)) && send_data_fits(ks@, model_of(*v)),
            None => !send_data_shape(model_of(*v)),
        },
{
    let arr = match crate::json::get_field(v, "data") {
        Some(x) => x,
        None => {
            return None;
        },
    };
    match arr {
        JsonValue::Arr(items) => {
            let ghost es = arr_field(model_of(*v), "data"@)->0;
            proof {
                lemma_models_of(items@);
                assert(es == models_of(items@));
            }
            let mut data: Vec<SendEmailResponse> = Vec::new();
            let mut i: usize = 0;
            while i < items.len()
                invariant
                    i <= items.len(),
                    arr_field(model_of(*v), "data"@) == Some(es),
                    es.len() == items@.len(),
                    forall|j: int| 0 <= j < items@.len() ==> es[j] == model_of(items@[j]),
                    data@.len() == i,
                    forall|j: int| 0 <= j < i ==> send_email_response_shape(#[trigger] es[j]),
                    forall|j: int|
                        0 <= j < i ==> send_email_response_fits(#[trigger] data@[j], es[j]),
                decreases items.len() - i,
            {
                match SendEmailResponse::from_json(&items[i]) {
                    Some(k) => data.push(k),
                    None => {
                        proof {
                            assert(!send_email_response_shape(
                                arr_field(model_of(*v), "data"@)->0[i as int],
                            ));
                        }
                        return None;
                    },
                }
                i = i + 1;
            }
            Some(data)
        },
        _ => None,
    }
}

/// The batch envelope `{data: [{id}]}` as a typed value.
pub struct BatchSendEmailResponse {
    pub data: Vec<SendEmailResponse>,
}

impl BatchSendEmailResponse {
    /// Decodes the batch envelope from a JSON tree.
    pub fn from_json(v: &JsonValue) -> (r: Option<Self>)
        ensures
            match r {
                Some(l) => send_data_shape(model_of(*v)) && send_data_fits(
                    l.data@,
                    model_of(*v),
                ),
                None => !send_data_shape(model_of(*v)),
            },
    {
        match decode_send_data(v) {
            Some(data) => Some(BatchSendEmailResponse { data }),
            None => None,
        }
    }
}

/// One sent email as the remote reports it, including the fields the
/// server fills in (`last_event`, timestamps) that no send request ever
/// carried.
pub struct Email {
    pub id: String,
    pub object: String,
    pub to: Vec<String>,
    pub from: String,
    pub created_at: String,
    pub subject: String,
    pub html: String,
    pub text: String,
    pub bcc: Vec<String>,
    pub cc: Vec<String>,
    pub reply_to: Vec<String>,
    pub last_event: String,
}

/// True when a JSON tree has the full email shape.
pub open spec fn email_shape(v: JsonModel) -> bool {
    &&& str_field(v, "id"@) is Some
    &&& str_field(v, "object"@) is Some
    &&& arr_field(v, "to"@) is Some
    &&& str_elems_ok(arr_field(v, "to"@)->0)
    &&& str_field(v, "from"@) is Some
    &&& str_field(v, "created_at"@) is Some
    &&& str_field(v, "subject"@) is Some
    &&& str_field(v, "html"@) is Some
    &&& str_field(v, "text"@) is Some
    &&& arr_field(v, "bcc"@) is Some
    &&& str_elems_ok(arr_field(v, "bcc"@)->0)
    &&& arr_field(v, "cc"@) is Some
    &&& str_elems_ok(arr_field(v, "cc"@)->0)
    &&& arr_field(v, "reply_to"@) is Some
    &&& str_elems_ok(arr_field(v, "reply_to"@)->0)
    &&& str_field(v, "last_event"@) is Some
}

/// Field-by-field relation between a decoded email and its tree.
pub open spec fn email_fits(e: Email, v: JsonModel) -> bool {
    &&& str_field(v, "id"@) == Some(e.id@)
    &&& str_field(v, "object"@) == Some(e.object@)
    &&& e.to.deep_view() == str_elems(arr_field(v, "to"@)->0)
    &&& str_field(v, "from"@) == Some(e.from@)
    &&& str_field(v, "created_at"@) == Some(e.created_at@)
    &&& str_field(v, "subject"@) == Some(e.subject@)
    &&& str_field(v, "html"@) == Some(e.html@)
    &&& str_field(v, "text"@) == Some(e.text@)
    &&& e.bcc.deep_view() == str_elems(arr_field(v, "bcc"@)->0)
    &&& e.cc.deep_view() == str_elems(arr_field(v, "cc"@)->0)
    &&& e.reply_to.deep_view() == str_elems(arr_field(v, "reply_to"@)->0)
    &&& str_field(v, "last_event"@) == Some(e.last_event@)
}

impl Email {
    /// Decodes a full email from a JSON tree.
    pub fn from_json(v: &JsonValue) -> (r: Option<Self>)
        ensures
            match r {
                Some(e) => email_shape(model_of(*v)) && email_fits(e, model_of(*v)),
                None => !email_shape(model_of(*v)),
            },
    {
        let id = match crate::json::get_str_field(v, "id") {
            Some(s) => s,
            None => {
                return None;
            },
        };
        let object = match crate::json::get_str_field(v, "object") {
            Some(s) => s,
            None => {
                return None;
            },
        };
        let to = match crate::json::get_str_arr_field(v, "to") {
            Some(l) => l,
            None => {
                return None;
            },
        };
        let from = match crate::json::get_str_field(v, "from") {
            Some(s) => s,
            None => {
                return None;
            },
        };
        let created_at = match crate::json::get_str_field(v, "created_at") {
            Some(s) => s,
            None => {
                return None;
            },
        };
        let subject = match crate::json::get_str_field(v, "subject") {
            Some(s) => s,
            None => {
                return None;
            },
        };
        let html = match crate::json::get_str_field(v, "html") {
            Some(s) => s,
            None => {
                return None;
            },
        };
        let text = match crate::json::get_str_field(v, "text") {
            Some(s) => s,
            None => {
                return None;
            },
        };
        let bcc = match crate::json::get_str_arr_field(v, "bcc") {
            Some(l) => l,
            None => {
                return None;
            },
        };
        let cc = match crate::json::get_str_arr_field(v, "cc") {
            Some(l) => l,
            None => {
                return None;
            },
        };
        let reply_to = match crate::json::get_str_arr_field(v, "reply_to") {
            Some(l) => l,
            None => {
                return None;
            },
        };
        let last_event = match crate::json::get_str_field(v, "last_event") {
            Some(s) => s,
            None => {
                return None;
            },
        };
        Some(
            Email {
                id,
                object,
                to,
                from,
                created_at,
                subject,
                html,
                text,
                bcc,
                cc,
                reply_to,
                last_event,
            },
        )
    }
}

/// One attachment of an outgoing email.  Raw byte content, plus an
/// optional file name or path; at least one of the two is expected by the
/// remote side, which validates — the crate does not enforce it.
pub struct Attachment {
    pub content: Vec<u8>,
    pub filename: String,
    pub path: String,
}

/// The serialized form of one attachment: content always, file name and
/// path only when non-empty.
pub open spec fn attachment_json(a: Attachment) -> Seq<char> {
    "{\"content\":"@ + byte_array(a.content@) + (if a.filename@.len() == 0 {
        Seq::<char>::empty()
    } else {
        ",\"filename\":"@ + quoted(a.filename@)
    }) + (if a.path@.len() == 0 {
        Seq::<char>::empty()
    } else {
        ",\"path\":"@ + quoted(a.path@)
    }) + "}"@
}

/// Appends the serialized form of one attachment.
fn push_attachment(out: &mut Vec<char>, a: &Attachment)
    ensures
        final(out)@ == old(out)@ + attachment_json(*a),
{
    crate::text::push_str_chars(out, "{\"content\":");
    crate::encode::push_byte_array(out, &a.content);
    if !a.filename.as_str().is_empty() {
        crate::text::push_str_chars(out, ",\"filename\":");
        crate::encode::push_quoted(out, a.filename.as_str());
    }
    if !a.path.as_str().is_empty() {
        crate::text::push_str_chars(out, ",\"path\":");
        crate::encode::push_quoted(out, a.path.as_str());
    }
    crate::text::push_str_chars(out, "}");
    proof {
        assert(out@ =~= old(out)@ + attachment_json(*a));
    }
}

/// A JSON array of serialized attachments.
pub open spec fn attachments_array(ats: Seq<Attachment>) -> Seq<char> {
    seq!['['] + comma_join(ats.map_values(|a: Attachment| attachment_json(a))) + seq![']']
}

/// Appends a JSON array holding the attachments, in order.
fn push_attachments(out: &mut Vec<char>, ats: &Vec<Attachment>)
    ensures
        final(out)@ == old(out)@ + attachments_array(ats@),
{
    out.push('[');
    let mut i: usize = 0;
    while i < ats.len()
        invariant
            i <= ats@.len(),
            out@ == old(out)@ + seq!['['] + comma_join(
                ats@.subrange(0, i as int).map_values(|a: Attachment| attachment_json(a)),
            ),
        decreases ats@.len() - i,
    {
        if i > 0 {
            out.push(',');
        }
        push_attachment(out, &ats[i]);
        i = i + 1;
        proof {
            let f = |a: Attachment| attachment_json(a);
            let part = ats@.subrange(0, i as int).map_values(f);
            let prev = ats@.subrange(0, i - 1).map_values(f);
            assert(part.drop_last() =~= prev);
            assert(part.last() == attachment_json(ats@[i - 1]));
            if i == 1 {
                assert(comma_join(part) == attachment_json(ats@[0]));
            }
            assert(out@ =~= old(out)@ + seq!['['] + comma_join(part));
        }
    }
    out.push(']');
    proof {
        assert(ats@.subrange(0, ats@.len() as int) =~= ats@);
        assert(out@ =~= old(out)@ + attachments_array(ats@));
    }
}

/// One tag of an outgoing email.
pub struct Tag {
    pub name: String,
    pub value: String,
}

impl Tag {
    /// A tag with the given name and value.
    pub fn new(name: &str, value: &str) -> (r: Self)
        ensures
            r.name@ == name@,
            r.value@ == value@,
    {
        Tag { name: String::from_str(name), value: String::from_str(value) }
    }
}

/// The serialized form of one tag: the name only when non-empty, the value
/// always.
pub open spec fn tag_json(t: Tag) -> Seq<char> {
    seq!['{'] + (if t.name@.len() == 0 {
        Seq::<char>::empty()
    } else {
        "\"name\":"@ + quoted(t.name@) + ","@
    }) + "\"value\":"@ + quoted(t.value@) + seq!['}']
}

/// Appends the serialized form of one tag.
fn push_tag(out: &mut Vec<char>, t: &Tag)
    ensures
        final(out)@ == old(out)@ + tag_json(*t),
{
    out.push('{');
    if !t.name.as_str().is_empty() {
        crate::text::push_str_chars(out, "\"name\":");
        crate::encode::push_quoted(out, t.name.as_str());
        crate::text::push_str_chars(out, ",");
    }
    crate::text::push_str_chars(out, "\"value\":");
    crate::encode::push_quoted(out, t.value.as_str());
    out.push('}');
    proof {
        assert(out@ =~= old(out)@ + tag_json(*t));
    }
}

/// A JSON array of serialized tags.
pub open spec fn tags_array(ts: Seq<Tag>) -> Seq<char> {
    seq!['['] + comma_join(ts.map_values(|t: Tag| tag_json(t))) + seq![']']
}

/// Appends a JSON array holding the tags, in order.
fn push_tags(out: &mut Vec<char>, ts: &Vec<Tag>)
    ensures
        final(out)@ == old(out)@ + tags_array(ts@),
{
    out.push('[');
    let mut i: usize = 0;
    while i < ts.len()
        invariant
            i <= ts@.len(),
            out@ == old(out)@ + seq!['['] + comma_join(
                ts@.subrange(0, i as int).map_values(|t: Tag| tag_json(t)),
            ),
        decreases ts@.len() - i,
    {
        if i > 0 {
            out.push(',');
        }
        push_tag(out, &ts[i]);
        i = i + 1;
        proof {
            let f = |t: Tag| tag_json(t);
            let part = ts@.subrange(0, i as int).map_values(f);
            let prev = ts@.subrange(0, i - 1).map_values(f);
            assert(part.drop_last() =~= prev);
            assert(part.last() == tag_json(ts@[i - 1]));
            if i == 1 {
                assert(comma_join(part) == tag_json(ts@[0]));
            }
            assert(out@ =~= old(out)@ + seq!['['] + comma_join(part));
        }
    }
    out.push(']');
    proof {
        assert(ts@.subrange(0, ts@.len() as int) =~= ts@);
        assert(out@ =~= old(out)@ + tags_array(ts@));
    }
}

/// One custom header of an outgoing email.
pub struct Header {
    pub name: String,
    pub value: String,
}

/// The serialized form of one header member.
pub open spec fn header_json(h: Header) -> Seq<char> {
    quoted(h.name@) + seq![':'] + quoted(h.value@)
}

/// The serialized header map: a JSON object, entries in the order given.
pub open spec fn headers_object(hs: Seq<Header>) -> Seq<char> {
    seq!['{'] + comma_join(hs.map_values(|h: Header| header_json(h))) + seq!['}']
}

/// Appends the serialized header map.
fn push_headers_object(out: &mut Vec<char>, hs: &Vec<Header>)
    ensures
        final(out)@ == old(out)@ + headers_object(hs@),
{
    out.push('{');
    let mut i: usize = 0;
    while i < hs.len()
        invariant
            i <= hs@.len(),
            out@ == old(out)@ + seq!['{'] + comma_join(
                hs@.subrange(0, i as int).map_values(|h: Header| header_json(h)),
            ),
        decreases hs@.len() - i,
    {
        if i > 0 {
            out.push(',');
        }
        crate::encode::push_quoted(out, hs[i].name.as_str());
        out.push(':');
        crate::encode::push_quoted(out, hs[i].value.as_str());
        i = i + 1;
        proof {
            let f = |h: Header| header_json(h);
            let part = hs@.subrange(0, i as int).map_values(f);
            let prev = hs@.subrange(0, i - 1).map_values(f);
            assert(part.drop_last() =~= prev);
            assert(part.last() == header_json(hs@[i - 1]));
            if i == 1 {
                assert(comma_join(part) == header_json(hs@[0]));
            }
            assert(out@ =~= old(out)@ + seq!['{'] + comma_join(part));
        }
    }
    out.push('}');
    proof {
        assert(hs@.subrange(0, hs@.len() as int) =~= hs@);
        assert(out@ =~= old(out)@ + headers_object(hs@));
    }
}

/// The body of the send operation.  `from`, `to` and `subject` are omitted
/// when empty; the container fields are always written, even when empty.
pub struct SendEmailRequest {
    pub from: String,
    pub to: Vec<String>,
    pub subject: String,
    pub bcc: Vec<String>,
    pub cc: Vec<String>,
    pub reply_to: Vec<String>,
    pub html: String,
    pub text: String,
    pub headers: Vec<Header>,
    pub attachments: Vec<Attachment>,
    pub tags: Vec<Tag>,
}

impl SendEmailRequest {
    /// The keys that are omitted when their value is empty: `from`, `to`
    /// and `subject`, each with a trailing comma when present.
    pub open spec fn opt_fields_json(self) -> Seq<char> {
        (if self.from@.len() == 0 {
            Seq::<char>::empty()
        } else {
            "\"from\":"@ + quoted(self.from@) + ","@
        }) + (if self.to@.len() == 0 {
            Seq::<char>::empty()
        } else {
            "\"to\":"@ + string_array(self.to.deep_view()) + ","@
        }) + (if self.subject@.len() == 0 {
            Seq::<char>::empty()
        } else {
            "\"subject\":"@ + quoted(self.subject@) + ","@
        })
    }

    /// The keys that are always written, even when their containers are
    /// empty.
    pub open spec fn required_fields_json(self) -> Seq<char> {
        "\"bcc\":"@ + string_array(self.bcc.deep_view()) + ",\"cc\":"@ + string_array(
            self.cc.deep_view(),
        ) + ",\"reply_to\":"@ + string_array(self.reply_to.deep_view()) + ",\"html\":"@ + quoted(
            self.html@,
        ) + ",\"text\":"@ + quoted(self.text@) + ",\"headers\":"@ + headers_object(self.headers@)
            + ",\"attachments\":"@ + attachments_array(self.attachments@) + ",\"tags\":"@
            + tags_array(self.tags@)
    }

    /// The serialized body, character by character.  An empty `from`, `to`
    /// or `subject` drops the whole key; `bcc`, `cc`, `reply_to`, `html`,
    /// `text`, `headers`, `attachments` and `tags` are always present.
    pub open spec fn json_spec(self) -> Seq<char> {
        seq!['{'] + self.opt_fields_json() + self.required_fields_json() + seq!['}']
    }

    /// Serializes the body.  Serialization is total: it cannot fail.
    pub fn to_json(&self) -> (r: String)
        ensures
            r@ == self.json_spec(),
    {
        let mut out: Vec<char> = Vec::new();
        out.push('{');
        proof {
            assert(out@ =~= seq!['{']);
        }
        push_optional_fields(&mut out, self);
        push_required_fields(&mut out, self);
        out.push('}');
        proof {
            assert(out@ =~= self.json_spec());
        }
        crate::text::chars_to_string(&out)
    }

    /// An empty builder: every field starts empty.
    pub fn builder() -> (b: SendEmailRequestBuilder)
        ensures
            builder_clear(b),
    {
        SendEmailRequestBuilder {
            from: String::new(),
            to: Vec::new(),
            subject: String::new(),
            bcc: Vec::new(),
            cc: Vec::new(),
            reply_to: Vec::new(),
            html: String::new(),
            text: String::new(),
            headers: Vec::new(),
            attachments: Vec::new(),
            tags: Vec::new(),
        }
    }
}

/// Appends the keys that are omitted when empty: `from`, `to`, `subject`.
fn push_optional_fields(out: &mut Vec<char>, r: &SendEmailRequest)
    ensures
        final(out)@ == old(out)@ + r.opt_fields_json(),
{
    if !r.from.as_str().is_empty() {
        crate::text::push_str_chars(out, "\"from\":");
        crate::encode::push_quoted(out, r.from.as_str());
        crate::text::push_str_chars(out, ",");
    }
    let ghost seg_from = (if r.from@.len() == 0 {
        Seq::<char>::empty()
    } else {
        "\"from\":"@ + quoted(r.from@) + ","@
    });
    proof {
        assert(out@ =~= old(out)@ + seg_from);
    }
    if r.to.len() > 0 {
        crate::text::push_str_chars(out, "\"to\":");
        crate::encode::push_string_array(out, &r.to);
        crate::text::push_str_chars(out, ",");
    }
    let ghost seg_to = (if r.to@.len() == 0 {
        Seq::<char>::empty()
    } else {
        "\"to\":"@ + string_array(r.to.deep_view()) + ","@
    });
    proof {
        assert(out@ =~= old(out)@ + seg_from + seg_to);
    }
    if !r.subject.as_str().is_empty() {
        crate::text::push_str_chars(out, "\"subject\":");
        crate::encode::push_quoted(out, r.subject.as_str());
        crate::text::push_str_chars(out, ",");
    }
    proof {
        assert(out@ =~= old(out)@ + r.opt_fields_json());
    }
}

/// Appends the keys that are always written.
#[verifier::rlimit(100)]
fn push_required_fields(out: &mut Vec<char>, r: &SendEmailRequest)
    ensures
        final(out)@ == old(out)@ + r.required_fields_json(),
{
    let ghost base = old(out)@;
    crate::text::push_str_chars(out, "\"bcc\":");
    crate::encode::push_string_array(out, &r.bcc);
    proof {
        assert(out@ =~= base + ("\"bcc\":"@ + string_array(r.bcc.deep_view())));
    }
    crate::text::push_str_chars(out, ",\"cc\":");
    crate::encode::push_string_array(out, &r.cc);
    proof {
        assert(out@ =~= base + ("\"bcc\":"@ + string_array(r.bcc.deep_view()) + ",\"cc\":"@
            + string_array(r.cc.deep_view())));
    }
    crate::text::push_str_chars(out, ",\"reply_to\":");
    crate::encode::push_string_array(out, &r.reply_to);
    proof {
        assert(out@ =~= base + ("\"bcc\":"@ + string_array(r.bcc.deep_view()) + ",\"cc\":"@
            + string_array(r.cc.deep_view()) + ",\"reply_to\":"@ + string_array(
            r.reply_to.deep_view(),
        )));
    }
    crate::text::push_str_chars(out, ",\"html\":");
    crate::encode::push_quoted(out, r.html.as_str());
    proof {
        assert(out@ =~= base + ("\"bcc\":"@ + string_array(r.bcc.deep_view()) + ",\"cc\":"@
            + string_array(r.cc.deep_view()) + ",\"reply_to\":"@ + string_array(
            r.reply_to.deep_view(),
        ) + ",\"html\":"@ + quoted(r.html@)));
    }
    crate::text::push_str_chars(out, ",\"text\":");
    crate::encode::push_quoted(out, r.text.as_str());
    proof {
        assert(out@ =~= base + ("\"bcc\":"@ + string_array(r.bcc.deep_view()) + ",\"cc\":"@
            + string_array(r.cc.deep_view()) + ",\"reply_to\":"@ + string_array(
            r.reply_to.deep_view(),
        ) + ",\"html\":"@ + quoted(r.html@) + ",\"text\":"@ + quoted(r.text@)));
    }
    crate::text::push_str_chars(out, ",\"headers\":");
    push_headers_object(out, &r.headers);
    proof {
        assert(out@ =~= base + ("\"bcc\":"@ + string_array(r.bcc.deep_view()) + ",\"cc\":"@
            + string_array(r.cc.deep_view()) + ",\"reply_to\":"@ + string_array(
            r.reply_to.deep_view(),
        ) + ",\"html\":"@ + quoted(r.html@) + ",\"text\":"@ + quoted(r.text@) + ",\"headers\":"@
            + headers_object(r.headers@)));
    }
    crate::text::push_str_chars(out, ",\"attachments\":");
    push_attachments(out, &r.attachments);
    proof {
        assert(out@ =~= base + ("\"bcc\":"@ + string_array(r.bcc.deep_view()) + ",\"cc\":"@
            + string_array(r.cc.deep_view()) + ",\"reply_to\":"@ + string_array(
            r.reply_to.deep_view(),
        ) + ",\"html\":"@ + quoted(r.html@) + ",\"text\":"@ + quoted(r.text@) + ",\"headers\":"@
            + headers_object(r.headers@) + ",\"attachments\":"@ + attachments_array(
            r.attachments@,
        )));
    }
    crate::text::push_str_chars(out, ",\"tags\":");
    push_tags(out, &r.tags);
    proof {
        assert(out@ =~= base + r.required_fields_json());
    }
}

/// True when every field of a builder is empty.
pub open spec fn builder_clear(b: SendEmailRequestBuilder) -> bool {
    &&& b.from@.len() == 0
    &&& b.to@.len() == 0
    &&& b.subject@.len() == 0
    &&& b.bcc@.len() == 0
    &&& b.cc@.len() == 0
    &&& b.reply_to@.len() == 0
    &&& b.html@.len() == 0
    &&& b.text@.len() == 0
    &&& b.headers@.len() == 0
    &&& b.attachments@.len() == 0
    &&& b.tags@.len() == 0
}

/// The index of the first header named `name`, or a negative value when
/// there is none.
pub open spec fn find_header(hs: Seq<Header>, name: Seq<char>) -> int
    decreases hs.len(),
{
    if hs.len() == 0 {
        -1
    } else if hs[0].name@ == name {
        0
    } else {
        let k = find_header(hs.drop_first(), name);
        if k < 0 {
            -1
        } else {
            k + 1
        }
    }
}

proof fn lemma_find_header_skip(hs: Seq<Header>, name: Seq<char>, i: int)
    requires
        0 <= i <= hs.len(),
        forall|j: int| 0 <= j < i ==> hs[j].name@ != name,
    ensures
        find_header(hs, name) == (if find_header(hs.skip(i), name) < 0 {
            -1 as int
        } else {
            find_header(hs.skip(i), name) + i
        }),
    decreases i,
{
    if i > 0 {
        lemma_find_header_skip(hs.drop_first(), name, i - 1);
        assert(hs.skip(i) =~= hs.drop_first().skip(i - 1));
    } else {
        assert(hs.skip(0) =~= hs);
    }
}

/// Fluent construction of a [`SendEmailRequest`]; every field starts empty
/// and each step sets one field, leaving the rest as they were.
pub struct SendEmailRequestBuilder {
    pub from: String,
    pub to: Vec<String>,
    pub subject: String,
    pub bcc: Vec<String>,
    pub cc: Vec<String>,
    pub reply_to: Vec<String>,
    pub html: String,
    pub text: String,
    pub headers: Vec<Header>,
    pub attachments: Vec<Attachment>,
    pub tags: Vec<Tag>,
}

impl SendEmailRequestBuilder {
    /// The finished request, field for field.
    pub fn build(self) -> (r: SendEmailRequest)
        ensures
            r == (SendEmailRequest {
                from: self.from,
                to: self.to,
                subject: self.subject,
                bcc: self.bcc,
                cc: self.cc,
                reply_to: self.reply_to,
                html: self.html,
                text: self.text,
                headers: self.headers,
                attachments: self.attachments,
                tags: self.tags,
            }),
    {
        SendEmailRequest {
            from: self.from,
            to: self.to,
            subject: self.subject,
            bcc: self.bcc,
            cc: self.cc,
            reply_to: self.reply_to,
            html: self.html,
            text: self.text,
            headers: self.headers,
            attachments: self.attachments,
            tags: self.tags,
        }
    }

    /// Sets the sender address.
    pub fn from(self, from: &str) -> (r: Self)
        ensures
            r.from@ == from@,
            r == (Self { from: r.from, ..self }),
    {
        Self { from: String::from_str(from), ..self }
    }

    /// Sets the recipient addresses.
    pub fn to(self, to: &[String]) -> (r: Self)
        ensures
            r.to@ == to@,
            r == (Self { to: r.to, ..self }),
    {
        Self { to: crate::text::strings_to_vec(to), ..self }
    }

    /// Sets the subject line.
    pub fn subject(self, subject: &str) -> (r: Self)
        ensures
            r.subject@ == subject@,
            r == (Self { subject: r.subject, ..self }),
    {
        Self { subject: String::from_str(subject), ..self }
    }

    /// Sets the blind-copy addresses.
    pub fn bcc(self, bcc: &[String]) -> (r: Self)
        ensures
            r.bcc@ == bcc@,
            r == (Self { bcc: r.bcc, ..self }),
    {
        Self { bcc: crate::text::strings_to_vec(bcc), ..self }
    }

    /// Sets the copy addresses.
    pub fn cc(self, cc: &[String]) -> (r: Self)
        ensures
            r.cc@ == cc@,
            r == (Self { cc: r.cc, ..self }),
    {
        Self { cc: crate::text::strings_to_vec(cc), ..self }
    }

    /// Sets the reply-to addresses.
    pub fn reply_to(self, reply_to: &[String]) -> (r: Self)
        ensures
            r.reply_to@ == reply_to@,
            r == (Self { reply_to: r.reply_to, ..self }),
    {
        Self { reply_to: crate::text::strings_to_vec(reply_to), ..self }
    }

    /// Sets the HTML body.
    pub fn html(self, html: &str) -> (r: Self)
        ensures
            r.html@ == html@,
            r == (Self { html: r.html, ..self }),
    {
        Self { html: String::from_str(html), ..self }
    }

    /// Sets the plain-text body.
    pub fn text(self, text: &str) -> (r: Self)
        ensures
            r.text@ == text@,
            r == (Self { text: r.text, ..self }),
    {
        Self { text: String::from_str(text), ..self }
    }

    /// Replaces the whole header map.  Names are expected to be unique, as
    /// in a map; the serializer writes entries in the order given.
    pub fn headers(self, headers: Vec<Header>) -> (r: Self)
        ensures
            r.headers == headers,
            r == (Self { headers: r.headers, ..self }),
    {
        Self { headers, ..self }
    }

    /// Adds one header: an existing name keeps its place and gets the new
    /// value, a new name is appended.
    pub fn add_header(self, key: &str, value: &str) -> (r: Self)
        ensures
            r == (Self { headers: r.headers, ..self }),
            find_header(self.headers@, key@) >= 0 ==> ({
                let k = find_header(self.headers@, key@);
                &&& r.headers@.len() == self.headers@.len()
                &&& forall|j: int|
                    0 <= j < self.headers@.len() && j != k ==> r.headers@[j] == self.headers@[j]
                &&& r.headers@[k].name@ == key@
                &&& r.headers@[k].value@ == value@
            }),
            find_header(self.headers@, key@) < 0 ==> ({
                &&& r.headers@.len() == self.headers@.len() + 1
                &&& forall|j: int|
                    0 <= j < self.headers@.len() ==> r.headers@[j] == self.headers@[j]
                &&& r.headers@[self.headers@.len() as int].name@ == key@
                &&& r.headers@[self.headers@.len() as int].value@ == value@
            }),
    {
        let mut me = self;
        let k = String::from_str(key);
        let n = me.headers.len();
        let mut i: usize = 0;
        while i < n
            invariant
                i <= n,
                n == me.headers@.len(),
                k@ == key@,
                me == self,
                forall|j: int| 0 <= j < i ==> me.headers@[j].name@ != key@,
            decreases n - i,
        {
            if me.headers[i].name == k {
                proof {
                    lemma_find_header_skip(self.headers@, key@, i as int);
                    assert(self.headers@.skip(i as int)[0] == self.headers@[i as int]);
                    assert(find_header(self.headers@, key@) == i as int);
                }
                me.headers[i] = Header { name: k, value: String::from_str(value) };
                return me;
            }
            i = i + 1;
        }
        proof {
            lemma_find_header_skip(self.headers@, key@, n as int);
            assert(self.headers@.skip(n as int) =~= Seq::<Header>::empty());
            assert(find_header(self.headers@, key@) < 0);
        }
        me.headers.push(Header { name: k, value: String::from_str(value) });
        me
    }

    /// Replaces the attachments.
    pub fn attachments(self, attachments: Vec<Attachment>) -> (r: Self)
        ensures
            r.attachments == attachments,
            r == (Self { attachments: r.attachments, ..self }),
    {
        Self { attachments, ..self }
    }

    /// Replaces the tags.
    pub fn tags(self, tags: Vec<Tag>) -> (r: Self)
        ensures
            r.tags == tags,
            r == (Self { tags: r.tags, ..self }),
    {
        Self { tags, ..self }
    }
}

/// Builds the wire request of the send operation: POST to the collection
/// endpoint, body serialized before any transport work.
pub fn send_request(client: &Client, r: &SendEmailRequest) -> (req: Request)
    ensures
        req.method is Post,
        req.url@ == crate::urls::resource_base_spec(client.base_url_spec(), "emails"@),
        req.body matches Some(b) && b@ == r.json_spec(),
{
    let url = crate::urls::emails::base(client.base_url());
    let body = r.to_json();
    Request::new(Method::Post, url.as_str(), Some(body))
}

/// Completes the send operation from the raw response.
pub fn send_result(status: u16, body: &str) -> (r: Result<SendEmailResponse, Error>)
    ensures
        match r {
            Ok(c) => {
                &&& is_success_status(status)
                &&& parsed_json(body@) matches Some(v)
                &&& send_email_response_fits(c, v)
            },
            Err(e) => match e {
                Error::Resend(_) => remote_error_case(status, body@, e),
                Error::JSON(_) => (is_success_status(status) && success_body_undecodable(
                    body@,
                    (|v: JsonModel| send_email_response_shape(v)),
                )) || (!is_success_status(status) && error_body_undecodable(body@)),
                _ => false,
            },
        },
{
    let text = match crate::interpret(status, body) {
        Ok(t) => t,
        Err(e) => {
            return Err(e);
        },
    };
    let v = match crate::json::parse_json(text.as_str()) {
        Ok(v) => v,
        Err(m) => {
            return Err(Error::JSON(m));
        },
    };
    match SendEmailResponse::from_json(&v) {
        Some(c) => Ok(c),
        None => Err(Error::JSON(String::from_str("response body does not have the expected shape"))),
    }
}

/// Builds the wire request of the get operation: GET with the id in the
/// path, no body.
pub fn get_request(client: &Client, email_id: &str) -> (req: Request)
    ensures
        req.method is Get,
        req.url@ == crate::urls::resource_with_id_spec(
            client.base_url_spec(),
            "emails"@,
            email_id@,
        ),
        req.body is None,
{
    let url = crate::urls::emails::with_id(client.base_url(), email_id);
    Request::new(Method::Get, url.as_str(), None)
}

/// Completes the get operation from the raw response.
pub fn get_result(status: u16, body: &str) -> (r: Result<Email, Error>)
    ensures
        match r {
            Ok(e) => {
                &&& is_success_status(status)
                &&& parsed_json(body@) matches Some(v)
                &&& email_shape(v)
                &&& email_fits(e, v)
            },
            Err(e) => match e {
                Error::Resend(_) => remote_error_case(status, body@, e),
                Error::JSON(_) => (is_success_status(status) && success_body_undecodable(
                    body@,
                    (|v: JsonModel| email_shape(v)),
                )) || (!is_success_status(status) && error_body_undecodable(body@)),
                _ => false,
            },
        },
{
    let text = match crate::interpret(status, body) {
        Ok(t) => t,
        Err(e) => {
            return Err(e);
        },
    };
    let v = match crate::json::parse_json(text.as_str()) {
        Ok(v) => v,
        Err(m) => {
            return Err(Error::JSON(m));
        },
    };
    match Email::from_json(&v) {
        Some(e) => Ok(e),
        None => Err(Error::JSON(String::from_str("response body does not have the expected shape"))),
    }
}

} // verus!
