//! Serialized request bodies, character by character.

use resend_rust::api_keys::CreateRequest;
use resend_rust::api_keys::Permission;
use resend_rust::batch::batch_to_json;
use resend_rust::domains::AddRequest;
use resend_rust::emails::Attachment;
use resend_rust::emails::Header;
use resend_rust::emails::SendEmailRequest;
use resend_rust::emails::Tag;

#[test]
fn test_serialize_create_request() {
    let expected =
        "{\"name\":\"test-api-key\",\"permission\":\"full_access\",\"domain_id\":\"test-domain-id\"}";
    let json = CreateRequest {
        name: "test-api-key".to_owned(),
        permission: Permission::FullAccess,
        domain_id: "test-domain-id".to_owned(),
    }
    .to_json();

    assert_eq!(expected, json);
}

#[test]
fn test_permission_literals() {
    assert_eq!(Permission::FullAccess.as_str(), "full_access");
    assert_eq!(Permission::SendingAccess.as_str(), "sending_access");

    let json = CreateRequest {
        name: "k".to_owned(),
        permission: Permission::SendingAccess,
        domain_id: "d".to_owned(),
    }
    .to_json();
    assert_eq!(json, "{\"name\":\"k\",\"permission\":\"sending_access\",\"domain_id\":\"d\"}");
}

#[test]
fn test_empty_send_request_omits_optional_keys() {
    let r = SendEmailRequest::builder().build();
    assert_eq!(
        r.to_json(),
        "{\"bcc\":[],\"cc\":[],\"reply_to\":[],\"html\":\"\",\"text\":\"\",\"headers\":{},\"attachments\":[],\"tags\":[]}"
    );
}

#[test]
fn test_send_request_with_fields() {
    let r = SendEmailRequest::builder()
        .to(&["t@x.com".to_owned()])
        .from("f@x.com")
        .subject("Test Email!")
        .text("Test email!")
        .build();
    assert_eq!(
        r.to_json(),
        "{\"from\":\"f@x.com\",\"to\":[\"t@x.com\"],\"subject\":\"Test Email!\",\"bcc\":[],\"cc\":[],\"reply_to\":[],\"html\":\"\",\"text\":\"Test email!\",\"headers\":{},\"attachments\":[],\"tags\":[]}"
    );
}

#[test]
fn test_string_escaping() {
    let r = CreateRequest {
        name: "a\"b\\c\nd\te\u{1}".to_owned(),
        permission: Permission::FullAccess,
        domain_id: "d".to_owned(),
    }
    .to_json();
    assert_eq!(
        r,
        "{\"name\":\"a\\\"b\\\\c\\nd\\te\\u0001\",\"permission\":\"full_access\",\"domain_id\":\"d\"}"
    );
}

#[test]
fn test_non_ascii_text_stays_unescaped() {
    let r = CreateRequest {
        name: "caf\u{e9} \u{2708}".to_owned(),
        permission: Permission::FullAccess,
        domain_id: "d".to_owned(),
    }
    .to_json();
    assert_eq!(
        r,
        "{\"name\":\"caf\u{e9} \u{2708}\",\"permission\":\"full_access\",\"domain_id\":\"d\"}"
    );
}

#[test]
fn test_attachments_and_tags_serialization() {
    let r = SendEmailRequest::builder()
        .attachments(vec![Attachment {
            content: vec![1, 255, 0],
            filename: "f.txt".to_owned(),
            path: String::new(),
        }])
        .tags(vec![Tag::new("n", "v"), Tag { name: String::new(), value: "only".to_owned() }])
        .build();
    assert_eq!(
        r.to_json(),
        "{\"bcc\":[],\"cc\":[],\"reply_to\":[],\"html\":\"\",\"text\":\"\",\"headers\":{},\"attachments\":[{\"content\":[1,255,0],\"filename\":\"f.txt\"}],\"tags\":[{\"name\":\"n\",\"value\":\"v\"},{\"value\":\"only\"}]}"
    );
}

#[test]
fn test_headers_add_and_replace() {
    let r = SendEmailRequest::builder()
        .add_header("X-A", "1")
        .add_header("X-B", "2")
        .add_header("X-A", "3")
        .build();
    assert_eq!(
        r.to_json(),
        "{\"bcc\":[],\"cc\":[],\"reply_to\":[],\"html\":\"\",\"text\":\"\",\"headers\":{\"X-A\":\"3\",\"X-B\":\"2\"},\"attachments\":[],\"tags\":[]}"
    );
}

#[test]
fn test_headers_setter() {
    let r = SendEmailRequest::builder()
        .headers(vec![Header { name: "X-K".to_owned(), value: "v".to_owned() }])
        .build();
    assert_eq!(
        r.to_json(),
        "{\"bcc\":[],\"cc\":[],\"reply_to\":[],\"html\":\"\",\"text\":\"\",\"headers\":{\"X-K\":\"v\"},\"attachments\":[],\"tags\":[]}"
    );
}

#[test]
fn test_serialize_add_domain_request() {
    let r = AddRequest { name: "test-resend-client.com".to_owned(), region: "us-east-1".to_owned() };
    assert_eq!(r.to_json(), "{\"name\":\"test-resend-client.com\",\"region\":\"us-east-1\"}");
}

#[test]
fn test_batch_body_is_array_of_send_bodies() {
    let a = SendEmailRequest::builder().from("a@x.com").build();
    let b = SendEmailRequest::builder().from("b@x.com").build();
    let one = a.to_json();
    let two = b.to_json();
    let joined = batch_to_json(&vec![a, b]);
    assert_eq!(joined, format!("[{},{}]", one, two));
}
