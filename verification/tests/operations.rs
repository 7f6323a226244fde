//! Whole operations driven against a stubbed transport: the request is
//! built, a canned raw response is fed back, and the typed result checked.

use resend_rust::Client;
use resend_rust::api_keys;
use resend_rust::default_base_url;
use resend_rust::emails;
use resend_rust::http::Method;
use resend_rust::http::Request;
use resend_rust::http::outgoing_body;
use resend_rust::http::wire_headers;
use resend_rust::urls::resource_base;
use resend_rust::urls::resource_with_id;

#[test]
fn test_url_builder() {
    assert_eq!(
        resource_with_id("https://api.x.com", "domains", "abc123"),
        "https://api.x.com/domains/abc123"
    );
    assert_eq!(resource_base("https://api.x.com", "emails"), "https://api.x.com/emails");
    assert_eq!(resend_rust::urls::api_keys::base("https://api.x.com"), "https://api.x.com/api-keys");
    assert_eq!(
        resend_rust::urls::api_keys::with_id("https://api.x.com", "k1"),
        "https://api.x.com/api-keys/k1"
    );
    assert_eq!(
        resend_rust::urls::domains::with_id("https://api.x.com", "d1"),
        "https://api.x.com/domains/d1"
    );
    assert_eq!(
        resend_rust::urls::emails::with_id("https://api.x.com", "e1"),
        "https://api.x.com/emails/e1"
    );
}

#[test]
fn test_client_configuration() {
    let c = Client::new("tok");
    assert_eq!(c.base_url(), default_base_url());
    assert_eq!(c.base_url(), "https://api.resend.com");
    assert_eq!(c.api_key(), "tok");

    let c = Client::new_with_base_url("tok", "https://api.x.com");
    assert_eq!(c.base_url(), "https://api.x.com");
}

#[test]
fn test_wire_headers_and_body_rules() {
    let hs = wire_headers("tok");
    assert_eq!(hs.len(), 2);
    assert_eq!(hs[0].0, "Authorization");
    assert_eq!(hs[0].1, "Bearer tok");
    assert_eq!(hs[1].0, "Content-Type");
    assert_eq!(hs[1].1, "application/json");

    let post = Request::new(Method::Post, "u", Some("b".to_owned()));
    assert_eq!(outgoing_body(&post), Some("b".to_owned()));

    let get = Request::new(Method::Get, "u", None);
    assert_eq!(outgoing_body(&get), None);

    let delete = Request::new(Method::Delete, "u", Some("ignored".to_owned()));
    assert_eq!(outgoing_body(&delete), None);
}

#[test]
fn test_round_trip_create_api_key() {
    let r = api_keys::CreateRequest {
        name: "test-api-key".to_owned(),
        permission: api_keys::Permission::SendingAccess,
        domain_id: "test-domain-id".to_owned(),
    };
    let c = Client::new("tok");
    let req = api_keys::create_request(&c, &r);
    assert_eq!(req.method, Method::Post);
    assert_eq!(req.url, "https://api.resend.com/api-keys");
    assert_eq!(req.body.as_deref(), Some(r.to_json().as_str()));

    let out = api_keys::create_result(200, "{\"id\":\"k1\",\"token\":\"secret\"}").unwrap();
    assert_eq!(out.id, "k1");
    assert_eq!(out.token, "secret");
}

#[test]
fn test_list_api_keys_against_stub() {
    let c = Client::new("tok");
    let stub = |req: &Request| -> (u16, String) {
        assert_eq!(req.method, Method::Get);
        assert_eq!(req.url, "https://api.resend.com/api-keys");
        assert!(req.body.is_none());
        (200, "{\"data\":[{\"id\":\"1\",\"name\":\"a\",\"created_at\":\"t\"}]}".to_owned())
    };

    let req = api_keys::list_request(&c);
    let (status, body) = stub(&req);
    let keys = api_keys::list_result(status, &body).unwrap().data;
    assert_eq!(keys.len(), 1);
    assert_eq!(keys[0].id, "1");
    assert_eq!(keys[0].name, "a");
    assert_eq!(keys[0].created_at, "t");
}

#[test]
fn test_send_twice_dispatches_twice() {
    let c = Client::new("tok");
    let r = emails::SendEmailRequest::builder()
        .to(&["t@x.com".to_owned()])
        .from("f@x.com")
        .subject("Test Email!")
        .text("Test email!")
        .build();

    let mut calls: usize = 0;
    let mut stub = |_req: &Request| -> (u16, String) {
        calls += 1;
        (200, format!("{{\"id\":\"e{}\"}}", calls))
    };

    let req1 = emails::send_request(&c, &r);
    let (s1, b1) = stub(&req1);
    let first = emails::send_result(s1, &b1).unwrap();

    let req2 = emails::send_request(&c, &r);
    let (s2, b2) = stub(&req2);
    let second = emails::send_result(s2, &b2).unwrap();

    assert_eq!(calls, 2);
    assert_eq!(first.id, "e1");
    assert_eq!(second.id, "e2");
    assert_eq!(req1.body, req2.body);
}

#[test]
fn test_domain_requests() {
    let c = Client::new_with_base_url("tok", "https://api.x.com");
    let add = resend_rust::domains::add_request(
        &c,
        &resend_rust::domains::AddRequest {
            name: "test-resend-client.com".to_owned(),
            region: "us-east-1".to_owned(),
        },
    );
    assert_eq!(add.method, Method::Post);
    assert_eq!(add.url, "https://api.x.com/domains");
    assert_eq!(
        add.body.as_deref(),
        Some("{\"name\":\"test-resend-client.com\",\"region\":\"us-east-1\"}")
    );

    let verify = resend_rust::domains::verify_request(&c, "d1");
    assert_eq!(verify.method, Method::Post);
    assert_eq!(verify.url, "https://api.x.com/domains/d1");
    assert!(verify.body.is_none());

    let delete = resend_rust::domains::delete_request(&c, "d1");
    assert_eq!(delete.method, Method::Delete);
    assert_eq!(delete.url, "https://api.x.com/domains/d1");
    assert!(delete.body.is_none());

    let get = resend_rust::domains::get_request(&c, "d1");
    assert_eq!(get.method, Method::Get);
    assert_eq!(get.url, "https://api.x.com/domains/d1");

    let list = resend_rust::domains::list_request(&c);
    assert_eq!(list.method, Method::Get);
    assert_eq!(list.url, "https://api.x.com/domains");
}

#[test]
fn test_list_domains_envelope() {
    let body = "{\"data\":[{\"id\":\"d1\",\"name\":\"ex.com\",\"created_at\":\"t\",\"status\":\"verified\"}]}";
    let l = resend_rust::domains::list_result(200, body).unwrap();
    assert_eq!(l.data.len(), 1);
    assert_eq!(l.data[0].id, "d1");
}

#[test]
fn test_email_get_request() {
    let c = Client::new("tok");
    let req = emails::get_request(&c, "e1");
    assert_eq!(req.method, Method::Get);
    assert_eq!(req.url, "https://api.resend.com/emails/e1");
    assert!(req.body.is_none());
}
