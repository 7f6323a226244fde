//! The response interpreter and the typed decoders.

use resend_rust::Error;
use resend_rust::interpret;

#[test]
fn test_interpret_success_hands_body_back() {
    let r = interpret(200, "{\"id\":\"e1\"}");
    assert_eq!(r.unwrap(), "{\"id\":\"e1\"}");

    let r = interpret(201, "{\"id\":\"e2\"}");
    assert_eq!(r.unwrap(), "{\"id\":\"e2\"}");
}

#[test]
fn test_interpret_remote_error() {
    let r = interpret(422, "{\"name\":\"validation_error\",\"message\":\"bad\"}");
    match r {
        Err(Error::Resend(e)) => {
            assert_eq!(e.name, "validation_error");
            assert_eq!(e.message, "bad");
            assert_eq!(e.status_code, None);
        },
        _ => panic!("expected a remote error"),
    }
}

#[test]
fn test_interpret_remote_error_with_status_code() {
    let r = interpret(422, "{\"name\":\"validation_error\",\"message\":\"bad\",\"status_code\":422}");
    match r {
        Err(Error::Resend(e)) => {
            assert_eq!(e.name, "validation_error");
            assert_eq!(e.message, "bad");
            assert_eq!(e.status_code, Some(422));
        },
        _ => panic!("expected a remote error"),
    }
}

#[test]
fn test_interpret_undecodable_error_body() {
    let r = interpret(500, "<html>oops</html>");
    assert!(matches!(r, Err(Error::JSON(_))));

    let r = interpret(500, "{\"unexpected\":true}");
    assert!(matches!(r, Err(Error::JSON(_))));
}

#[test]
fn test_domain_decode_with_records() {
    let body = "{\"id\":\"d1\",\"name\":\"ex.com\",\"created_at\":\"t\",\"status\":\"verified\",\"records\":[{\"record\":\"SPF\",\"name\":\"ex.com\",\"type\":\"TXT\",\"ttl\":\"300\",\"value\":\"v=spf1\",\"priority\":10}],\"region\":\"us-east-1\"}";
    let d = resend_rust::domains::get_result(200, body).unwrap();
    assert_eq!(d.id, "d1");
    assert_eq!(d.name, "ex.com");
    assert_eq!(d.status, "verified");
    assert_eq!(d.region.as_deref(), Some("us-east-1"));
    assert_eq!(d.dns_provider, None);
    let records = d.records.unwrap();
    assert_eq!(records.len(), 1);
    assert_eq!(records[0].record, "SPF");
    assert_eq!(records[0].record_type, "TXT");
    assert_eq!(records[0].ttl, "300");
    assert_eq!(records[0].value, "v=spf1");
    assert_eq!(records[0].status, None);
    assert_eq!(records[0].priority, Some(10));
}

#[test]
fn test_domain_decode_tolerates_absent_optional_fields() {
    let body = "{\"id\":\"d1\",\"name\":\"ex.com\",\"created_at\":\"t\",\"status\":\"pending\"}";
    let d = resend_rust::domains::get_result(200, body).unwrap();
    assert!(d.records.is_none());
    assert!(d.region.is_none());
    assert!(d.dns_provider.is_none());
}

#[test]
fn test_domain_delete_confirmation() {
    let body = "{\"object\":\"domain\",\"id\":\"d1\",\"deleted\":true}";
    let c = resend_rust::domains::delete_result(200, body).unwrap();
    assert_eq!(c.object, "domain");
    assert_eq!(c.id, "d1");
    assert!(c.deleted);
}

#[test]
fn test_domain_verify_response() {
    let body = "{\"object\":\"domain\",\"id\":\"d1\"}";
    let c = resend_rust::domains::verify_result(200, body).unwrap();
    assert_eq!(c.object, "domain");
    assert_eq!(c.id, "d1");
}

#[test]
fn test_api_key_delete_accepts_empty_body() {
    let r = resend_rust::api_keys::delete_result(200, "");
    assert!(r.is_ok());
}

#[test]
fn test_domain_delete_requires_structured_confirmation() {
    let r = resend_rust::domains::delete_result(200, "");
    assert!(matches!(r, Err(Error::JSON(_))));
}

#[test]
fn test_email_decode() {
    let body = "{\"id\":\"e1\",\"object\":\"email\",\"to\":[\"t@x.com\"],\"from\":\"f@x.com\",\"created_at\":\"ts\",\"subject\":\"s\",\"html\":\"\",\"text\":\"b\",\"bcc\":[],\"cc\":[],\"reply_to\":[],\"last_event\":\"delivered\"}";
    let e = resend_rust::emails::get_result(200, body).unwrap();
    assert_eq!(e.id, "e1");
    assert_eq!(e.object, "email");
    assert_eq!(e.to, vec!["t@x.com".to_owned()]);
    assert_eq!(e.from, "f@x.com");
    assert_eq!(e.created_at, "ts");
    assert_eq!(e.subject, "s");
    assert_eq!(e.html, "");
    assert_eq!(e.text, "b");
    assert!(e.bcc.is_empty());
    assert!(e.cc.is_empty());
    assert!(e.reply_to.is_empty());
    assert_eq!(e.last_event, "delivered");
}

#[test]
fn test_success_body_of_wrong_shape_is_a_decode_failure() {
    let r = resend_rust::api_keys::create_result(200, "{\"id\":5}");
    assert!(matches!(r, Err(Error::JSON(_))));

    let r = resend_rust::api_keys::create_result(200, "not json at all");
    assert!(matches!(r, Err(Error::JSON(_))));
}

#[test]
fn test_remote_error_propagates_through_operations() {
    let r = resend_rust::api_keys::create_result(404, "{\"name\":\"not_found\",\"message\":\"missing\"}");
    match r {
        Err(Error::Resend(e)) => {
            assert_eq!(e.name, "not_found");
            assert_eq!(e.message, "missing");
        },
        _ => panic!("expected a remote error"),
    }
}

#[test]
fn test_batch_send_result() {
    let body = "{\"data\":[{\"id\":\"a\"},{\"id\":\"b\"}]}";
    let r = resend_rust::batch::send_result(200, body).unwrap();
    assert_eq!(r.data.len(), 2);
    assert_eq!(r.data[0].id, "a");
    assert_eq!(r.data[1].id, "b");
}
