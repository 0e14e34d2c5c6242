use request_engine::models::Cookie;
use request_engine::models::CookieJar;
use request_engine::models::HttpResponse;
use request_engine::models::HttpResponseHeader;
use request_engine::models::replace_cookies;
use request_engine::response::body_file_name;
use request_engine::response::complete_response;
use request_engine::response::SendOutcome;

fn pending() -> HttpResponse {
    HttpResponse::pending("rs_1".to_string(), "wk_1".to_string(), "rq_1".to_string())
}

#[test]
fn a_pending_response_has_neither_status_nor_error() {
    let r = pending();
    assert_eq!(r.status, 0);
    assert_eq!(r.elapsed, 0);
    assert_eq!(r.error, None);
    assert_eq!(r.body_path, None);
}

#[test]
fn a_completed_send_sets_the_status_and_never_the_error() {
    let outcome = SendOutcome::Completed {
        status: 200,
        status_reason: Some("OK".to_string()),
        headers: vec![HttpResponseHeader {
            name: "content-type".to_string(),
            value: "application/json".to_string(),
        }],
        url: "http://example.com/".to_string(),
        remote_addr: Some("93.184.216.34:80".to_string()),
        version: Some("HTTP/1.1".to_string()),
        content_length: Some(12),
        body_len: 99,
        elapsed_headers: 5,
        elapsed: 17,
        body_path: "/data/responses/rs_1".to_string(),
    };
    let r = complete_response(pending(), outcome);
    assert_eq!(r.status, 200);
    assert_eq!(r.status_reason, Some("OK".to_string()));
    assert_eq!(r.error, None);
    assert_eq!(r.elapsed, 17);
    assert_eq!(r.elapsed_headers, 5);
    assert_eq!(r.content_length, Some(12));
    assert_eq!(r.body_path, Some("/data/responses/rs_1".to_string()));
    assert_eq!(r.id, "rs_1");
}

#[test]
fn without_a_reported_length_the_byte_count_stands() {
    let outcome = SendOutcome::Completed {
        status: 204,
        status_reason: None,
        headers: vec![],
        url: "http://example.com/".to_string(),
        remote_addr: None,
        version: None,
        content_length: None,
        body_len: 99,
        elapsed_headers: 1,
        elapsed: 2,
        body_path: "/data/responses/rs_1".to_string(),
    };
    let r = complete_response(pending(), outcome);
    assert_eq!(r.content_length, Some(99));
}

#[test]
fn a_transport_failure_sets_the_error_and_the_sentinel() {
    let r = complete_response(
        pending(),
        SendOutcome::TransportFailed { message: "dns error".to_string() },
    );
    assert_eq!(r.error, Some("dns error".to_string()));
    assert_eq!(r.elapsed, -1);
    assert_eq!(r.status, 0);
    assert_eq!(r.body_path, None);
}

#[test]
fn cancellation_sets_the_fixed_message_and_writes_no_body() {
    let r = complete_response(pending(), SendOutcome::SendCancelled);
    assert_eq!(r.error, Some("Request was cancelled".to_string()));
    assert_eq!(r.elapsed, -1);
    assert_eq!(r.body_path, None);
}

#[test]
fn the_body_file_is_the_response_id_or_the_generated_name() {
    assert_eq!(body_file_name("rs_9", "fresh".to_string()), "rs_9");
    assert_eq!(body_file_name("", "fresh".to_string()), "fresh");
}

#[test]
fn the_store_rewrites_the_jar_whole() {
    let mut jar = CookieJar {
        id: "cj_1".to_string(),
        workspace_id: "wk_1".to_string(),
        name: "default".to_string(),
        cookies: vec![Cookie {
            domain: "old.example".to_string(),
            path: "/".to_string(),
            name: "sid".to_string(),
            value: "1".to_string(),
        }],
    };
    let fresh = vec![
        Cookie {
            domain: "example.com".to_string(),
            path: "/".to_string(),
            name: "sid".to_string(),
            value: "2".to_string(),
        },
        Cookie {
            domain: "example.com".to_string(),
            path: "/x".to_string(),
            name: "pref".to_string(),
            value: "dark".to_string(),
        },
    ];
    replace_cookies(&mut jar, fresh);
    assert_eq!(jar.cookies.len(), 2);
    assert_eq!(jar.cookies[0].value, "2");
    assert_eq!(jar.name, "default");
}
