use bytes::Bytes;
use openworkers_runtime_deno::{
    HttpRequest, HttpResponse, RequestBody, ResponseBody, ResponseMeta, TerminationReason,
};

fn body_bytes(body: &ResponseBody) -> Option<Vec<u8>> {
    match body {
        ResponseBody::Bytes(b) => Some(b.to_vec()),
        _ => None,
    }
}

#[test]
fn request_from_server_parts() {
    let raw = vec![
        ("host".to_string(), Some("example.com".to_string())),
        ("x-binary".to_string(), None),
        ("accept".to_string(), Some("*/*".to_string())),
        ("accept".to_string(), Some("text/html".to_string())),
    ];
    let req = HttpRequest::from_actix(
        "POST",
        "https",
        "example.com",
        "/path?q=1",
        &raw,
        Bytes::from_static(b"payload"),
    );
    assert_eq!(req.method, "POST");
    assert_eq!(req.url, "https://example.com/path?q=1");
    assert_eq!(
        req.headers,
        vec![
            ("host".to_string(), "example.com".to_string()),
            ("accept".to_string(), "*/*".to_string()),
            ("accept".to_string(), "text/html".to_string()),
        ]
    );
    match req.body {
        RequestBody::Bytes(b) => assert_eq!(&b[..], b"payload"),
        other => panic!("expected bytes, got {:?}", other),
    }
}

#[test]
fn request_with_empty_body_has_no_body() {
    let req = HttpRequest::from_actix("GET", "http", "localhost", "/", &vec![], Bytes::new());
    assert_eq!(req.url, "http://localhost/");
    assert!(req.headers.is_empty());
    assert!(matches!(req.body, RequestBody::Empty));
}

#[test]
fn response_keeps_a_valid_status() {
    for status in [100u16, 200, 404, 599] {
        let res = HttpResponse::new(ResponseMeta { status, headers: vec![] }, ResponseBody::Empty);
        assert_eq!(res.status, status);
    }
}

#[test]
fn response_with_invalid_status_is_500() {
    for status in [0u16, 99, 600, 999, u16::MAX] {
        let res = HttpResponse::new(ResponseMeta { status, headers: vec![] }, ResponseBody::Empty);
        assert_eq!(res.status, 500);
    }
}

#[test]
fn response_keeps_headers_and_body() {
    let headers = vec![
        ("content-type".to_string(), "text/plain".to_string()),
        ("set-cookie".to_string(), "a=1".to_string()),
        ("set-cookie".to_string(), "b=2".to_string()),
    ];
    let res = HttpResponse::new(
        ResponseMeta { status: 201, headers: headers.clone() },
        ResponseBody::Bytes(Bytes::from_static(b"made")),
    );
    assert_eq!(res.headers, headers);
    assert_eq!(body_bytes(&res.body), Some(b"made".to_vec()));
}

#[test]
fn response_for_a_reason() {
    let res = HttpResponse::from_reason(&TerminationReason::WallClockTimeout);
    assert_eq!(res.status, 504);
    assert!(res.headers.is_empty());
    assert_eq!(
        body_bytes(&res.body),
        Some(b"Worker exceeded wall-clock time limit".to_vec())
    );
    let res = HttpResponse::from_reason(&TerminationReason::Exception("boom".to_string()));
    assert_eq!(res.status, 500);
    assert_eq!(body_bytes(&res.body), Some(b"Worker threw an uncaught exception".to_vec()));
}

#[test]
fn answer_after_success_is_the_script_response() {
    let delivered = HttpResponse::new(
        ResponseMeta { status: 200, headers: vec![] },
        ResponseBody::Bytes(Bytes::from_static(b"Hello")),
    );
    let answer = HttpResponse::for_outcome(Ok(()), Some(delivered)).unwrap();
    assert_eq!(answer.status, 200);
    assert_eq!(body_bytes(&answer.body), Some(b"Hello".to_vec()));
}

#[test]
fn no_answer_after_success_without_a_response() {
    assert!(HttpResponse::for_outcome(Ok(()), None).is_none());
}

#[test]
fn answer_after_failure_is_made_from_the_reason() {
    let delivered = HttpResponse::new(
        ResponseMeta { status: 200, headers: vec![] },
        ResponseBody::Bytes(Bytes::from_static(b"Hello")),
    );
    let answer =
        HttpResponse::for_outcome(Err(TerminationReason::CpuTimeLimit), Some(delivered)).unwrap();
    assert_eq!(answer.status, 429);
    assert_eq!(body_bytes(&answer.body), Some(b"Worker exceeded CPU time limit".to_vec()));
    let answer = HttpResponse::for_outcome(Err(TerminationReason::Aborted), None).unwrap();
    assert_eq!(answer.status, 503);
    assert_eq!(body_bytes(&answer.body), Some(b"Worker was aborted".to_vec()));
}
