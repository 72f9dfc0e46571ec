use extio::CannedHttpBackend;
use extio::Extio;
use extio::HttpMethod;
use extio::HttpRequest;
use extio::HttpResponse;
use extio::IoError;
use extio::Op;

fn canned_response() -> HttpResponse {
    let headers = vec![
        ("content-type".to_string(), b"text/plain".to_vec()),
        ("x-request-id".to_string(), b"42".to_vec()),
    ];
    HttpResponse::build(200, headers, b"hello from the canned transport".to_vec()).unwrap()
}

#[test]
fn get_request_with_empty_body_returns_canned_response_exactly() {
    let mut backend = CannedHttpBackend::new(canned_response());
    let req = HttpRequest::new(HttpMethod::Get, "http://test.invalid/fixed".to_string());
    assert_eq!(req.body, Vec::<u8>::new());
    match backend.http_request(req) {
        Ok(resp) => {
            assert!(resp.status >= 100 && resp.status <= 599);
            assert_eq!(resp.status, 200);
            assert_eq!(
                resp.headers,
                vec![
                    ("content-type".to_string(), b"text/plain".to_vec()),
                    ("x-request-id".to_string(), b"42".to_vec()),
                ]
            );
            assert_eq!(resp.body, b"hello from the canned transport".to_vec());
        }
        Err(_) => panic!("the canned backend must answer every request"),
    }
}

#[test]
fn response_round_trip_loses_and_reorders_nothing() {
    let headers = vec![
        ("b-second".to_string(), vec![2u8]),
        ("a-first".to_string(), vec![1u8]),
        ("b-second".to_string(), vec![3u8]),
    ];
    let resp = HttpResponse::build(504, headers.clone(), vec![9, 8, 7]).unwrap();
    let mut backend = CannedHttpBackend::new(resp);
    let req = HttpRequest::new(HttpMethod::Post, "http://test.invalid/echo".to_string());
    let got = backend.http_request(req).unwrap();
    assert_eq!(got.status, 504);
    assert_eq!(got.headers, headers);
    assert_eq!(got.body, vec![9, 8, 7]);
}

#[test]
fn overriding_http_request_satisfies_no_other_operation() {
    let mut backend = CannedHttpBackend::new(canned_response());
    match backend.read_file("a.txt") {
        Err(IoError::NotSupported(op)) => assert_eq!(op, Op::ReadFile),
        _ => panic!("read_file must stay at its default"),
    }
    match backend.storage_get("key") {
        Err(IoError::NotSupported(op)) => assert_eq!(op, Op::StorageGet),
        _ => panic!("storage_get must stay at its default"),
    }
    match backend.get_env("NONEXISTENT_KEY_X") {
        Err(IoError::NotSupported(op)) => assert_eq!(op, Op::GetEnv),
        _ => panic!("get_env must stay at its default"),
    }
    match backend.sign(&[1]) {
        Err(IoError::NotSupported(op)) => assert_eq!(op, Op::Sign),
        _ => panic!("sign must stay at its default"),
    }
    match backend.sleep(1) {
        Err(IoError::NotSupported(op)) => assert_eq!(op, Op::Sleep),
        _ => panic!("sleep must stay at its default"),
    }
    // The one overridden operation still answers.
    let req = HttpRequest::new(HttpMethod::Get, "http://test.invalid/".to_string());
    assert!(backend.http_request(req).is_ok());
}

#[test]
fn backend_stays_usable_after_declined_calls() {
    let mut backend = CannedHttpBackend::new(canned_response());
    let _ = backend.mq_consume("topic");
    let _ = backend.ws_connect("ws://test.invalid/");
    let req = HttpRequest::new(HttpMethod::Get, "http://test.invalid/".to_string());
    let got = backend.http_request(req).unwrap();
    assert_eq!(got.status, 200);
}

#[test]
fn request_builder_keeps_method_uri_headers_and_body() {
    let mut req = HttpRequest::new(HttpMethod::Put, "http://test.invalid/item".to_string());
    req.add_header("accept".to_string(), b"*/*".to_vec());
    req.add_header("x-trace".to_string(), b"abc".to_vec());
    req.set_body(vec![1, 2, 3, 4]);
    assert_eq!(req.method, HttpMethod::Put);
    assert_eq!(req.uri, "http://test.invalid/item".to_string());
    assert_eq!(
        req.headers,
        vec![
            ("accept".to_string(), b"*/*".to_vec()),
            ("x-trace".to_string(), b"abc".to_vec()),
        ]
    );
    assert_eq!(req.body, vec![1, 2, 3, 4]);
}

#[test]
fn method_spellings_are_the_standard_ones() {
    assert_eq!(HttpMethod::Get.as_str(), "GET");
    assert_eq!(HttpMethod::Head.as_str(), "HEAD");
    assert_eq!(HttpMethod::Post.as_str(), "POST");
    assert_eq!(HttpMethod::Put.as_str(), "PUT");
    assert_eq!(HttpMethod::Delete.as_str(), "DELETE");
    assert_eq!(HttpMethod::Connect.as_str(), "CONNECT");
    assert_eq!(HttpMethod::Options.as_str(), "OPTIONS");
    assert_eq!(HttpMethod::Trace.as_str(), "TRACE");
    assert_eq!(HttpMethod::Patch.as_str(), "PATCH");
}

#[test]
fn response_build_accepts_exactly_the_legal_status_range() {
    assert!(HttpResponse::build(99, Vec::new(), Vec::new()).is_none());
    assert!(HttpResponse::build(100, Vec::new(), Vec::new()).is_some());
    assert!(HttpResponse::build(200, Vec::new(), Vec::new()).is_some());
    assert!(HttpResponse::build(599, Vec::new(), Vec::new()).is_some());
    assert!(HttpResponse::build(600, Vec::new(), Vec::new()).is_none());
    assert!(HttpResponse::build(0, Vec::new(), Vec::new()).is_none());
}
