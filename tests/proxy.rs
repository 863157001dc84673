use botui::backend::BackendTarget;
use botui::proxy::{
    build_target_url, fallback_response, forward_headers, is_host_header, plan_request, respond,
    unreadable_request_response, BackendReply, Header, ProxiedRequest, ProxiedResponse,
};

fn header(name: &str, value: &[u8]) -> Header {
    Header { name: name.to_string(), value: value.to_vec() }
}

fn request(method: &str, path: &str, query: Option<&str>, headers: Vec<Header>, body: &[u8]) -> ProxiedRequest {
    ProxiedRequest {
        method: method.to_string(),
        path: path.to_string(),
        query: query.map(|q| q.to_string()),
        headers,
        body: body.to_vec(),
        app_context: None,
    }
}

#[test]
fn get_session_is_forwarded_and_answered_unchanged() {
    let target = BackendTarget::resolve(Some("http://backend:8080".to_string()));
    let req = request("GET", "/api/sessions/42", None, vec![header("host", b"ui:3000")], b"");
    let out = plan_request(&target, req);
    assert_eq!(out.method, "GET");
    assert_eq!(out.url, "http://backend:8080/api/sessions/42");
    assert!(out.headers.is_empty());
    assert_eq!(out.body, None);

    let backend = ProxiedResponse {
        status: 200,
        headers: vec![header("content-type", b"application/json")],
        body: b"{\"id\":42}".to_vec(),
    };
    let back = respond(BackendReply::Responded(backend.clone()));
    assert_eq!(back, backend);
    assert_eq!(back.status, 200);
    assert_eq!(back.body, b"{\"id\":42}".to_vec());
}

#[test]
fn query_is_passed_through_verbatim() {
    assert_eq!(build_target_url("http://b", "/api/x", Some("a=1&b=%20")), "http://b/api/x?a=1&b=%20");
    assert_eq!(build_target_url("http://b", "/api/x", None), "http://b/api/x");
}

#[test]
fn host_header_is_recognised_in_any_case() {
    assert!(is_host_header("host"));
    assert!(is_host_header("Host"));
    assert!(is_host_header("HOST"));
    assert!(!is_host_header("hostname"));
    assert!(!is_host_header("x-host"));
}

#[test]
fn all_headers_but_host_are_forwarded_in_order() {
    let hs = vec![
        header("accept", b"*/*"),
        header("Host", b"front:3000"),
        header("x-a", b"1"),
        header("x-a", b"2"),
        header("cookie", &[0xff, 0x00, 0x41]),
    ];
    let out = forward_headers(hs, None);
    assert_eq!(
        out,
        vec![
            header("accept", b"*/*"),
            header("x-a", b"1"),
            header("x-a", b"2"),
            header("cookie", &[0xff, 0x00, 0x41]),
        ]
    );
}

#[test]
fn context_is_attached_as_header() {
    let out = forward_headers(vec![header("accept", b"text/html")], Some("foo".to_string()));
    assert_eq!(out, vec![header("accept", b"text/html"), header("x-app-context", b"foo")]);
}

#[test]
fn non_empty_body_is_forwarded() {
    let target = BackendTarget::resolve(None);
    let mut req = request("POST", "/api/chat", Some("x=1"), vec![], b"{\"m\":\"hi\"}");
    req.app_context = Some("chat".to_string());
    let out = plan_request(&target, req);
    assert_eq!(out.method, "POST");
    assert_eq!(out.url, "https://localhost:8080/api/chat?x=1");
    assert_eq!(out.body, Some(b"{\"m\":\"hi\"}".to_vec()));
    assert_eq!(out.headers, vec![header("x-app-context", b"chat")]);
}

#[test]
fn unreachable_backend_gives_502() {
    let r = respond(BackendReply::Unreachable("connection refused".to_string()));
    assert_eq!(r.status, 502);
    assert!(r.headers.is_empty());
    assert_eq!(r.body, b"Proxy error: connection refused".to_vec());
}

#[test]
fn unreadable_backend_body_gives_502() {
    let r = respond(BackendReply::BodyUnreadable("reset".to_string()));
    assert_eq!(r.status, 502);
    assert_eq!(r.body, b"Failed to read response: reset".to_vec());
}

#[test]
fn unreadable_request_body_gives_500() {
    let r = unreadable_request_response();
    assert_eq!(r.status, 500);
    assert_eq!(r.body, b"Failed to read request body".to_vec());
    let f = fallback_response();
    assert_eq!(f.status, 500);
    assert_eq!(f.body, b"Failed to build response".to_vec());
}
