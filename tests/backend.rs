use botui::backend::{listen_port, parse_port, BackendTarget};

#[test]
fn missing_url_defaults_to_local_backend() {
    let t = BackendTarget::resolve(None);
    assert_eq!(t.base_url, "https://localhost:8080");
    assert!(t.accept_invalid_certs);
}

#[test]
fn empty_configured_url_is_kept() {
    let t = BackendTarget::resolve(Some(String::new()));
    assert_eq!(t.base_url, "");
    assert!(t.accept_invalid_certs);
}

#[test]
fn configured_url_is_kept() {
    let t = BackendTarget::resolve(Some("http://10.0.0.5:9000".to_string()));
    assert_eq!(t.base_url, "http://10.0.0.5:9000");
    assert!(t.accept_invalid_certs);
}

#[test]
fn https_becomes_wss() {
    let t = BackendTarget::resolve(Some("https://bots.example:8443".to_string()));
    assert_eq!(t.ws_base(), "wss://bots.example:8443");
}

#[test]
fn http_becomes_ws() {
    let t = BackendTarget::resolve(Some("http://localhost:9000".to_string()));
    assert_eq!(t.ws_base(), "ws://localhost:9000");
}

#[test]
fn other_scheme_is_kept() {
    let t = BackendTarget::resolve(Some("ws://already:1".to_string()));
    assert_eq!(t.ws_base(), "ws://already:1");
}

#[test]
fn chat_url_carries_session_and_user() {
    let t = BackendTarget::resolve(None);
    assert_eq!(t.chat_ws_url("s1", "u1"), "wss://localhost:8080/ws?session_id=s1&user_id=u1");
}

#[test]
fn task_progress_urls() {
    let t = BackendTarget::resolve(Some("http://b:1".to_string()));
    assert_eq!(t.task_ws_url(None), "ws://b:1/ws/task-progress");
    assert_eq!(t.task_ws_url(Some("t9")), "ws://b:1/ws/task-progress/t9");
}

#[test]
fn listen_port_defaults_to_3000() {
    assert_eq!(listen_port(None), 3000);
    assert_eq!(listen_port(Some("")), 3000);
    assert_eq!(listen_port(Some("abc")), 3000);
    assert_eq!(listen_port(Some("70000")), 3000);
    assert_eq!(listen_port(Some("-1")), 3000);
}

#[test]
fn listen_port_reads_configured_value() {
    assert_eq!(listen_port(Some("8081")), 8081);
    assert_eq!(listen_port(Some("+80")), 80);
    assert_eq!(listen_port(Some("0")), 0);
    assert_eq!(listen_port(Some("65535")), 65535);
}

#[test]
fn port_parsing_matches_std() {
    for s in ["", "+", "++1", "1+", " 1", "007", "65536", "65535", "12a", "4294967297", "+0"] {
        assert_eq!(parse_port(s), s.parse::<u16>().ok(), "input {:?}", s);
    }
}
