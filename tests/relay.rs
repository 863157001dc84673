use botui::backend::BackendTarget;
use botui::relay::{
    diagnostic_marker, DiagnosticMarker, Frame, LegEvent, RelayAction, RelayEvent, RelayPhase,
    RelayRoute, RelaySession,
};

fn text(s: &str) -> Frame {
    Frame::Text(s.to_string())
}

fn relaying_session() -> RelaySession {
    let target = BackendTarget::resolve(None);
    let mut s = RelaySession::chat(&target, "s1", "u1");
    assert_eq!(s.step(RelayEvent::DialSucceeded), RelayAction::Nothing);
    assert_eq!(s.phase, RelayPhase::Relaying);
    s
}

#[test]
fn failed_dial_closes_client_without_frames() {
    let target = BackendTarget::resolve(None);
    let mut s = RelaySession::chat(&target, "s1", "u1");
    assert_eq!(s.backend_url, "wss://localhost:8080/ws?session_id=s1&user_id=u1");
    assert_eq!(s.phase, RelayPhase::Dialing);
    assert_eq!(s.step(RelayEvent::DialFailed), RelayAction::CloseClient);
    assert!(s.is_closed());
    // Nothing is relayed afterwards.
    assert_eq!(s.step(RelayEvent::FromBackend(LegEvent::Received(text("late")))), RelayAction::Nothing);
    assert_eq!(s.step(RelayEvent::FromClient(LegEvent::Received(text("hi")))), RelayAction::Nothing);
}

#[test]
fn backend_frames_reach_client_in_order() {
    let mut s = relaying_session();
    let mut seen = Vec::new();
    for f in ["A", "B", "C"] {
        match s.step(RelayEvent::FromBackend(LegEvent::Received(text(f)))) {
            RelayAction::SendToClient(fr) => seen.push(fr),
            other => panic!("unexpected action {:?}", other),
        }
    }
    assert_eq!(seen, vec![text("A"), text("B"), text("C")]);
}

#[test]
fn client_frames_reach_backend_unchanged() {
    let mut s = relaying_session();
    let frames = vec![
        text("hello"),
        Frame::Binary(vec![0, 1, 2, 255]),
        Frame::Ping(vec![7]),
        Frame::Pong(vec![]),
    ];
    for f in frames.clone() {
        assert_eq!(s.step(RelayEvent::FromClient(LegEvent::Received(f.clone()))), RelayAction::SendToBackend(f));
    }
    assert_eq!(s.phase, RelayPhase::Relaying);
}

#[test]
fn interleaved_directions_keep_their_order() {
    let mut s = relaying_session();
    assert_eq!(s.step(RelayEvent::FromClient(LegEvent::Received(text("c1")))), RelayAction::SendToBackend(text("c1")));
    assert_eq!(s.step(RelayEvent::FromBackend(LegEvent::Received(text("b1")))), RelayAction::SendToClient(text("b1")));
    assert_eq!(s.step(RelayEvent::FromClient(LegEvent::Received(text("c2")))), RelayAction::SendToBackend(text("c2")));
    assert_eq!(s.step(RelayEvent::FromBackend(LegEvent::Received(text("b2")))), RelayAction::SendToClient(text("b2")));
}

#[test]
fn client_close_closes_both() {
    let mut s = relaying_session();
    assert_eq!(s.step(RelayEvent::FromClient(LegEvent::Received(Frame::Close))), RelayAction::CloseBoth);
    assert!(s.is_closed());
}

#[test]
fn backend_end_closes_both() {
    let mut s = relaying_session();
    assert_eq!(s.step(RelayEvent::FromBackend(LegEvent::Ended)), RelayAction::CloseBoth);
    assert_eq!(s.phase, RelayPhase::Closed);
}

#[test]
fn transport_error_closes_both() {
    let mut s = relaying_session();
    assert_eq!(s.step(RelayEvent::FromClient(LegEvent::Failed)), RelayAction::CloseBoth);
    let mut t = relaying_session();
    assert_eq!(t.step(RelayEvent::SendFailed), RelayAction::CloseBoth);
    assert!(t.is_closed());
}

#[test]
fn raw_frames_are_not_relayed() {
    let mut s = relaying_session();
    assert_eq!(s.step(RelayEvent::FromBackend(LegEvent::Received(Frame::Other))), RelayAction::Nothing);
    assert_eq!(s.phase, RelayPhase::Relaying);
}

#[test]
fn repeated_sessions_leave_nothing_open() {
    let target = BackendTarget::resolve(None);
    for i in 0..20 {
        let mut s = RelaySession::chat(&target, "s", "u");
        s.step(RelayEvent::DialSucceeded);
        s.step(RelayEvent::FromClient(LegEvent::Received(text("x"))));
        let last = if i % 2 == 0 {
            s.step(RelayEvent::FromClient(LegEvent::Ended))
        } else {
            s.step(RelayEvent::FromBackend(LegEvent::Received(Frame::Close)))
        };
        assert_eq!(last, RelayAction::CloseBoth);
        assert!(s.is_closed());
    }
}

#[test]
fn task_progress_session_targets_task_route() {
    let target = BackendTarget::resolve(Some("https://b".to_string()));
    let s = RelaySession::task_progress(&target, Some("42"));
    assert_eq!(s.route, RelayRoute::TaskProgress);
    assert_eq!(s.backend_url, "wss://b/ws/task-progress/42");
    let all = RelaySession::task_progress(&target, None);
    assert_eq!(all.backend_url, "wss://b/ws/task-progress");
}

#[test]
fn markers_are_found_without_touching_frames() {
    assert_eq!(diagnostic_marker("{\"type\":\"manifest_update\"}"), Some(DiagnosticMarker::ManifestUpdate));
    assert_eq!(diagnostic_marker("{\"type\":\"task_progress\",\"p\":3}"), Some(DiagnosticMarker::TaskProgress));
    assert_eq!(diagnostic_marker("manifest_update task_progress"), Some(DiagnosticMarker::ManifestUpdate));
    assert_eq!(diagnostic_marker("plain chat"), None);
    assert_eq!(diagnostic_marker(""), None);
}
