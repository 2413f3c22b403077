use lan_camera::relay::{Emission, Frame, Session, SessionEvent, SessionState};

fn text(payload: &str) -> SessionEvent {
    SessionEvent::Received(Frame::Text(payload.to_string()))
}

fn frame(payload: &str) -> Emission {
    Emission::CameraFrame(payload.to_string())
}

#[test]
fn happy_path_frame() {
    let mut session = Session::new();
    let seen = session.relay(vec![
        SessionEvent::Upgraded,
        text("data:image/jpeg;base64,AAAA"),
        SessionEvent::StreamEnded,
    ]);
    assert_eq!(
        seen,
        vec![
            Emission::ClientConnected,
            frame("data:image/jpeg;base64,AAAA"),
            Emission::ClientDisconnected,
        ]
    );
    assert_eq!(session.state(), SessionState::Closed);
}

#[test]
fn binary_frame_ignored() {
    let mut session = Session::new();
    let seen = session.relay(vec![
        SessionEvent::Upgraded,
        SessionEvent::Received(Frame::Binary(vec![1, 2, 3, 4])),
        SessionEvent::Received(Frame::Close),
    ]);
    assert_eq!(seen, vec![Emission::ClientConnected, Emission::ClientDisconnected]);
    assert!(seen.iter().all(|e| e.name() != "camera-frame"));
}

#[test]
fn new_session_is_upgrading() {
    assert_eq!(Session::new().state(), SessionState::Upgrading);
}

#[test]
fn upgrade_emits_client_connected_once() {
    let mut session = Session::new();
    assert_eq!(session.handle(SessionEvent::Upgraded), Some(Emission::ClientConnected));
    assert_eq!(session.state(), SessionState::Active);
    assert_eq!(session.handle(SessionEvent::Upgraded), None);
    assert_eq!(session.state(), SessionState::Active);
}

#[test]
fn failed_upgrade_closes_without_emission() {
    let mut session = Session::new();
    assert_eq!(session.handle(SessionEvent::UpgradeFailed), None);
    assert_eq!(session.state(), SessionState::Closed);
    assert_eq!(session.handle(SessionEvent::Upgraded), None);
    assert_eq!(session.handle(text("late")), None);
    assert_eq!(session.handle(SessionEvent::StreamEnded), None);
    assert_eq!(session.state(), SessionState::Closed);
}

#[test]
fn nothing_is_relayed_before_the_upgrade() {
    let mut session = Session::new();
    assert_eq!(session.handle(text("early")), None);
    assert_eq!(session.handle(SessionEvent::StreamEnded), None);
    assert_eq!(session.handle(SessionEvent::TransportFailed), None);
    assert_eq!(session.state(), SessionState::Upgrading);
}

#[test]
fn text_frame_is_forwarded_verbatim() {
    let mut session = Session::new();
    session.handle(SessionEvent::Upgraded);
    let payload = "data:image/jpeg;base64,/9j/4AAQ\u{e9}\n ";
    assert_eq!(session.handle(text(payload)), Some(frame(payload)));
    assert_eq!(session.handle(text("")), Some(frame("")));
    assert_eq!(session.state(), SessionState::Active);
}

#[test]
fn control_and_binary_frames_emit_nothing() {
    let mut session = Session::new();
    session.handle(SessionEvent::Upgraded);
    assert_eq!(session.handle(SessionEvent::Received(Frame::Binary(vec![0, 1, 2, 3]))), None);
    assert_eq!(session.handle(SessionEvent::Received(Frame::Binary(vec![]))), None);
    assert_eq!(session.handle(SessionEvent::Received(Frame::Ping(vec![9]))), None);
    assert_eq!(session.handle(SessionEvent::Received(Frame::Pong(vec![9]))), None);
    assert_eq!(session.state(), SessionState::Active);
}

#[test]
fn each_close_cause_emits_one_disconnect() {
    let causes = vec![
        SessionEvent::StreamEnded,
        SessionEvent::TransportFailed,
        SessionEvent::Received(Frame::Close),
    ];
    for cause in causes {
        let mut session = Session::new();
        let mut seen = session.relay(vec![SessionEvent::Upgraded, text("a"), cause.clone()]);
        seen.extend(session.relay(vec![cause, SessionEvent::StreamEnded, text("b")]));
        let connects = seen.iter().filter(|e| **e == Emission::ClientConnected).count();
        let disconnects = seen.iter().filter(|e| **e == Emission::ClientDisconnected).count();
        assert_eq!(connects, 1);
        assert_eq!(disconnects, 1);
        assert_eq!(seen.last(), Some(&Emission::ClientDisconnected));
        assert_eq!(session.state(), SessionState::Closed);
    }
}

#[test]
fn transport_error_is_a_normal_close() {
    let mut session = Session::new();
    session.handle(SessionEvent::Upgraded);
    assert_eq!(
        session.handle(SessionEvent::TransportFailed),
        Some(Emission::ClientDisconnected)
    );
    assert_eq!(session.state(), SessionState::Closed);
}

#[test]
fn closed_session_is_silent() {
    let mut session = Session::new();
    session.relay(vec![SessionEvent::Upgraded, SessionEvent::StreamEnded]);
    let seen = session.relay(vec![
        text("x"),
        SessionEvent::Upgraded,
        SessionEvent::Received(Frame::Close),
        SessionEvent::TransportFailed,
    ]);
    assert!(seen.is_empty());
    assert_eq!(session.state(), SessionState::Closed);
}

#[test]
fn frames_keep_their_order() {
    let mut session = Session::new();
    let seen = session.relay(vec![
        SessionEvent::Upgraded,
        text("1"),
        SessionEvent::Received(Frame::Ping(vec![])),
        text("2"),
        SessionEvent::Received(Frame::Binary(vec![7])),
        text("3"),
        text("2"),
    ]);
    assert_eq!(
        seen,
        vec![Emission::ClientConnected, frame("1"), frame("2"), frame("3"), frame("2")]
    );
    assert_eq!(session.state(), SessionState::Active);
}

#[test]
fn relay_of_nothing_changes_nothing() {
    let mut session = Session::new();
    assert!(session.relay(vec![]).is_empty());
    assert_eq!(session.state(), SessionState::Upgrading);
}

#[test]
fn relay_agrees_with_handling_one_by_one() {
    let events = vec![
        text("before"),
        SessionEvent::Upgraded,
        text("a"),
        SessionEvent::Received(Frame::Pong(vec![1])),
        text("b"),
        SessionEvent::TransportFailed,
        text("after"),
    ];
    let mut stepwise = Session::new();
    let mut expected = Vec::new();
    for event in events.clone() {
        if let Some(emission) = stepwise.handle(event) {
            expected.push(emission);
        }
    }
    let mut batch = Session::new();
    assert_eq!(batch.relay(events), expected);
    assert_eq!(batch.state(), stepwise.state());
    assert_eq!(
        expected,
        vec![Emission::ClientConnected, frame("a"), frame("b"), Emission::ClientDisconnected]
    );
}

#[test]
fn emission_names_and_payloads() {
    assert_eq!(Emission::ClientConnected.name(), "client-connected");
    assert_eq!(Emission::ClientConnected.payload(), None);
    assert_eq!(frame("abc").name(), "camera-frame");
    assert_eq!(frame("abc").payload(), Some("abc"));
    assert_eq!(Emission::ClientDisconnected.name(), "client-disconnected");
    assert_eq!(Emission::ClientDisconnected.payload(), None);
}

#[test]
fn concurrent_sessions_keep_count_and_order() {
    // Three sessions, seven text frames, interleaved.
    let script: Vec<(usize, SessionEvent)> = vec![
        (0, SessionEvent::Upgraded),
        (1, SessionEvent::Upgraded),
        (0, text("a1")),
        (1, text("b1")),
        (2, SessionEvent::Upgraded),
        (1, text("b2")),
        (0, SessionEvent::Received(Frame::Binary(vec![1, 2]))),
        (2, text("c1")),
        (0, text("a2")),
        (1, SessionEvent::StreamEnded),
        (2, text("c2")),
        (0, text("a3")),
        (2, SessionEvent::TransportFailed),
    ];
    let mut sessions = vec![Session::new(), Session::new(), Session::new()];
    let mut bus: Vec<(usize, Emission)> = Vec::new();
    for (id, event) in script.clone() {
        if let Some(emission) = sessions[id].handle(event) {
            bus.push((id, emission));
        }
    }
    let frames = bus.iter().filter(|(_, e)| e.name() == "camera-frame").count();
    assert_eq!(frames, 7);
    for id in 0..3 {
        let own: Vec<SessionEvent> =
            script.iter().filter(|(k, _)| *k == id).map(|(_, e)| e.clone()).collect();
        let alone = Session::new().relay(own);
        let on_bus: Vec<Emission> =
            bus.iter().filter(|(k, _)| *k == id).map(|(_, e)| e.clone()).collect();
        assert_eq!(on_bus, alone);
    }
    let from_first: Vec<&str> =
        bus.iter().filter(|(k, _)| *k == 0).filter_map(|(_, e)| e.payload()).collect();
    assert_eq!(from_first, vec!["a1", "a2", "a3"]);
    assert_eq!(sessions[0].state(), SessionState::Active);
    assert_eq!(sessions[1].state(), SessionState::Closed);
    assert_eq!(sessions[2].state(), SessionState::Closed);
}
