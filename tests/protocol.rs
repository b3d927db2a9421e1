use fedichess_sdk::launch::launch_plan;
use fedichess_sdk::message::{
    classify_line, decode_event, decode_response, encode_command, frame_command, peers_from_field,
    peers_of, response_from_value,
};
use fedichess_sdk::{ClientError, Command, Event, EventQueue, Field, Incoming, Session, WaitStep};

fn value(text: &str) -> serde_json::Value {
    serde_json::from_str(text).unwrap()
}

fn reply_of(line: &str) -> serde_json::Value {
    match classify_line(line) {
        Incoming::Reply(v) => v,
        _ => panic!("not a reply: {}", line),
    }
}

fn event_of(line: &str) -> Event {
    match classify_line(line) {
        Incoming::Event(e) => e,
        _ => panic!("not an event: {}", line),
    }
}

#[test]
fn join_lobby_line() {
    assert_eq!(encode_command(&Command::JoinLobby, "req-1"), r#"{"cmd":"joinLobby","id":"req-1"}"#);
}

#[test]
fn simple_command_lines() {
    assert_eq!(encode_command(&Command::LeaveLobby, "req-2"), r#"{"cmd":"leaveLobby","id":"req-2"}"#);
    assert_eq!(encode_command(&Command::LeaveGame, "req-3"), r#"{"cmd":"leaveGame","id":"req-3"}"#);
    assert_eq!(encode_command(&Command::GetPeers, "req-4"), r#"{"cmd":"getPeers","id":"req-4"}"#);
}

#[test]
fn join_game_line_escapes_text() {
    let cmd = Command::JoinGame { game_id: "g\"1".to_string() };
    assert_eq!(encode_command(&cmd, "req-5"), r#"{"cmd":"joinGame","id":"req-5","gameId":"g\"1"}"#);
}

#[test]
fn send_line_with_and_without_peer() {
    let cmd = Command::Send {
        action: "challenge".to_string(),
        payload: value(r#"{"elo":1200}"#),
        peer_id: Some("p2".to_string()),
    };
    assert_eq!(
        encode_command(&cmd, "req-6"),
        r#"{"cmd":"send","id":"req-6","action":"challenge","payload":{"elo":1200},"peerId":"p2"}"#
    );
    let cmd = Command::Send { action: "heartbeat".to_string(), payload: value("true"), peer_id: None };
    assert_eq!(encode_command(&cmd, "req-7"), r#"{"cmd":"send","id":"req-7","action":"heartbeat","payload":true}"#);
}

#[test]
fn frame_uses_given_payload_text() {
    let cmd = Command::Send { action: "a".to_string(), payload: value("null"), peer_id: None };
    assert_eq!(frame_command(&cmd, "x", "[1]"), r#"{"cmd":"send","id":"x","action":"a","payload":[1]}"#);
}

#[test]
fn identifiers_count_up() {
    let mut s = Session::new();
    let mut last = String::new();
    for n in 1..=10u64 {
        last = s.begin().unwrap();
        assert_eq!(last, format!("req-{}", n));
        let id = Field::Text(last.clone());
        assert!(s.accept(&id));
    }
    assert_eq!(last, "req-10");
    assert_eq!(s.issued, 10);
}

#[test]
fn serial_commands_get_their_own_replies() {
    let mut s = Session::new();
    for _ in 0..3 {
        let id = s.begin().unwrap();
        let stale = reply_of(r#"{"ok":true,"id":"req-0"}"#);
        assert!(matches!(s.receive(Some(stale)), WaitStep::Wait));
        let line = format!(r#"{{"ok":true,"id":"{}"}}"#, id);
        match s.receive(Some(reply_of(&line))) {
            WaitStep::Done(v) => {
                let r = response_from_value(&v).unwrap();
                assert_eq!(r.id, Some(id));
            }
            _ => panic!("reply not taken"),
        }
        assert!(s.awaiting.is_none());
    }
}

#[test]
fn get_peers_keeps_order() {
    let v = reply_of(r#"{"ok":true,"peers":["a","b"],"id":"req-1"}"#);
    assert_eq!(peers_of(&v), vec!["a".to_string(), "b".to_string()]);
}

#[test]
fn get_peers_skips_non_strings() {
    let v = reply_of(r#"{"ok":true,"peers":["a",3,null,"b"],"id":"req-1"}"#);
    assert_eq!(peers_of(&v), vec!["a".to_string(), "b".to_string()]);
    let f = Field::List(vec![Some("x".to_string()), None]);
    assert_eq!(peers_from_field(&f), vec!["x".to_string()]);
}

#[test]
fn get_peers_defaults_to_empty() {
    assert!(peers_of(&value(r#"{"ok":true,"id":"req-1"}"#)).is_empty());
    assert!(peers_of(&value(r#"{"ok":true,"peers":"a","id":"req-1"}"#)).is_empty());
}

#[test]
fn reply_without_id_keeps_waiting() {
    let mut s = Session::new();
    s.begin().unwrap();
    let v = reply_of(r#"{"ok":true}"#);
    assert!(matches!(s.receive(Some(v)), WaitStep::Wait));
    assert!(s.awaiting.is_some());
    assert!(matches!(s.receive(None), WaitStep::Fail(ClientError::Closed)));
}

#[test]
fn event_without_payload() {
    let e = event_of(r#"{"event":"peerJoined","peerId":"p1"}"#);
    assert_eq!(e.event, "peerJoined");
    assert_eq!(e.peer_id, Some("p1".to_string()));
    assert!(e.payload.is_none());
    let e = event_of(r#"{"event":"tick","payload":null}"#);
    assert!(e.payload.is_none());
    assert!(e.peer_id.is_none());
}

#[test]
fn poll_on_empty_queue() {
    let mut q = EventQueue::new();
    assert!(q.poll_event().is_none());
    assert!(q.poll_event().is_none());
    assert_eq!(q.len(), 0);
}

#[test]
fn queue_is_first_in_first_out() {
    let mut q = EventQueue::new();
    q.push(event_of(r#"{"event":"one"}"#));
    q.push(event_of(r#"{"event":"two"}"#));
    assert_eq!(q.poll_event().unwrap().event, "one");
    assert_eq!(q.poll_event().unwrap().event, "two");
    assert!(q.poll_event().is_none());
}

#[test]
fn stopped_session_refuses_commands() {
    let mut s = Session::new();
    s.begin().unwrap();
    s.stop();
    assert_eq!(s.begin(), Err(ClientError::Write));
    assert_eq!(s.issued, 2);
    s.stop();
    assert!(!s.open);
    assert!(s.awaiting.is_none());
    assert_eq!(s.begin(), Err(ClientError::Write));
}

#[test]
fn join_lobby_round_trip() {
    let mut s = Session::new();
    let id = s.begin().unwrap();
    assert_eq!(encode_command(&Command::JoinLobby, &id), r#"{"cmd":"joinLobby","id":"req-1"}"#);
    let v = reply_of(r#"{"ok":true,"id":"req-1"}"#);
    let v = match s.receive(Some(v)) {
        WaitStep::Done(v) => v,
        _ => panic!("reply not taken"),
    };
    let r = response_from_value(&v).unwrap();
    assert!(r.ok);
    assert_eq!(r.error, None);
    assert!(r.peers.is_none());
    assert_eq!(r.id, Some("req-1".to_string()));
}

#[test]
fn event_goes_to_queue_not_to_caller() {
    let mut s = Session::new();
    s.begin().unwrap();
    let line = r#"{"event":"challResp","peerId":"p2","payload":{"accepted":true}}"#;
    let mut q = EventQueue::new();
    match classify_line(line) {
        Incoming::Event(e) => q.push(e),
        _ => panic!("event line not routed to the queue"),
    }
    assert!(s.awaiting.is_some());
    let e = q.poll_event().unwrap();
    assert_eq!(e.event, "challResp");
    assert_eq!(e.peer_id, Some("p2".to_string()));
    assert_eq!(e.payload, Some(value(r#"{"accepted":true}"#)));
}

#[test]
fn skipped_lines() {
    assert!(matches!(classify_line(""), Incoming::Skip));
    assert!(matches!(classify_line("   \t"), Incoming::Skip));
    assert!(matches!(classify_line("{not json"), Incoming::Skip));
    assert!(matches!(classify_line(r#"{"event":7}"#), Incoming::Skip));
    assert!(matches!(classify_line(r#"{"event":null}"#), Incoming::Skip));
    assert!(matches!(classify_line(r#"{"event":"x","peerId":5}"#), Incoming::Skip));
}

#[test]
fn padded_line_is_read() {
    let v = reply_of("  {\"ok\":false,\"error\":\"nope\",\"id\":\"req-2\"}  ");
    let r = response_from_value(&v).unwrap();
    assert!(!r.ok);
    assert_eq!(r.error, Some("nope".to_string()));
}

#[test]
fn unicode_padding_is_trimmed() {
    let v = reply_of("\u{a0}{\"ok\":true,\"id\":\"req-3\"}\u{2003}");
    assert_eq!(response_from_value(&v).unwrap().id, Some("req-3".to_string()));
}

#[test]
fn malformed_replies_fail_to_decode() {
    let bad = [
        r#"{"id":"req-1"}"#,
        r#"{"ok":null,"id":"req-1"}"#,
        r#"{"ok":true,"error":3,"id":"req-1"}"#,
        r#"{"ok":true,"peers":["a",1],"id":"req-1"}"#,
        r#"{"ok":true,"peers":{},"id":"req-1"}"#,
        r#"{"ok":true,"id":5}"#,
    ];
    for text in bad.iter() {
        assert!(matches!(response_from_value(&value(text)), Err(ClientError::Decode)), "{}", text);
    }
}

#[test]
fn decode_response_from_fields() {
    let r = decode_response(
        Field::Bool(true),
        Field::Null,
        Field::List(vec![Some("a".to_string()), Some("b".to_string())]),
        Field::Text("req-9".to_string()),
    )
    .unwrap();
    assert!(r.ok);
    assert_eq!(r.error, None);
    assert_eq!(r.peers, Some(vec!["a".to_string(), "b".to_string()]));
    assert_eq!(r.id, Some("req-9".to_string()));
    assert!(decode_response(Field::Other, Field::Absent, Field::Absent, Field::Absent).is_err());
}

#[test]
fn decode_event_from_fields() {
    let e = decode_event(Field::Text("x".to_string()), Field::Absent, None).unwrap();
    assert_eq!(e.event, "x");
    assert!(e.peer_id.is_none());
    assert!(decode_event(Field::Bool(true), Field::Absent, None).is_none());
    assert!(decode_event(Field::Text("x".to_string()), Field::Bool(false), None).is_none());
}

#[test]
fn non_object_lines_are_replies() {
    let v = reply_of("[1,2]");
    let mut s = Session::new();
    s.begin().unwrap();
    assert!(matches!(s.receive(Some(v)), WaitStep::Wait));
}

#[test]
fn stopped_session_uses_up_identifiers() {
    let mut s = Session::new();
    s.stop();
    assert_eq!(s.begin(), Err(ClientError::Write));
    assert_eq!(s.begin(), Err(ClientError::Write));
    assert_eq!(s.issued, 2);
}

#[test]
fn script_runs_under_node() {
    let p = launch_plan("bridge/dist/index.js");
    assert_eq!(p.program, "node");
    assert_eq!(p.args, vec!["bridge/dist/index.js".to_string()]);
}

#[test]
fn executable_runs_as_is() {
    let p = launch_plan("/usr/bin/bridge");
    assert_eq!(p.program, "/usr/bin/bridge");
    assert!(p.args.is_empty());
    let p = launch_plan("js");
    assert_eq!(p.program, "js");
    assert!(p.args.is_empty());
}

#[test]
fn noise_before_padded_reply() {
    let mut s = Session::new();
    let id = s.begin().unwrap();
    assert!(matches!(classify_line(""), Incoming::Skip));
    assert!(matches!(classify_line("not json"), Incoming::Skip));
    let v = reply_of(&format!("  {{\"ok\":true,\"id\":\"{}\"}}  ", id));
    assert!(matches!(s.receive(Some(v)), WaitStep::Done(_)));
}

#[test]
fn control_characters_are_escaped() {
    let cmd = Command::JoinGame { game_id: "a\u{1}\tb\\".to_string() };
    assert_eq!(
        encode_command(&cmd, "req-1"),
        "{\"cmd\":\"joinGame\",\"id\":\"req-1\",\"gameId\":\"a\\u0001\\tb\\\\\"}"
    );
}
