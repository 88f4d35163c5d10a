use tt2::emit::emit_decision;
use tt2::emit::emit_tick;
use tt2::emit::greeting;
use tt2::emit::EmitAction;
use tt2::handler::handle_initiator;
use tt2::handler::handle_responder;
use tt2::handler::Dispatch;
use tt2::message::InboundMessage;
use tt2::message::QOS;
use tt2::session::Session;
use tt2::topic::parse_token;

fn inbound(topic: &str, payload: &str) -> InboundMessage {
    InboundMessage { topic: topic.to_string(), payload: payload.to_string() }
}

fn connected_session() -> Session {
    let mut s = Session::new();
    s.on_connect_succeeded();
    s.on_subscribe_succeeded();
    s
}

#[test]
fn token_of_simple_request_topic() {
    assert_eq!(parse_token("ping/Hello").as_deref(), Some("Hello"));
}

#[test]
fn token_stops_at_next_segment() {
    assert_eq!(parse_token("ping/Hey/extra").as_deref(), Some("Hey"));
}

#[test]
fn token_may_be_empty() {
    assert_eq!(parse_token("ping/").as_deref(), Some(""));
}

#[test]
fn topic_without_separator_is_malformed() {
    assert_eq!(parse_token("ping"), None);
    assert_eq!(parse_token(""), None);
}

#[test]
fn responder_echoes_token_on_reply_topic() {
    // Responder receives `ping/Hello` and publishes `pong` with payload
    // `Hello`.
    let msg = inbound("ping/Hello", "");
    match handle_responder(&msg) {
        Dispatch::Reply(out) => {
            assert_eq!(out.topic, "pong");
            assert_eq!(out.payload, "Hello");
            assert_eq!(out.qos, QOS);
        }
        other => panic!("expected a reply, got {}", dispatch_name(&other)),
    }
}

#[test]
fn responder_drops_malformed_topic() {
    // A topic with no token segment is dropped with one log record; it
    // never aborts the process.
    let msg = inbound("ping", "ignored");
    assert!(matches!(handle_responder(&msg), Dispatch::DropMalformed));
}

#[test]
fn initiator_logs_reply_and_does_not_republish() {
    // Initiator publishes `ping/Hi`, then receives `pong` -> `Hi`, records
    // it, and publishes nothing in answer.
    let s = connected_session();
    match emit_decision(&s, 1) {
        EmitAction::Publish(m) => {
            assert_eq!(m.topic, "ping/Hi");
            assert_eq!(m.payload, "");
            assert_eq!(m.qos, QOS);
        }
        _ => panic!("expected a publish"),
    }
    let reply = inbound("pong", "Hi");
    match handle_initiator(&reply) {
        Dispatch::Record(p) => assert_eq!(p, "Hi"),
        _ => panic!("a reply is recorded, never answered"),
    }
}

#[test]
fn emit_skips_while_disconnected() {
    let mut s = Session::new();
    s.on_connect_succeeded();
    let _ = s.on_connection_lost();
    assert!(matches!(emit_decision(&s, 0), EmitAction::SkipTick));
}

#[test]
fn emit_stops_under_shutdown() {
    let mut s = connected_session();
    s.shutdown();
    assert!(matches!(emit_decision(&s, 3), EmitAction::Stop));
}

#[test]
fn emit_picks_greeting_by_remainder() {
    let s = connected_session();
    let expected = ["Hello", "Hi", "Hey", "Greetings", "Salutations", "Howdy"];
    for pick in 0u64..12 {
        match emit_decision(&s, pick) {
            EmitAction::Publish(m) => {
                let want = format!("ping/{}", expected[(pick % 6) as usize]);
                assert_eq!(m.topic, want);
            }
            _ => panic!("expected a publish"),
        }
    }
}

#[test]
fn emit_tick_draws_one_of_the_fixed_greetings() {
    let s = connected_session();
    for _ in 0..32 {
        match emit_tick(&s) {
            EmitAction::Publish(m) => {
                let known = (0u64..6).any(|i| format!("ping/{}", greeting(i)) == m.topic);
                assert!(known, "unexpected topic {}", m.topic);
                assert_eq!(m.payload, "");
            }
            _ => panic!("expected a publish"),
        }
    }
}

fn dispatch_name(d: &Dispatch) -> &'static str {
    match d {
        Dispatch::Reply(_) => "Reply",
        Dispatch::Record(_) => "Record",
        Dispatch::DropMalformed => "DropMalformed",
    }
}
