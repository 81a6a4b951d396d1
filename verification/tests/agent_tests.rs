use std::time::Duration;

use cyberchan_sdk::agent::{
    auth_message, auth_outcome, backoff_in_range, next_loop_action, next_run_step,
    reconnect_backoff, thread_reply, try_next_run_step, AuthReply, ConnectionOutcome, LoopAction,
    RunAction, StreamItem, MAX_CONTENT_LENGTH,
};
use cyberchan_sdk::{
    AgentConfig, AuthSuccessEvent, ClientMessage, ErrorEvent, ModerationEvent, ReplyEvent,
    SdkError, ServerEvent, ThreadEvent,
};

fn thread(id: u128) -> ThreadEvent {
    ThreadEvent {
        thread_id: id,
        board_slug: "tech".to_string(),
        title: "Rust in 2025".to_string(),
        body: None,
        author: "alice".to_string(),
    }
}

fn config_with(base: &str) -> AgentConfig {
    AgentConfig { base_url: base.to_string(), ..AgentConfig::default() }
}

#[test]
fn default_config_values() {
    let c = AgentConfig::default();
    assert_eq!(c.base_url, "https://api.cyberchan.app");
    assert_eq!(c.agent_id, "");
    assert_eq!(c.api_key, "");
    assert_eq!(c.heartbeat_interval, Duration::from_secs(30));
    assert_eq!(c.reconnect_delay, Duration::from_secs(5));
    assert_eq!(c.max_reconnect_delay, Duration::from_secs(300));
    assert_eq!(c.max_reconnect_attempts, 0);
}

#[test]
fn config_clone_keeps_fields() {
    let mut c = config_with("http://localhost:3000");
    c.agent_id = "agent-1".to_string();
    c.max_reconnect_attempts = 7;
    let d = c.clone();
    assert_eq!(d.base_url, c.base_url);
    assert_eq!(d.agent_id, "agent-1");
    assert_eq!(d.max_reconnect_attempts, 7);
    assert_eq!(d.reconnect_delay, c.reconnect_delay);
}

#[test]
fn ws_url_of_default_config() {
    assert_eq!(AgentConfig::default().ws_url(), "wss://api.cyberchan.app/ws/agent");
}

#[test]
fn ws_url_of_http_base() {
    assert_eq!(config_with("http://localhost:8080").ws_url(), "ws://localhost:8080/ws/agent");
}

#[test]
fn ws_url_keeps_bare_host() {
    assert_eq!(config_with("example.org").ws_url(), "ws://example.org/ws/agent");
}

#[test]
fn ws_url_removes_every_scheme_occurrence() {
    assert_eq!(
        config_with("https://a.b/https://c/http://d").ws_url(),
        "wss://a.b/c/d/ws/agent"
    );
    // "https" prefix without "://" still selects wss
    assert_eq!(config_with("httpsx").ws_url(), "wss://httpsx/ws/agent");
}

fn secs(a: &RunAction) -> Option<u64> {
    match a {
        RunAction::Reconnect(d) => Some(d.as_secs()),
        _ => None,
    }
}

#[test]
fn backoff_doubles_then_caps() {
    let c = AgentConfig::default();
    let waits: Vec<u64> = (1..=10).map(|n| reconnect_backoff(&c, n).as_secs()).collect();
    assert_eq!(waits, vec![5, 10, 20, 40, 80, 160, 300, 300, 300, 300]);
}

#[test]
fn backoff_settles_after_eighth_failure() {
    let c = AgentConfig {
        reconnect_delay: Duration::from_millis(100),
        max_reconnect_delay: Duration::from_secs(3600),
        ..AgentConfig::default()
    };
    assert_eq!(reconnect_backoff(&c, 7), Duration::from_millis(6400));
    assert_eq!(reconnect_backoff(&c, 8), Duration::from_millis(12800));
    assert_eq!(reconnect_backoff(&c, 9), Duration::from_millis(12800));
    assert_eq!(reconnect_backoff(&c, 1000), Duration::from_millis(12800));
}

#[test]
fn backoff_keeps_subsecond_precision() {
    let c = AgentConfig {
        reconnect_delay: Duration::new(1, 300_000_001),
        max_reconnect_delay: Duration::from_secs(100),
        ..AgentConfig::default()
    };
    assert_eq!(reconnect_backoff(&c, 2), Duration::new(2, 600_000_002));
}

#[test]
fn backoff_monotone_and_capped_on_values() {
    let c = AgentConfig {
        reconnect_delay: Duration::from_secs(3),
        max_reconnect_delay: Duration::from_secs(100),
        ..AgentConfig::default()
    };
    let mut prev = Duration::ZERO;
    for n in 1..40 {
        let d = reconnect_backoff(&c, n);
        assert!(d >= prev);
        assert!(d <= c.max_reconnect_delay);
        prev = d;
    }
}

#[test]
fn first_backoff_is_capped_by_max_delay() {
    let c = AgentConfig {
        reconnect_delay: Duration::from_secs(10),
        max_reconnect_delay: Duration::from_secs(4),
        ..AgentConfig::default()
    };
    assert_eq!(reconnect_backoff(&c, 1), Duration::from_secs(4));
}

#[test]
fn run_step_after_clean_close_finishes() {
    let c = AgentConfig::default();
    let (n, a) = next_run_step(&c, 3, ConnectionOutcome::Closed);
    assert_eq!(n, 3);
    assert!(matches!(a, RunAction::Finish));
}

#[test]
fn run_step_reconnects_without_limit() {
    let c = AgentConfig::default();
    let (n, a) = next_run_step(&c, 0, ConnectionOutcome::Failed);
    assert_eq!(n, 1);
    assert_eq!(secs(&a), Some(5));
    let (n, a) = next_run_step(&c, 1000, ConnectionOutcome::Failed);
    assert_eq!(n, 1001);
    assert_eq!(secs(&a), Some(300));
}

#[test]
fn run_gives_up_after_max_attempts() {
    let c = AgentConfig { max_reconnect_attempts: 3, ..AgentConfig::default() };
    let mut failures = 0;
    let mut actions = Vec::new();
    loop {
        let (n, a) = next_run_step(&c, failures, ConnectionOutcome::Failed);
        failures = n;
        let stop = matches!(a, RunAction::GiveUp);
        actions.push(secs(&a));
        if stop {
            break;
        }
    }
    assert_eq!(failures, 4);
    assert_eq!(actions, vec![Some(5), Some(10), Some(20), None]);
}

#[test]
fn try_run_step_rejects_counter_overflow() {
    let c = AgentConfig::default();
    assert!(try_next_run_step(&c, u32::MAX, ConnectionOutcome::Failed).is_none());
    let closed = try_next_run_step(&c, u32::MAX, ConnectionOutcome::Closed);
    assert!(matches!(closed, Some((u32::MAX, RunAction::Finish))));
}

#[test]
fn try_run_step_rejects_duration_overflow() {
    let c = AgentConfig {
        reconnect_delay: Duration::MAX,
        max_reconnect_delay: Duration::MAX,
        ..AgentConfig::default()
    };
    assert!(backoff_in_range(&c, 1));
    assert!(!backoff_in_range(&c, 2));
    let first = try_next_run_step(&c, 0, ConnectionOutcome::Failed);
    assert!(matches!(first, Some((1, RunAction::Reconnect(d))) if d == Duration::MAX));
    assert!(try_next_run_step(&c, 1, ConnectionOutcome::Failed).is_none());
    // giving up needs no delay, so no overflow is possible
    let limited = AgentConfig { max_reconnect_attempts: 1, ..c };
    assert!(matches!(
        try_next_run_step(&limited, 1, ConnectionOutcome::Failed),
        Some((2, RunAction::GiveUp))
    ));
}

#[test]
fn auth_message_carries_credentials() {
    let c = AgentConfig {
        agent_id: "id-1".to_string(),
        api_key: "cyb_live_key".to_string(),
        ..AgentConfig::default()
    };
    match auth_message(&c) {
        ClientMessage::Auth { agent_id, api_key } => {
            assert_eq!(agent_id, "id-1");
            assert_eq!(api_key, "cyb_live_key");
        }
        other => panic!("unexpected {:?}", other),
    }
}

fn auth_error(r: Result<AuthSuccessEvent, SdkError>) -> String {
    match r {
        Err(SdkError::Auth(m)) => m,
        other => panic!("unexpected {:?}", other),
    }
}

#[test]
fn auth_outcome_success() {
    let ev = AuthSuccessEvent { agent_id: 42, persona_name: "Socrates".to_string() };
    let r = auth_outcome(AuthReply::Received(ServerEvent::AuthSuccess(ev)));
    let ok = r.unwrap();
    assert_eq!(ok.agent_id, 42);
    assert_eq!(ok.persona_name, "Socrates");
}

#[test]
fn auth_outcome_errors() {
    assert_eq!(auth_error(auth_outcome(AuthReply::TimedOut)), "Auth timeout");
    assert_eq!(auth_error(auth_outcome(AuthReply::Closed)), "Connection closed");
    let e = ServerEvent::Error(ErrorEvent { message: "bad key".to_string() });
    assert_eq!(auth_error(auth_outcome(AuthReply::Received(e))), "bad key");
    let hb = ServerEvent::HeartbeatAck { timestamp: Some(5) };
    assert_eq!(auth_error(auth_outcome(AuthReply::Received(hb))), "Unexpected auth response");
    let t = ServerEvent::NewThread(thread(1));
    assert_eq!(auth_error(auth_outcome(AuthReply::Received(t))), "Unexpected auth response");
}

#[test]
fn loop_dispatches_events() {
    match next_loop_action(StreamItem::Event(ServerEvent::NewThread(thread(9)))) {
        LoopAction::RunThreadHandlers(e) => assert_eq!(e.thread_id, 9),
        other => panic!("unexpected {:?}", other),
    }
    let reply = ReplyEvent {
        thread_id: 1,
        reply_id: 2,
        persona_name: "p".to_string(),
        content: "c".to_string(),
    };
    match next_loop_action(StreamItem::Event(ServerEvent::NewReply(reply))) {
        LoopAction::RunReplyHandlers(e) => assert_eq!(e.reply_id, 2),
        other => panic!("unexpected {:?}", other),
    }
    let m = ModerationEvent { reply_id: 3, approved: false, reason: Some("spam".to_string()) };
    match next_loop_action(StreamItem::Event(ServerEvent::ModerationResult(m))) {
        LoopAction::RunModerationHandlers(e) => {
            assert_eq!(e.reply_id, 3);
            assert!(!e.approved);
        }
        other => panic!("unexpected {:?}", other),
    }
    match next_loop_action(StreamItem::Event(ServerEvent::Error(ErrorEvent {
        message: "oops".to_string(),
    }))) {
        LoopAction::ServerError(m) => assert_eq!(m, "oops"),
        other => panic!("unexpected {:?}", other),
    }
    assert!(matches!(
        next_loop_action(StreamItem::Event(ServerEvent::HeartbeatAck { timestamp: None })),
        LoopAction::HeartbeatAcknowledged
    ));
    let auth = AuthSuccessEvent { agent_id: 1, persona_name: "x".to_string() };
    assert!(matches!(
        next_loop_action(StreamItem::Event(ServerEvent::AuthSuccess(auth))),
        LoopAction::Skip
    ));
}

#[test]
fn loop_stops_skips_and_beats() {
    assert!(matches!(next_loop_action(StreamItem::Close), LoopAction::Stop));
    assert!(matches!(next_loop_action(StreamItem::End), LoopAction::Lost(SdkError::NotConnected)));
    let read_error = tokio_tungstenite::tungstenite::Error::ConnectionClosed;
    assert!(matches!(
        next_loop_action(StreamItem::ReadError(read_error)),
        LoopAction::Lost(SdkError::WebSocket(tokio_tungstenite::tungstenite::Error::ConnectionClosed))
    ));
    assert!(matches!(next_loop_action(StreamItem::Unparsed), LoopAction::Skip));
    assert!(matches!(next_loop_action(StreamItem::OtherFrame), LoopAction::Skip));
    assert!(matches!(
        next_loop_action(StreamItem::HeartbeatDue),
        LoopAction::Send(ClientMessage::Heartbeat)
    ));
}

fn reply_of(id: u128, answer: Option<&str>) -> Option<(String, String)> {
    match thread_reply(&thread(id), answer.map(|s| s.to_string())) {
        Some(ClientMessage::Reply { thread_id, content }) => Some((thread_id, content)),
        Some(other) => panic!("unexpected {:?}", other),
        None => None,
    }
}

#[test]
fn thread_reply_addresses_thread() {
    let id = 0x67e5504410b1426f9247bb680e5fe0c8u128;
    let (tid, content) = reply_of(id, Some("Great point!")).unwrap();
    assert_eq!(tid, "67e55044-10b1-426f-9247-bb680e5fe0c8");
    assert_eq!(tid, uuid::Uuid::from_u128(id).to_string());
    assert_eq!(content, "Great point!");
}

#[test]
fn thread_reply_id_text_small_values() {
    assert_eq!(reply_of(0, Some("x")).unwrap().0, "00000000-0000-0000-0000-000000000000");
    assert_eq!(reply_of(1, Some("x")).unwrap().0, "00000000-0000-0000-0000-000000000001");
    assert_eq!(
        reply_of(u128::MAX, Some("x")).unwrap().0,
        "ffffffff-ffff-ffff-ffff-ffffffffffff"
    );
}

#[test]
fn thread_reply_skips_missing_and_blank() {
    assert_eq!(reply_of(1, None), None);
    assert_eq!(reply_of(1, Some("")), None);
    assert_eq!(reply_of(1, Some("  \t\n ")), None);
    assert_eq!(reply_of(1, Some("\u{3000}\u{00a0}\u{2028}")), None);
    // padded content is sent unchanged
    assert_eq!(reply_of(1, Some("  hi  ")).unwrap().1, "  hi  ");
}

#[test]
fn thread_reply_length_limit_in_bytes() {
    assert_eq!(MAX_CONTENT_LENGTH, 4096);
    let exact = "a".repeat(4096);
    assert_eq!(reply_of(1, Some(&exact)).unwrap().1, exact);
    let over = "a".repeat(4097);
    assert_eq!(reply_of(1, Some(&over)), None);
    // 2049 two-byte characters are 4098 bytes: too long
    let wide = "é".repeat(2049);
    assert_eq!(reply_of(1, Some(&wide)), None);
    let wide_ok = "é".repeat(2048);
    assert_eq!(reply_of(1, Some(&wide_ok)).unwrap().1, wide_ok);
    let emoji = "🦀".repeat(1025);
    assert_eq!(reply_of(1, Some(&emoji)), None);
}

#[test]
fn lost_connection_reconnects() {
    // a session that ends without a close frame fails, so the run loop reconnects
    let c = AgentConfig::default();
    let action = next_loop_action(StreamItem::End);
    let outcome = match action {
        LoopAction::Lost(_) => ConnectionOutcome::Failed,
        LoopAction::Stop => ConnectionOutcome::Closed,
        other => panic!("unexpected {:?}", other),
    };
    let (n, a) = next_run_step(&c, 0, outcome);
    assert_eq!(n, 1);
    assert_eq!(secs(&a), Some(5));
}

#[test]
fn interrupt_finishes_run() {
    let c = AgentConfig { max_reconnect_attempts: 2, ..AgentConfig::default() };
    let (n, a) = next_run_step(&c, 1, ConnectionOutcome::Interrupted);
    assert_eq!(n, 1);
    assert!(matches!(a, RunAction::Finish));
    assert!(matches!(
        try_next_run_step(&c, u32::MAX, ConnectionOutcome::Interrupted),
        Some((u32::MAX, RunAction::Finish))
    ));
}

#[test]
fn auth_outcome_transport_errors() {
    let r = auth_outcome(AuthReply::ReadError(
        tokio_tungstenite::tungstenite::Error::ConnectionClosed,
    ));
    assert!(matches!(
        r,
        Err(SdkError::WebSocket(tokio_tungstenite::tungstenite::Error::ConnectionClosed))
    ));
    assert_eq!(auth_error(auth_outcome(AuthReply::NotText("binary frame".to_string()))), "binary frame");
    let parse = serde_json::from_str::<serde_json::Value>("{").unwrap_err();
    assert!(matches!(auth_outcome(AuthReply::Unparsed(parse)), Err(SdkError::Json(_))));
}
