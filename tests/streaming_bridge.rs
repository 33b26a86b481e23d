use clawdbot_server::bot_logic::{BotLogic, Role};
use clawdbot_server::error::AppError;
use clawdbot_server::session_store::SessionStore;
use clawdbot_server::streaming::{BridgeAction, StreamBridge};

fn setup() -> (BotLogic, SessionStore) {
    let bot = BotLogic::new("ClawDBot");
    let mut store = SessionStore::new();
    store.get_or_create(42, 0);
    (bot, store)
}

fn forwarded(a: BridgeAction) -> String {
    match a {
        BridgeAction::Forward(t) => t,
        other => panic!("expected a forwarded token, got {other:?}"),
    }
}

#[test]
fn streaming_happy_path() {
    let (bot, mut store) = setup();
    let (mut b, req) = StreamBridge::start(&bot, &store, 42, "greet me", 128).unwrap();
    assert!(req.stream);
    assert_eq!(req.prompt, "greet me");
    assert_eq!(forwarded(b.on_token("He".to_string())), "He");
    assert_eq!(forwarded(b.on_token("llo".to_string())), "llo");
    match b.on_stream_end(Ok(()), &bot, &mut store, 5) {
        BridgeAction::Reply(r) => assert_eq!(r, "Hello"),
        other => panic!("unexpected {other:?}"),
    }
    let s = store.get(42).unwrap();
    assert_eq!(s.messages.len(), 2);
    assert_eq!(s.messages[0].role, Role::User);
    assert_eq!(s.messages[0].content, "greet me");
    assert_eq!(s.messages[1].role, Role::Assistant);
    assert_eq!(s.messages[1].content, "Hello");
    assert_eq!(s.last_active, 5);
}

#[test]
fn streaming_reply_is_finalized() {
    let (bot, mut store) = setup();
    let (mut b, _) = StreamBridge::start(&bot, &store, 42, "q", 16).unwrap();
    b.on_token("ClawDBot:".to_string());
    b.on_token("  yes ".to_string());
    match b.on_stream_end(Ok(()), &bot, &mut store, 1) {
        BridgeAction::Reply(r) => assert_eq!(r, "yes"),
        other => panic!("unexpected {other:?}"),
    }
}

#[test]
fn streaming_failure_falls_back_and_succeeds() {
    let (bot, mut store) = setup();
    let (mut b, req) = StreamBridge::start(&bot, &store, 42, "hi", 64).unwrap();
    let failure = AppError::LlmUnavailable("refused".to_string());
    let fallback = match b.on_stream_end(Err(failure), &bot, &mut store, 1) {
        BridgeAction::Fallback(f) => f,
        other => panic!("unexpected {other:?}"),
    };
    assert!(!fallback.stream);
    assert_eq!(fallback.prompt, req.prompt);
    assert_eq!(fallback.max_new_tokens, 64);
    assert_eq!(store.get(42).unwrap().messages.len(), 0);
    match b.on_fallback_result(Ok("Assistant: from fallback".to_string()), &bot, &mut store, 2) {
        BridgeAction::Reply(r) => assert_eq!(r, "from fallback"),
        other => panic!("unexpected {other:?}"),
    }
    let s = store.get(42).unwrap();
    assert_eq!(s.messages.len(), 2);
    assert_eq!(s.messages[1].content, "from fallback");
}

#[test]
fn streaming_failure_then_fallback_failure() {
    let (bot, mut store) = setup();
    let (mut b, _) = StreamBridge::start(&bot, &store, 42, "hi", 64).unwrap();
    let partial = forwarded(b.on_token("par".to_string()));
    assert_eq!(partial, "par");
    let action = b.on_stream_end(Err(AppError::LlmGeneration("no sse".to_string())), &bot, &mut store, 1);
    assert!(matches!(action, BridgeAction::Fallback(_)));
    let err = AppError::LlmUnavailable("down".to_string());
    match b.on_fallback_result(Err(err), &bot, &mut store, 2) {
        BridgeAction::Fail(m) => assert_eq!(m, "Python LLM szerver nem elérhető: down"),
        other => panic!("unexpected {other:?}"),
    }
    assert_eq!(store.get(42).unwrap().messages.len(), 0);
}

#[test]
fn closed_downstream_stops_without_recording() {
    let (bot, mut store) = setup();
    let (mut b, _) = StreamBridge::start(&bot, &store, 42, "hi", 64).unwrap();
    b.on_token("a".to_string());
    b.on_downstream_closed();
    assert!(matches!(b.on_token("b".to_string()), BridgeAction::Stop));
    assert!(matches!(b.on_stream_end(Ok(()), &bot, &mut store, 1), BridgeAction::Stop));
    assert_eq!(store.get(42).unwrap().messages.len(), 0);
}

#[test]
fn start_needs_a_held_session() {
    let (bot, store) = setup();
    assert!(StreamBridge::start(&bot, &store, 7, "hi", 64).is_none());
}
