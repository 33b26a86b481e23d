use clawdbot_server::bot_logic::{BotLogic, ChatRequest};
use clawdbot_server::error::AppError;
use clawdbot_server::llm_client::LlmResponse;
use clawdbot_server::routes::{complete_chat, inbound_message, prepare_chat};
use clawdbot_server::session_store::SessionStore;

#[test]
fn blank_message_is_bad_request() {
    let bot = BotLogic::new("ClawDBot");
    let mut store = SessionStore::new();
    let req = ChatRequest { message: "   ".to_string(), session_id: None, max_tokens: None };
    match prepare_chat(&mut store, &bot, &req, 512, 1, 0) {
        Err(e) => {
            assert_eq!(e.status_code(), 400);
            assert_eq!(e.message(), "Az üzenet nem lehet üres.");
        }
        Ok(_) => panic!("expected an error"),
    }
    assert_eq!(store.len(), 0);
}

#[test]
fn chat_round_trip_records_exchange() {
    let bot = BotLogic::new("ClawDBot");
    let mut store = SessionStore::new();
    let req = ChatRequest { message: "hi".to_string(), session_id: None, max_tokens: None };
    let (id, l) = prepare_chat(&mut store, &bot, &req, 256, 11, 0).unwrap();
    assert_eq!(id, 11);
    assert_eq!(l.prompt, "hi");
    assert_eq!(l.max_new_tokens, 256);
    let resp = LlmResponse {
        text: " ClawDBot: hello ".to_string(),
        tokens_generated: 3,
        elapsed_micros: 1_500_000,
        model: "m".to_string(),
    };
    let out = complete_chat(&mut store, &bot, id, "hi", resp, 5);
    assert_eq!(out.reply, "hello");
    assert_eq!(out.tokens_generated, 3);
    assert_eq!(out.session_id, 11);
    let req2 = ChatRequest { message: "again".to_string(), session_id: Some(11), max_tokens: Some(9) };
    let (_, l2) = prepare_chat(&mut store, &bot, &req2, 256, 12, 6).unwrap();
    assert_eq!(l2.prompt, "User: hi\nClawDBot: hello\n\nUser: again");
    assert_eq!(l2.max_new_tokens, 9);
    assert_eq!(store.len(), 1);
}

#[test]
fn inbound_messages() {
    assert_eq!(inbound_message(None, "plain".to_string()), Some(("plain".to_string(), 512)));
    assert_eq!(inbound_message(Some((None, Some(5))), "{}".to_string()), None);
    assert_eq!(
        inbound_message(Some((Some("m".to_string()), Some(64))), "x".to_string()),
        Some(("m".to_string(), 64))
    );
    assert_eq!(
        inbound_message(Some((Some("m".to_string()), Some(4_294_967_297))), "x".to_string()),
        Some(("m".to_string(), 1))
    );
}

#[test]
fn error_reporting() {
    let cases = vec![
        (AppError::LlmUnavailable("x".to_string()), 503, "llm_unavailable", "Python LLM szerver nem elérhető: x"),
        (AppError::LlmGeneration("y".to_string()), 500, "llm_error", "LLM generálási hiba: y"),
        (AppError::BadRequest("z".to_string()), 400, "bad_request", "Érvénytelen kérés: z"),
        (AppError::RateLimited, 429, "rate_limited", "Rate limit túllépve"),
        (AppError::Internal("w".to_string()), 500, "internal_error", "Belső szerver hiba: w"),
    ];
    for (e, status, code, text) in cases {
        assert_eq!(e.status_code(), status);
        assert_eq!(e.code(), code);
        assert_eq!(e.describe(), text);
    }
    assert_eq!(AppError::RateLimited.message(), "Túl sok kérés, próbálj újra később.");
}
