use clawdbot_server::bot_logic::{BotLogic, ChatSession, Message, Role};
use clawdbot_server::llm_client::LlmRequest;

fn session_with(max_history: usize, msgs: Vec<Message>) -> ChatSession {
    let mut s = ChatSession::with_id(7, max_history, 1_000);
    for m in msgs {
        s.add_message_at(m, 2_000);
    }
    s
}

#[test]
fn finalize_strips_bot_name_prefix() {
    let bot = BotLogic::new("ClawDBot");
    assert_eq!(bot.postprocess_response("ClawDBot: hi there"), "hi there");
    assert_eq!(bot.postprocess_response("no prefix here"), "no prefix here");
}

#[test]
fn finalize_tries_prefixes_in_order() {
    let bot = BotLogic::new("ClawDBot");
    assert_eq!(bot.postprocess_response("  Assistant:   ok  "), "ok");
    assert_eq!(bot.postprocess_response("### Response: done"), "done");
    assert_eq!(bot.postprocess_response("ClawDBot: Assistant: x"), "Assistant: x");
    assert_eq!(bot.postprocess_response("\n\n"), "");
    assert_eq!(bot.postprocess_response("Bot: x"), "Bot: x");
}

#[test]
fn empty_history_prompt_is_the_message() {
    let bot = BotLogic::new("ClawDBot");
    let s = ChatSession::with_id(1, 10, 0);
    let req = bot.build_llm_request("hello there", &s, 64);
    assert_eq!(req.prompt, "hello there");
    assert_eq!(req.max_new_tokens, 64);
    assert!(!req.stream);
    assert_eq!(req.temperature_milli, 700);
    assert_eq!(req.top_p_milli, 950);
    assert_eq!(req.top_k, 50);
    assert_eq!(req.repetition_penalty_milli, 1100);
    assert_eq!(req.system_prompt.as_deref(), Some(bot.system_prompt()));
}

#[test]
fn prompt_renders_history_without_system_messages() {
    let bot = BotLogic::new("ClawDBot");
    let s = session_with(
        10,
        vec![
            Message { role: Role::System, content: "hidden".to_string(), timestamp: 0 },
            Message::user_at("hi", 1),
            Message::assistant_at("hello", 2),
        ],
    );
    let req = bot.build_llm_request("how are you?", &s, 512);
    assert_eq!(req.prompt, "User: hi\nClawDBot: hello\n\nUser: how are you?");
    let streaming = bot.build_streaming_request("how are you?", &s, 512);
    assert!(streaming.stream);
    assert_eq!(streaming.prompt, req.prompt);
}

#[test]
fn system_prompt_names_the_bot() {
    let bot = BotLogic::new("Zed");
    assert!(bot.system_prompt().starts_with("Te vagy Zed, egy intelligens kód-asszisztens bot."));
    assert!(bot.system_prompt().ends_with("Magyar és angol nyelven egyaránt kommunikálsz."));
    assert_eq!(bot.bot_name(), "Zed");
}

#[test]
fn history_keeps_most_recent_window() {
    let mut s = ChatSession::with_id(3, 2, 0);
    for i in 0..7 {
        s.add_message_at(Message::user_at(&format!("m{i}"), i), i);
        assert!(s.messages.len() <= 4);
    }
    let contents: Vec<&str> = s.messages.iter().map(|m| m.content.as_str()).collect();
    assert_eq!(contents, vec!["m3", "m4", "m5", "m6"]);
    assert_eq!(s.last_active, 6);
    assert_eq!(s.created_at, 0);
}

#[test]
fn zero_window_keeps_nothing() {
    let mut s = ChatSession::with_id(3, 0, 0);
    s.add_message(Message::user("x"));
    assert!(s.messages.is_empty());
}

#[test]
fn new_session_is_empty_and_fresh() {
    let a = ChatSession::new(10);
    let b = ChatSession::new(10);
    assert!(a.messages.is_empty());
    assert_eq!(a.max_history, 10);
    assert_eq!(a.created_at, a.last_active);
    assert_ne!(a.id, b.id);
}

#[test]
fn message_constructors_set_role() {
    let u = Message::user("q");
    let a = Message::assistant("r");
    assert_eq!(u.role, Role::User);
    assert_eq!(a.role, Role::Assistant);
    assert_eq!(u.content, "q");
    assert!(u.timestamp > 1_600_000_000_000);
}

#[test]
fn default_request_values() {
    let r = LlmRequest::default();
    assert_eq!(r.prompt, "");
    assert_eq!(r.max_new_tokens, 512);
    assert_eq!(r.temperature_milli, 700);
    assert!(r.system_prompt.is_none());
    assert!(!r.stream);
}
