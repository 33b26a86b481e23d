use clawdbot_server::bot_logic::Role;
use clawdbot_server::openai_compat::{
    classify_role, completion_id, completion_request, completion_response, messages_to_prompt, models_list,
    OpenAIChatMessage, OpenAIChatRequest,
};

fn msg(role: &str, content: &str) -> OpenAIChatMessage {
    OpenAIChatMessage { role: role.to_string(), content: content.to_string() }
}

#[test]
fn conversation_becomes_prompt() {
    let msgs = vec![
        msg("system", " Be brief. "),
        msg("User", "Hi"),
        msg("assistant", "Hello!"),
        msg("SYSTEM", "Use Rust."),
        msg("tool", "  "),
        msg("tool", "result"),
    ];
    let (system, prompt) = messages_to_prompt(&msgs);
    assert_eq!(system, "Be brief.\n\nUse Rust.");
    assert_eq!(prompt, "User: Hi\n\nAssistant: Hello!\n\nUser: result");
}

#[test]
fn roles_are_matched_without_case() {
    let (system, prompt) = messages_to_prompt(&vec![msg("ÁSSISTANT", "x"), msg("ASSISTANT", "y")]);
    assert_eq!(system, "You are a helpful programming assistant. Respond in the same language as the user.");
    assert_eq!(prompt, "User: x\n\nAssistant: y");
}

#[test]
fn default_system_prompt_when_none_given() {
    let (system, prompt) = messages_to_prompt(&vec![msg("user", "x")]);
    assert_eq!(
        system,
        "You are a helpful programming assistant. Respond in the same language as the user."
    );
    assert_eq!(prompt, "User: x");
}

#[test]
fn empty_conversation_is_refused() {
    let req = OpenAIChatRequest {
        model: None,
        messages: vec![],
        max_tokens: None,
        stream: false,
        temperature_milli: None,
    };
    let err = completion_request(&req, 512).err().unwrap();
    assert_eq!(err.code(), "bad_request");
    assert_eq!(err.message(), "messages cannot be empty");
    assert_eq!(err.status_code(), 400);
}

#[test]
fn request_budget_is_capped() {
    let req = OpenAIChatRequest {
        model: None,
        messages: vec![msg("user", "hi")],
        max_tokens: Some(10_000),
        stream: false,
        temperature_milli: Some(200),
    };
    let l = completion_request(&req, 512).unwrap();
    assert_eq!(l.max_new_tokens, 4096);
    assert_eq!(l.temperature_milli, 200);
    assert_eq!(l.prompt, "User: hi");
    assert!(l.system_prompt.is_some());
    let req2 = OpenAIChatRequest { max_tokens: None, temperature_milli: None, ..req };
    let l2 = completion_request(&req2, 300).unwrap();
    assert_eq!(l2.max_new_tokens, 300);
    assert_eq!(l2.temperature_milli, 700);
}

#[test]
fn response_shape() {
    let r = completion_response("id-1".to_string(), 99, None, "text".to_string(), 12);
    assert_eq!(r.object, "chat.completion");
    assert_eq!(r.model, "openclaw-local");
    assert_eq!(r.choices.len(), 1);
    assert_eq!(r.choices[0].message.role, "assistant");
    assert_eq!(r.choices[0].message.content, "text");
    assert_eq!(r.choices[0].finish_reason, "stop");
    assert_eq!(r.usage.total_tokens, 12);
    assert_eq!(r.usage.prompt_tokens, 0);
    let m = completion_response("id-2".to_string(), 1, Some("gpt".to_string()), String::new(), 0);
    assert_eq!(m.model, "gpt");
}

#[test]
fn models_listing() {
    let l = models_list("ClawDBot");
    assert_eq!(l.object, "list");
    assert_eq!(l.data.len(), 1);
    assert_eq!(l.data[0].id, "openclaw-local");
    assert_eq!(l.data[0].owned_by, "ClawDBot");
    assert_eq!(l.data[0].created, 1700000000);
}

#[test]
fn completion_id_uses_uuid_text() {
    let id = completion_id(0x0123456789abcdef0123456789abcdef);
    assert_eq!(id, "chatcmpl-01234567-89ab-cdef-0123-456789abcdef");
}

#[test]
fn role_names_classified() {
    assert_eq!(classify_role("system"), Role::System);
    assert_eq!(classify_role("assistant"), Role::Assistant);
    assert_eq!(classify_role("user"), Role::User);
    assert_eq!(classify_role("tool"), Role::User);
    assert_eq!(classify_role("System"), Role::User);
}
