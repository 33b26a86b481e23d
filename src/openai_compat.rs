//! The chat-completions dialect: turning its conversations into one prompt
//! and wrapping a reply in its response shape.

use vstd::prelude::*;
use vstd::string::*;

use crate::bot_logic::{join_lines, Role};
use crate::clock::{id_text, uuid_text};
use crate::error::AppError;
use crate::llm_client::{
    LlmRequest, DEFAULT_REPETITION_PENALTY_MILLI, DEFAULT_TEMPERATURE_MILLI, DEFAULT_TOP_K,
    DEFAULT_TOP_P_MILLI,
};
use crate::text::{lower_of, lowercase, same_text, trim, trimmed};

verus! {

pub struct OpenAIChatMessage {
    pub role: String,
    pub content: String,
}

/// A chat-completions request. The temperature is in thousandths.
pub struct OpenAIChatRequest {
    pub model: Option<String>,
    pub messages: Vec<OpenAIChatMessage>,
    pub max_tokens: Option<u32>,
    pub stream: bool,
    pub temperature_milli: Option<u32>,
}

pub struct OpenAIChatResponse {
    pub id: String,
    pub object: String,
    pub created: i64,
    pub model: String,
    pub choices: Vec<OpenAIChoice>,
    pub usage: OpenAIUsage,
}

pub struct OpenAIChoice {
    pub index: u32,
    pub message: OpenAIMessage,
    pub finish_reason: String,
}

pub struct OpenAIMessage {
    pub role: String,
    pub content: String,
}

pub struct OpenAIUsage {
    pub prompt_tokens: u32,
    pub completion_tokens: u32,
    pub total_tokens: u32,
}

pub struct OAIModel {
    pub id: String,
    pub object: String,
    pub created: i64,
    pub owned_by: String,
}

pub struct OAIModelsList {
    pub object: String,
    pub data: Vec<OAIModel>,
}

pub const LOCAL_MODEL_ID: &'static str = "openclaw-local";

pub const LOCAL_MODEL_CREATED: i64 = 1700000000;

pub const MAX_COMPLETION_TOKENS: u32 = 4096;

pub const DEFAULT_SYSTEM_PROMPT: &'static str = "You are a helpful programming assistant. Respond in the same language as the user.";

/// The speaker a lowercased role name stands for: `system` and `assistant`
/// name themselves, any other name is a user.
pub open spec fn role_of(lowered: Seq<char>) -> Role {
    if lowered == "system"@ {
        Role::System
    } else if lowered == "assistant"@ {
        Role::Assistant
    } else {
        Role::User
    }
}

/// The speaker a lowercased role name stands for.
pub fn classify_role(lowered: &str) -> (r: Role)
    ensures
        r == role_of(lowered@),
{
    if same_text(lowered, "system") {
        Role::System
    } else if same_text(lowered, "assistant") {
        Role::Assistant
    } else {
        Role::User
    }
}

/// The system text and the prompt parts gathered from a conversation:
/// blank messages are skipped, system messages are joined by a blank line,
/// assistant messages become `Assistant:` parts and all others `User:` parts.
pub open spec fn gather(msgs: Seq<OpenAIChatMessage>) -> (Seq<char>, Seq<Seq<char>>)
    decreases msgs.len(),
{
    if msgs.len() == 0 {
        (Seq::empty(), Seq::empty())
    } else {
        let (sys, parts) = gather(msgs.drop_last());
        let m = msgs.last();
        let c = trimmed(m.content@);
        let role = role_of(lower_of(m.role@));
        if c.len() == 0 {
            (sys, parts)
        } else if role == Role::System {
            (if sys.len() == 0 { c } else { sys + "\n\n"@ + c }, parts)
        } else if role == Role::Assistant {
            (sys, parts.push("Assistant: "@ + c))
        } else {
            (sys, parts.push("User: "@ + c))
        }
    }
}

/// The system prompt and the prompt for a conversation.
pub open spec fn spec_messages_to_prompt(msgs: Seq<OpenAIChatMessage>) -> (Seq<char>, Seq<char>) {
    let (sys, parts) = gather(msgs);
    (
        if sys.len() == 0 { DEFAULT_SYSTEM_PROMPT@ } else { sys },
        join_lines(parts, "\n\n"@),
    )
}

/// Converts a conversation into `(system prompt, prompt)` for the backend.
pub fn messages_to_prompt(messages: &Vec<OpenAIChatMessage>) -> (r: (String, String))
    ensures
        (r.0@, r.1@) == spec_messages_to_prompt(messages@),
{
    let mut system = String::new();
    let mut prompt = String::new();
    let mut any = false;
    let mut i: usize = 0;
    while i < messages.len()
        invariant
            i <= messages@.len(),
            system@ == gather(messages@.subrange(0, i as int)).0,
            prompt@ == join_lines(gather(messages@.subrange(0, i as int)).1, "\n\n"@),
            any == (gather(messages@.subrange(0, i as int)).1.len() > 0),
        decreases messages@.len() - i,
    {
        let m = &messages[i];
        let ghost prev = gather(messages@.subrange(0, i as int));
        proof {
            let next = messages@.subrange(0, i + 1);
            assert(next.drop_last() =~= messages@.subrange(0, i as int));
            assert(next.last() == messages@[i as int]);
        }
        let content = trim(m.content.as_str());
        if !content.as_str().is_empty() {
            let lowered = lowercase(m.role.as_str());
            let role = classify_role(lowered.as_str());
            if role == Role::System {
                if !system.as_str().is_empty() {
                    system.append("\n\n");
                }
                system.append(content.as_str());
                proof {
                    if prev.0.len() == 0 {
                        assert(system@ =~= content@);
                    }
                }
            } else {
                if any {
                    prompt.append("\n\n");
                }
                if role == Role::Assistant {
                    prompt.append("Assistant: ");
                } else {
                    prompt.append("User: ");
                }
                prompt.append(content.as_str());
                any = true;
                proof {
                    let line = if role == Role::Assistant {
                        "Assistant: "@ + content@
                    } else {
                        "User: "@ + content@
                    };
                    let parts = prev.1.push(line);
                    assert(parts.drop_last() =~= prev.1);
                    if prev.1.len() == 0 {
                        assert(prompt@ =~= line);
                    } else {
                        assert(prompt@ =~= join_lines(prev.1, "\n\n"@) + "\n\n"@ + line);
                    }
                }
            }
        }
        i = i + 1;
    }
    assert(messages@.subrange(0, messages@.len() as int) =~= messages@);
    if system.as_str().is_empty() {
        system = String::from_str(DEFAULT_SYSTEM_PROMPT);
    }
    (system, prompt)
}

/// The backend request for a chat-completions request. An empty conversation
/// is refused; the token budget defaults to `default_max_tokens` and is capped.
pub fn completion_request(req: &OpenAIChatRequest, default_max_tokens: u32) -> (r: Result<
    LlmRequest,
    AppError,
>)
    ensures
        req.messages@.len() == 0 <==> r is Err,
        r matches Err(e) ==> e == AppError::BadRequest(e->BadRequest_0) && e->BadRequest_0@
            == "messages cannot be empty"@,
        r matches Ok(l) ==> {
            let (sys, prompt) = spec_messages_to_prompt(req.messages@);
            let wanted = match req.max_tokens {
                Some(n) => n,
                None => default_max_tokens,
            };
            &&& l.prompt@ == prompt
            &&& (if sys.len() == 0 {
                l.system_prompt is None
            } else {
                l.system_prompt matches Some(s) && s@ == sys
            })
            &&& l.max_new_tokens == if wanted < MAX_COMPLETION_TOKENS {
                wanted
            } else {
                MAX_COMPLETION_TOKENS
            }
            &&& l.temperature_milli == match req.temperature_milli {
                Some(t) => t,
                None => DEFAULT_TEMPERATURE_MILLI,
            }
            &&& l.top_p_milli == DEFAULT_TOP_P_MILLI
            &&& l.top_k == DEFAULT_TOP_K
            &&& l.repetition_penalty_milli == DEFAULT_REPETITION_PENALTY_MILLI
            &&& !l.stream
        },
{
    if req.messages.len() == 0 {
        return Err(AppError::BadRequest(String::from_str("messages cannot be empty")));
    }
    let wanted = match req.max_tokens {
        Some(n) => n,
        None => default_max_tokens,
    };
    let max_tokens = if wanted < MAX_COMPLETION_TOKENS {
        wanted
    } else {
        MAX_COMPLETION_TOKENS
    };
    let (system_prompt, prompt) = messages_to_prompt(&req.messages);
    let temperature_milli = match req.temperature_milli {
        Some(t) => t,
        None => DEFAULT_TEMPERATURE_MILLI,
    };
    Ok(
        LlmRequest {
            prompt,
            system_prompt: if system_prompt.as_str().is_empty() {
                None
            } else {
                Some(system_prompt)
            },
            max_new_tokens: max_tokens,
            temperature_milli,
            top_p_milli: DEFAULT_TOP_P_MILLI,
            top_k: DEFAULT_TOP_K,
            repetition_penalty_milli: DEFAULT_REPETITION_PENALTY_MILLI,
            stream: false,
        },
    )
}

/// The identifier of a completion: `chatcmpl-` and the UUID text of `id`.
pub fn completion_id(id: u128) -> (r: String)
    ensures
        r@ == "chatcmpl-"@ + uuid_text(id),
{
    let mut out = String::from_str("chatcmpl-");
    let text = id_text(id);
    out.append(text.as_str());
    out
}

/// A completed chat-completions response holding one assistant choice.
pub fn completion_response(
    id: String,
    created: i64,
    model: Option<String>,
    content: String,
    completion_tokens: u32,
) -> (r: OpenAIChatResponse)
    ensures
        r.id == id,
        r.object@ == "chat.completion"@,
        r.created == created,
        r.model@ == match model {
            Some(m) => m@,
            None => LOCAL_MODEL_ID@,
        },
        r.choices@.len() == 1,
        r.choices@[0].index == 0,
        r.choices@[0].message.role@ == "assistant"@,
        r.choices@[0].message.content == content,
        r.choices@[0].finish_reason@ == "stop"@,
        r.usage.prompt_tokens == 0,
        r.usage.completion_tokens == completion_tokens,
        r.usage.total_tokens == completion_tokens,
{
    let model = match model {
        Some(m) => m,
        None => String::from_str(LOCAL_MODEL_ID),
    };
    let choice = OpenAIChoice {
        index: 0,
        message: OpenAIMessage { role: String::from_str("assistant"), content },
        finish_reason: String::from_str("stop"),
    };
    let mut choices = Vec::new();
    choices.push(choice);
    OpenAIChatResponse {
        id,
        object: String::from_str("chat.completion"),
        created,
        model,
        choices,
        usage: OpenAIUsage { prompt_tokens: 0, completion_tokens, total_tokens: completion_tokens },
    }
}

/// The list of models served: the one local model, owned by `owner`.
pub fn models_list(owner: &str) -> (r: OAIModelsList)
    ensures
        r.object@ == "list"@,
        r.data@.len() == 1,
        r.data@[0].id@ == LOCAL_MODEL_ID@,
        r.data@[0].object@ == "model"@,
        r.data@[0].created == LOCAL_MODEL_CREATED,
        r.data@[0].owned_by@ == owner@,
{
    let mut data = Vec::new();
    data.push(
        OAIModel {
            id: String::from_str(LOCAL_MODEL_ID),
            object: String::from_str("model"),
            created: LOCAL_MODEL_CREATED,
            owned_by: String::from_str(owner),
        },
    );
    OAIModelsList { object: String::from_str("list"), data }
}

} // verus!
