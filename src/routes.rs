//! The decisions of the gateway's endpoints, between reading a request and
//! calling the backend, and between the backend's answer and the reply.

use vstd::prelude::*;
use vstd::string::*;

use crate::admission::{Admission, AdmissionController};
use crate::bot_logic::{
    finalize, prompt_for, render_history, BotLogic, ChatRequest, ChatResponse, ChatSession,
};
use crate::error::AppError;
use crate::llm_client::{LlmRequest, LlmResponse, DEFAULT_MAX_NEW_TOKENS};
use crate::session_store::{adds_empty_session, exchanged, has_id, SessionStore};
use crate::text::{trim, trimmed};

verus! {

pub const EMPTY_MESSAGE: &'static str = "Az üzenet nem lehet üres.";

/// The outcome of a request's admission: admitted requests go on, denied
/// ones are refused as rate limited.
pub fn admission_result(decision: Admission) -> (r: Result<(), AppError>)
    ensures
        decision == Admission::Allow <==> r is Ok,
        r matches Err(e) ==> e is RateLimited,
{
    match decision {
        Admission::Allow => Ok(()),
        Admission::Deny => Err(AppError::RateLimited),
    }
}

/// Checks a request from a client key: admitted, or refused as rate
/// limited. Only that key's bucket can change, and a refusal changes nothing.
pub fn rate_limit_gate(controller: &mut AdmissionController, key: u128) -> (r: Result<(), AppError>)
    requires
        old(controller).wf(),
    ensures
        final(controller).wf(),
        final(controller).quota() == old(controller).quota(),
        final(controller).buckets().remove(key) == old(controller).buckets().remove(key),
        r is Err ==> final(controller).buckets() == old(controller).buckets(),
        r matches Err(e) ==> e is RateLimited,
{
    admission_result(controller.check(key))
}

/// Opens a new empty session with identifier `fresh`, created at `now`.
/// An identifier that is already taken is refused with `None`, and the
/// store is left as it is; the caller draws another.
pub fn new_session(store: &mut SessionStore, fresh: u128, now: i64) -> (r: Option<u128>)
    requires
        old(store).wf(),
    ensures
        final(store).wf(),
        r is None <==> has_id(old(store).sessions(), fresh),
        r is None ==> final(store).sessions() == old(store).sessions(),
        r matches Some(id) ==> id == fresh && adds_empty_session(
            old(store).sessions(),
            final(store).sessions(),
            fresh,
            now,
        ),
{
    if store.contains(fresh) {
        return None;
    }
    store.get_or_create(fresh, now);
    Some(fresh)
}

/// Validates a chat call and prepares its backend request. A message that is
/// blank after trimming is refused. Otherwise the session named by the call,
/// or a new one with identifier `fresh`, is looked up or created at `now`,
/// and the request is built from its history.
pub fn prepare_chat(
    store: &mut SessionStore,
    bot: &BotLogic,
    req: &ChatRequest,
    default_max_tokens: u32,
    fresh: u128,
    now: i64,
) -> (r: Result<(u128, LlmRequest), AppError>)
    requires
        old(store).wf(),
    ensures
        final(store).wf(),
        trimmed(req.message@).len() == 0 <==> r is Err,
        r matches Err(e) ==> (e is BadRequest && e.spec_message() == EMPTY_MESSAGE@
            && final(store).sessions() == old(store).sessions()),
        r matches Ok((id, l)) ==> {
            &&& id == match req.session_id {
                Some(i) => i,
                None => fresh,
            }
            &&& has_id(final(store).sessions(), id)
            &&& has_id(old(store).sessions(), id) ==> final(store).sessions()
                == old(store).sessions()
            &&& !has_id(old(store).sessions(), id) ==> adds_empty_session(
                old(store).sessions(),
                final(store).sessions(),
                id,
                now,
            )
            &&& exists|s: ChatSession|
                #![trigger final(store).sessions().contains(s)]
                final(store).sessions().contains(s) && s.id == id && l.prompt@ == prompt_for(
                    render_history(s.messages@, bot.name()),
                    req.message@,
                )
            &&& l.max_new_tokens == match req.max_tokens {
                Some(n) => n,
                None => default_max_tokens,
            }
            &&& l.system_prompt matches Some(sp) && sp@ == bot.system()
            &&& l.has_default_sampling()
            &&& !l.stream
        },
{
    let t = trim(req.message.as_str());
    if t.as_str().is_empty() {
        return Err(AppError::BadRequest(String::from_str(EMPTY_MESSAGE)));
    }
    let id = match req.session_id {
        Some(i) => i,
        None => fresh,
    };
    store.get_or_create(id, now);
    let max_tokens = match req.max_tokens {
        Some(n) => n,
        None => default_max_tokens,
    };
    let session = store.get(id).unwrap();
    let l = bot.build_llm_request(req.message.as_str(), session, max_tokens);
    assert(store.sessions().contains(*session));
    Ok((id, l))
}

/// Finalises the backend's answer to a chat call, records the exchange in
/// the session at `now` and builds the reply.
pub fn complete_chat(
    store: &mut SessionStore,
    bot: &BotLogic,
    session_id: u128,
    message: &str,
    resp: LlmResponse,
    now: i64,
) -> (r: ChatResponse)
    requires
        old(store).wf(),
    ensures
        final(store).wf(),
        r.session_id == session_id,
        r.reply@ == finalize(resp.text@, bot.name()),
        r.tokens_generated == resp.tokens_generated,
        r.elapsed_micros == resp.elapsed_micros,
        r.model == resp.model,
        exchanged(
            old(store).sessions(),
            final(store).sessions(),
            session_id,
            message@,
            finalize(resp.text@, bot.name()),
            now,
        ),
{
    let reply = bot.postprocess_response(resp.text.as_str());
    store.record_exchange(session_id, message, reply.as_str(), now);
    ChatResponse {
        session_id,
        reply,
        tokens_generated: resp.tokens_generated,
        elapsed_micros: resp.elapsed_micros,
        model: resp.model,
    }
}

/// Reads one inbound stream message. `parsed` holds the `message` text and
/// `max_tokens` number of a message that was a JSON document, or is `None`
/// for plain text, which is taken whole as the message. A document without
/// a `message` text is skipped. The budget defaults to 512 tokens and keeps
/// the low 32 bits of the number given.
pub fn inbound_message(parsed: Option<(Option<String>, Option<u64>)>, raw: String) -> (r: Option<
    (String, u32),
>)
    ensures
        match parsed {
            None => r matches Some((m, n)) && m == raw && n == DEFAULT_MAX_NEW_TOKENS,
            Some((None, _)) => r is None,
            Some((Some(text), budget)) => r matches Some((m, n)) && m == text && n == match budget {
                Some(b) => b as u32,
                None => DEFAULT_MAX_NEW_TOKENS,
            },
        },
{
    match parsed {
        None => Some((raw, DEFAULT_MAX_NEW_TOKENS)),
        Some((None, _)) => None,
        Some((Some(text), budget)) => {
            let n = match budget {
                Some(b) => b as u32,
                None => DEFAULT_MAX_NEW_TOKENS,
            };
            Some((text, n))
        },
    }
}

} // verus!
