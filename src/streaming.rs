//! The decisions of one streaming attempt: tokens pushed by the backend are
//! forwarded in order and gathered; success finalises the gathered reply,
//! failure falls back once to a blocking request, and a closed downstream
//! ends the attempt without touching the session.
//!
//! The driver performs each returned action and reports the next event.

use vstd::prelude::*;
use vstd::string::*;

use crate::bot_logic::{finalize, prompt_for, render_history, BotLogic, ChatSession};
use crate::error::AppError;
use crate::llm_client::LlmRequest;
use crate::session_store::{exchanged, has_id, SessionStore};

verus! {

/// Where a streaming attempt stands.
#[derive(Debug, Clone, Copy, PartialEq, Eq, Structural)]
pub enum Phase {
    /// Tokens are arriving from the backend.
    Streaming,
    /// Streaming failed; one blocking request is outstanding.
    FallingBack,
    /// A terminal reply or error has been produced.
    Finished,
    /// The downstream went away; nothing more is sent or recorded.
    Abandoned,
}

/// What the driver does next.
#[derive(Debug)]
pub enum BridgeAction {
    /// Send this token downstream.
    Forward(String),
    /// Make one blocking generation call with this request and report its result.
    Fallback(LlmRequest),
    /// Send this terminal reply downstream; the session already holds it.
    Reply(String),
    /// Send this terminal error downstream.
    Fail(String),
    /// Nothing is to be sent.
    Stop,
}

/// The concatenation of the tokens, in order.
pub open spec fn concat(tokens: Seq<Seq<char>>) -> Seq<char>
    decreases tokens.len(),
{
    if tokens.len() == 0 {
        Seq::empty()
    } else {
        concat(tokens.drop_last()) + tokens.last()
    }
}

/// Phase and gathered text after a token arrives.
pub open spec fn token_step(phase: Phase, gathered: Seq<char>, token: Seq<char>) -> (Phase, Seq<char>) {
    if phase == Phase::Streaming {
        (phase, gathered + token)
    } else {
        (phase, gathered)
    }
}

/// Phase and gathered text after each of `tokens` arrived in turn.
pub open spec fn feed(phase: Phase, gathered: Seq<char>, tokens: Seq<Seq<char>>) -> (Phase, Seq<char>)
    decreases tokens.len(),
{
    if tokens.len() == 0 {
        (phase, gathered)
    } else {
        let (p, g) = feed(phase, gathered, tokens.drop_last());
        token_step(p, g, tokens.last())
    }
}

/// Tokens fed to a fresh attempt are gathered in exactly the order they were
/// produced, with nothing dropped, reordered or merged differently.
pub proof fn lemma_tokens_gathered_in_order(tokens: Seq<Seq<char>>)
    ensures
        feed(Phase::Streaming, Seq::empty(), tokens) == (Phase::Streaming, concat(tokens)),
    decreases tokens.len(),
{
    if tokens.len() > 0 {
        lemma_tokens_gathered_in_order(tokens.drop_last());
    }
}

/// One streaming attempt for one user message on one session.
pub struct StreamBridge {
    session_id: u128,
    user_text: String,
    fallback: LlmRequest,
    gathered: String,
    phase: Phase,
}

impl StreamBridge {
    pub closed spec fn spec_session_id(&self) -> u128 {
        self.session_id
    }

    pub closed spec fn spec_user_text(&self) -> Seq<char> {
        self.user_text@
    }

    /// The text gathered from the tokens forwarded so far.
    pub closed spec fn spec_gathered(&self) -> Seq<char> {
        self.gathered@
    }

    pub closed spec fn spec_phase(&self) -> Phase {
        self.phase
    }

    /// The blocking request used if streaming fails.
    pub closed spec fn spec_fallback(&self) -> LlmRequest {
        self.fallback
    }

    /// Starts an attempt for `user_text` on the session `session_id`. Returns
    /// the attempt and the streaming request to drive, or `None` when the
    /// session is not held.
    pub fn start(
        bot: &BotLogic,
        store: &SessionStore,
        session_id: u128,
        user_text: &str,
        max_tokens: u32,
    ) -> (r: Option<(StreamBridge, LlmRequest)>)
        ensures
            r is None <==> !has_id(store.sessions(), session_id),
            r matches Some((b, req)) ==> {
                &&& b.spec_phase() == Phase::Streaming
                &&& b.spec_gathered().len() == 0
                &&& b.spec_session_id() == session_id
                &&& b.spec_user_text() == user_text@
                &&& req.stream
                &&& !b.spec_fallback().stream
                &&& exists|s: ChatSession|
                    #![trigger store.sessions().contains(s)]
                    store.sessions().contains(s) && s.id == session_id && req.prompt@ == prompt_for(
                        render_history(s.messages@, bot.name()),
                        user_text@,
                    )
                &&& b.spec_fallback().prompt@ == req.prompt@
                &&& b.spec_fallback().max_new_tokens == max_tokens
                &&& req.max_new_tokens == max_tokens
                &&& b.spec_fallback().has_default_sampling()
                &&& req.has_default_sampling()
                &&& req.system_prompt matches Some(sp) && sp@ == bot.system()
                &&& b.spec_fallback().system_prompt matches Some(sp) && sp@ == bot.system()
            },
    {
        match store.get(session_id) {
            None => None,
            Some(session) => {
                let req = bot.build_streaming_request(user_text, session, max_tokens);
                let fallback = bot.build_llm_request(user_text, session, max_tokens);
                let b = StreamBridge {
                    session_id,
                    user_text: String::from_str(user_text),
                    fallback,
                    gathered: String::new(),
                    phase: Phase::Streaming,
                };
                assert(store.sessions().contains(*session));
                Some((b, req))
            },
        }
    }

    /// A token arrived from the backend. While streaming it is gathered and
    /// forwarded; in any other phase it is dropped.
    pub fn on_token(&mut self, token: String) -> (r: BridgeAction)
        ensures
            (final(self).spec_phase(), final(self).spec_gathered()) == token_step(
                old(self).spec_phase(),
                old(self).spec_gathered(),
                token@,
            ),
            final(self).spec_session_id() == old(self).spec_session_id(),
            final(self).spec_user_text() == old(self).spec_user_text(),
            final(self).spec_fallback() == old(self).spec_fallback(),
            old(self).spec_phase() == Phase::Streaming ==> r == BridgeAction::Forward(token),
            old(self).spec_phase() != Phase::Streaming ==> r is Stop,
    {
        if self.phase == Phase::Streaming {
            self.gathered.append(token.as_str());
            BridgeAction::Forward(token)
        } else {
            BridgeAction::Stop
        }
    }

    /// The downstream went away: nothing more is sent and the session is left as it is.
    pub fn on_downstream_closed(&mut self)
        ensures
            final(self).spec_phase() == Phase::Abandoned,
            final(self).spec_gathered() == old(self).spec_gathered(),
            final(self).spec_session_id() == old(self).spec_session_id(),
            final(self).spec_user_text() == old(self).spec_user_text(),
            final(self).spec_fallback() == old(self).spec_fallback(),
    {
        self.phase = Phase::Abandoned;
    }

    /// The task driving the backend's stream finished. On success the
    /// gathered text is finalised, recorded with the user message at `now`
    /// and replied; on failure the gathered text is dropped and the blocking
    /// fallback request is issued.
    pub fn on_stream_end(
        &mut self,
        outcome: Result<(), AppError>,
        bot: &BotLogic,
        store: &mut SessionStore,
        now: i64,
    ) -> (r: BridgeAction)
        requires
            old(store).wf(),
        ensures
            final(store).wf(),
            final(self).spec_session_id() == old(self).spec_session_id(),
            final(self).spec_user_text() == old(self).spec_user_text(),
            final(self).spec_fallback() == old(self).spec_fallback(),
            old(self).spec_phase() != Phase::Streaming ==> {
                &&& r is Stop
                &&& final(store).sessions() == old(store).sessions()
                &&& final(self).spec_phase() == old(self).spec_phase()
                &&& final(self).spec_gathered() == old(self).spec_gathered()
            },
            old(self).spec_phase() == Phase::Streaming && outcome is Ok ==> {
                let reply = finalize(old(self).spec_gathered(), bot.name());
                &&& r matches BridgeAction::Reply(t) && t@ == reply
                &&& final(self).spec_phase() == Phase::Finished
                &&& exchanged(
                    old(store).sessions(),
                    final(store).sessions(),
                    old(self).spec_session_id(),
                    old(self).spec_user_text(),
                    reply,
                    now,
                )
            },
            old(self).spec_phase() == Phase::Streaming && outcome is Err ==> {
                &&& r == BridgeAction::Fallback(old(self).spec_fallback())
                &&& final(self).spec_phase() == Phase::FallingBack
                &&& final(self).spec_gathered().len() == 0
                &&& final(store).sessions() == old(store).sessions()
            },
    {
        if self.phase != Phase::Streaming {
            return BridgeAction::Stop;
        }
        match outcome {
            Ok(()) => {
                let reply = bot.postprocess_response(self.gathered.as_str());
                store.record_exchange(self.session_id, self.user_text.as_str(), reply.as_str(), now);
                self.phase = Phase::Finished;
                BridgeAction::Reply(reply)
            },
            Err(_) => {
                self.gathered = String::new();
                self.phase = Phase::FallingBack;
                BridgeAction::Fallback(self.fallback.duplicate())
            },
        }
    }

    /// The blocking fallback call finished. Its text is finalised, recorded
    /// with the user message at `now` and replied; its error is reported and
    /// the session is left as it is.
    pub fn on_fallback_result(
        &mut self,
        result: Result<String, AppError>,
        bot: &BotLogic,
        store: &mut SessionStore,
        now: i64,
    ) -> (r: BridgeAction)
        requires
            old(store).wf(),
        ensures
            final(store).wf(),
            final(self).spec_session_id() == old(self).spec_session_id(),
            final(self).spec_user_text() == old(self).spec_user_text(),
            final(self).spec_fallback() == old(self).spec_fallback(),
            old(self).spec_phase() != Phase::FallingBack ==> {
                &&& r is Stop
                &&& final(store).sessions() == old(store).sessions()
                &&& final(self).spec_phase() == old(self).spec_phase()
            },
            old(self).spec_phase() == Phase::FallingBack ==> final(self).spec_phase()
                == Phase::Finished,
            old(self).spec_phase() == Phase::FallingBack ==> match result {
                Ok(text) => {
                    let reply = finalize(text@, bot.name());
                    &&& r matches BridgeAction::Reply(t) && t@ == reply
                    &&& exchanged(
                        old(store).sessions(),
                        final(store).sessions(),
                        old(self).spec_session_id(),
                        old(self).spec_user_text(),
                        reply,
                        now,
                    )
                },
                Err(e) => {
                    &&& r matches BridgeAction::Fail(m) && m@ == e.spec_describe()
                    &&& final(store).sessions() == old(store).sessions()
                },
            },
    {
        if self.phase != Phase::FallingBack {
            return BridgeAction::Stop;
        }
        self.phase = Phase::Finished;
        match result {
            Ok(text) => {
                let reply = bot.postprocess_response(text.as_str());
                store.record_exchange(self.session_id, self.user_text.as_str(), reply.as_str(), now);
                BridgeAction::Reply(reply)
            },
            Err(e) => BridgeAction::Fail(e.describe()),
        }
    }
}

} // verus!
