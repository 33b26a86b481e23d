//! Conversation model, prompt assembly and reply finalisation.

use vstd::prelude::*;
use vstd::string::*;

use crate::clock::{fresh_id, now_millis};
use crate::llm_client::{
    LlmRequest, DEFAULT_REPETITION_PENALTY_MILLI, DEFAULT_TEMPERATURE_MILLI, DEFAULT_TOP_K,
    DEFAULT_TOP_P_MILLI,
};
use crate::text::{strip_prefix, trim, trimmed};

verus! {

/// Who spoke a message.
#[derive(Debug, Clone, Copy, PartialEq, Eq, Structural)]
pub enum Role {
    System,
    User,
    Assistant,
}

/// One turn of a conversation. `timestamp` is in milliseconds since the Unix epoch.
#[derive(Debug, Clone)]
pub struct Message {
    pub role: Role,
    pub content: String,
    pub timestamp: i64,
}

impl Message {
    /// A user message stamped with the given time.
    pub fn user_at(content: &str, timestamp: i64) -> (r: Message)
        ensures
            r.role == Role::User,
            r.content@ == content@,
            r.timestamp == timestamp,
    {
        Message { role: Role::User, content: String::from_str(content), timestamp }
    }

    /// An assistant message stamped with the given time.
    pub fn assistant_at(content: &str, timestamp: i64) -> (r: Message)
        ensures
            r.role == Role::Assistant,
            r.content@ == content@,
            r.timestamp == timestamp,
    {
        Message { role: Role::Assistant, content: String::from_str(content), timestamp }
    }

    /// A user message stamped with the current time.
    pub fn user(content: &str) -> (r: Message)
        ensures
            r.role == Role::User,
            r.content@ == content@,
    {
        Message::user_at(content, now_millis())
    }

    /// An assistant message stamped with the current time.
    pub fn assistant(content: &str) -> (r: Message)
        ensures
            r.role == Role::Assistant,
            r.content@ == content@,
    {
        Message::assistant_at(content, now_millis())
    }
}

/// The last `n` elements of `s`, or all of `s` when it is shorter.
pub open spec fn keep_last<A>(s: Seq<A>, n: nat) -> Seq<A> {
    if s.len() > n {
        s.subrange(s.len() - n, s.len() as int)
    } else {
        s
    }
}

/// A conversation kept by the gateway. Times are milliseconds since the Unix epoch.
#[derive(Debug, Clone)]
pub struct ChatSession {
    pub id: u128,
    pub created_at: i64,
    pub last_active: i64,
    pub messages: Vec<Message>,
    /// Number of exchanges kept; at most twice as many messages are retained.
    pub max_history: usize,
}

impl ChatSession {
    /// The number of messages retained.
    pub open spec fn window(&self) -> nat {
        (2 * self.max_history) as nat
    }

    /// The history never holds more than two messages per retained exchange.
    pub open spec fn wf(&self) -> bool {
        self.messages@.len() <= self.window()
    }

    /// An empty session with the given identifier, created at `now`.
    pub fn with_id(id: u128, max_history: usize, now: i64) -> (r: ChatSession)
        ensures
            r.wf(),
            r.id == id,
            r.created_at == now,
            r.last_active == now,
            r.messages@.len() == 0,
            r.max_history == max_history,
    {
        ChatSession { id, created_at: now, last_active: now, messages: Vec::new(), max_history }
    }

    /// An empty session with a fresh random identifier, created now.
    pub fn new(max_history: usize) -> (r: ChatSession)
        ensures
            r.wf(),
            r.created_at == r.last_active,
            r.messages@.len() == 0,
            r.max_history == max_history,
    {
        let now = now_millis();
        ChatSession::with_id(fresh_id(), max_history, now)
    }

    /// Appends `msg` at time `now`, then drops the oldest messages beyond the window.
    pub fn add_message_at(&mut self, msg: Message, now: i64)
        ensures
            final(self).messages@ == keep_last(
                old(self).messages@.push(msg),
                old(self).window(),
            ),
            final(self).wf(),
            final(self).last_active == now,
            final(self).id == old(self).id,
            final(self).created_at == old(self).created_at,
            final(self).max_history == old(self).max_history,
    {
        self.last_active = now;
        self.messages.push(msg);
        let len = self.messages.len();
        let max = self.max_history;
        if len > max && len - max > max {
            let drain_count = len - max - max;
            let kept = self.messages.split_off(drain_count);
            self.messages = kept;
        }
    }

    /// Appends `msg` at the current time, then drops the oldest messages beyond the window.
    pub fn add_message(&mut self, msg: Message)
        ensures
            final(self).messages@ == keep_last(
                old(self).messages@.push(msg),
                old(self).window(),
            ),
            final(self).wf(),
            final(self).id == old(self).id,
            final(self).created_at == old(self).created_at,
            final(self).max_history == old(self).max_history,
    {
        let now = now_millis();
        self.add_message_at(msg, now);
    }
}

/// The history after appending each of `appended` in turn to `msgs`.
pub open spec fn append_all(msgs: Seq<Message>, appended: Seq<Message>, window: nat) -> Seq<Message>
    decreases appended.len(),
{
    if appended.len() == 0 {
        msgs
    } else {
        keep_last(append_all(msgs, appended.drop_last(), window).push(appended.last()), window)
    }
}

/// After any sequence of appends to a well-formed history, the history is no
/// longer than the window and holds exactly the most recent messages, in the
/// order in which they were appended.
pub proof fn lemma_history_window(msgs: Seq<Message>, appended: Seq<Message>, window: nat)
    requires
        msgs.len() <= window,
    ensures
        append_all(msgs, appended, window).len() <= window,
        append_all(msgs, appended, window) == keep_last(msgs + appended, window),
    decreases appended.len(),
{
    if appended.len() == 0 {
        assert(msgs + appended =~= msgs);
    } else {
        let prev = append_all(msgs, appended.drop_last(), window);
        lemma_history_window(msgs, appended.drop_last(), window);
        let all = msgs + appended;
        let before = msgs + appended.drop_last();
        assert(all =~= before.push(appended.last()));
        let kept = keep_last(before, window);
        assert(keep_last(kept.push(appended.last()), window) =~= keep_last(all, window));
    }
}

/// Starting from an empty history, after appending `m_1, ..., m_n` the
/// history is exactly the `min(n, window)` most recent of them, in the order
/// they were appended.
pub proof fn lemma_fresh_history_window(appended: Seq<Message>, window: nat)
    ensures
        ({
            let n = appended.len() as int;
            let kept = if n < window {
                n
            } else {
                window as int
            };
            append_all(Seq::empty(), appended, window) == appended.subrange(n - kept, n)
        }),
{
    lemma_history_window(Seq::empty(), appended, window);
    assert(Seq::<Message>::empty() + appended =~= appended);
    assert(appended.subrange(0, appended.len() as int) =~= appended);
}

/// The label under which a message appears in a prompt.
pub open spec fn label_of(role: Role, bot_name: Seq<char>) -> Seq<char> {
    match role {
        Role::User => "User"@,
        Role::Assistant => bot_name,
        Role::System => "System"@,
    }
}

/// The prompt lines of a history: one `"<label>: <content>"` per non-system message.
pub open spec fn history_lines(msgs: Seq<Message>, bot_name: Seq<char>) -> Seq<Seq<char>>
    decreases msgs.len(),
{
    if msgs.len() == 0 {
        Seq::empty()
    } else {
        let prev = history_lines(msgs.drop_last(), bot_name);
        let m = msgs.last();
        if m.role == Role::System {
            prev
        } else {
            prev.push(label_of(m.role, bot_name) + ": "@ + m.content@)
        }
    }
}

/// The lines joined with `sep` between each two of them.
pub open spec fn join_lines(lines: Seq<Seq<char>>, sep: Seq<char>) -> Seq<char>
    decreases lines.len(),
{
    if lines.len() == 0 {
        Seq::empty()
    } else if lines.len() == 1 {
        lines[0]
    } else {
        join_lines(lines.drop_last(), sep) + sep + lines.last()
    }
}

/// The history of a session rendered as prompt text.
pub open spec fn render_history(msgs: Seq<Message>, bot_name: Seq<char>) -> Seq<char> {
    join_lines(history_lines(msgs, bot_name), "\n"@)
}

/// The prompt for a new user message after the rendered history.
pub open spec fn prompt_for(history: Seq<char>, user_message: Seq<char>) -> Seq<char> {
    if history.len() == 0 {
        user_message
    } else {
        history + "\n\nUser: "@ + user_message
    }
}

/// A session without history asks with exactly the user's message.
pub proof fn lemma_empty_history_prompt(user_message: Seq<char>, bot_name: Seq<char>)
    ensures
        prompt_for(render_history(Seq::empty(), bot_name), user_message) == user_message,
{
    assert(history_lines(Seq::<Message>::empty(), bot_name).len() == 0);
}

/// The role-describing system prompt for a bot of the given name.
pub open spec fn system_prompt_for(bot_name: Seq<char>) -> Seq<char> {
    "Te vagy "@ + bot_name + SYSTEM_PROMPT_BODY@
}

pub const SYSTEM_PROMPT_BODY: &'static str = ", egy intelligens kód-asszisztens bot. Feladatod, hogy segíts a felhasználóknak programozási kérdésekben, kódhibák javításában és szoftvertervezésben. Legyél tömör, pontos, és mindig adj működő kód példákat. Magyar és angol nyelven egyaránt kommunikálsz.";

/// `t` without the first prefix of `prefixes` that it starts with, trimmed;
/// `t` itself when it starts with none of them.
pub open spec fn strip_first_prefix(t: Seq<char>, prefixes: Seq<Seq<char>>) -> Seq<char>
    decreases prefixes.len(),
{
    if prefixes.len() == 0 {
        t
    } else if prefixes[0].is_prefix_of(t) {
        trimmed(t.subrange(prefixes[0].len() as int, t.len() as int))
    } else {
        strip_first_prefix(t, prefixes.drop_first())
    }
}

/// The prefixes that a raw reply may open with, in the order they are tried.
pub open spec fn reply_prefixes(bot_name: Seq<char>) -> Seq<Seq<char>> {
    seq![bot_name + ":"@, "Assistant:"@, "### Response:"@]
}

/// A raw backend reply, trimmed and without a leading speaker prefix.
pub open spec fn finalize(raw: Seq<char>, bot_name: Seq<char>) -> Seq<char> {
    strip_first_prefix(trimmed(raw), reply_prefixes(bot_name))
}

/// A chat call: the message, the session it continues (a new one when
/// absent) and the token budget (the configured default when absent).
pub struct ChatRequest {
    pub message: String,
    pub session_id: Option<u128>,
    pub max_tokens: Option<u32>,
}

/// The answer to a chat call. The elapsed time is in microseconds.
pub struct ChatResponse {
    pub session_id: u128,
    pub reply: String,
    pub tokens_generated: u32,
    pub elapsed_micros: u64,
    pub model: String,
}

/// Builds prompts from session history and cleans backend replies.
pub struct BotLogic {
    system_prompt: String,
    bot_name: String,
}

impl BotLogic {
    /// The name the bot speaks under.
    pub closed spec fn name(&self) -> Seq<char> {
        self.bot_name@
    }

    /// The system prompt sent with every request.
    pub closed spec fn system(&self) -> Seq<char> {
        self.system_prompt@
    }

    pub fn new(bot_name: &str) -> (r: BotLogic)
        ensures
            r.name() == bot_name@,
            r.system() == system_prompt_for(bot_name@),
    {
        let mut system_prompt = String::from_str("Te vagy ");
        system_prompt.append(bot_name);
        system_prompt.append(SYSTEM_PROMPT_BODY);
        BotLogic { system_prompt, bot_name: String::from_str(bot_name) }
    }

    pub fn bot_name(&self) -> (r: &str)
        ensures
            r@ == self.name(),
    {
        self.bot_name.as_str()
    }

    pub fn system_prompt(&self) -> (r: &str)
        ensures
            r@ == self.system(),
    {
        self.system_prompt.as_str()
    }

    /// Renders the non-system messages as `"<label>: <content>"` lines.
    fn format_history(&self, messages: &Vec<Message>) -> (r: String)
        ensures
            r@ == render_history(messages@, self.name()),
    {
        let ghost bot = self.bot_name@;
        let mut out = String::new();
        let mut any = false;
        let mut i: usize = 0;
        while i < messages.len()
            invariant
                i <= messages@.len(),
                bot == self.name(),
                out@ == join_lines(history_lines(messages@.subrange(0, i as int), bot), "\n"@),
                any == (history_lines(messages@.subrange(0, i as int), bot).len() > 0),
            decreases messages@.len() - i,
        {
            let m = &messages[i];
            proof {
                let next = messages@.subrange(0, i + 1);
                assert(next.drop_last() =~= messages@.subrange(0, i as int));
                assert(next.last() == messages@[i as int]);
            }
            if m.role != Role::System {
                if any {
                    out.append("\n");
                }
                if m.role == Role::User {
                    out.append("User");
                } else {
                    out.append(self.bot_name.as_str());
                }
                out.append(": ");
                out.append(m.content.as_str());
                any = true;
                proof {
                    let prev = history_lines(messages@.subrange(0, i as int), bot);
                    let line = label_of(m.role, bot) + ": "@ + m.content@;
                    let lines = prev.push(line);
                    assert(lines.drop_last() =~= prev);
                    if prev.len() == 0 {
                        assert(out@ =~= line);
                    } else {
                        assert(out@ =~= join_lines(prev, "\n"@) + "\n"@ + line);
                    }
                }
            }
            i = i + 1;
        }
        assert(messages@.subrange(0, messages@.len() as int) =~= messages@);
        out
    }

    /// The request for `user_message` after the session's history.
    pub fn build_llm_request(
        &self,
        user_message: &str,
        session: &ChatSession,
        max_new_tokens: u32,
    ) -> (r: LlmRequest)
        ensures
            r.prompt@ == prompt_for(render_history(session.messages@, self.name()), user_message@),
            r.system_prompt matches Some(sp) && sp@ == self.system(),
            r.max_new_tokens == max_new_tokens,
            r.has_default_sampling(),
            !r.stream,
    {
        let history = self.format_history(&session.messages);
        let prompt = if history.as_str().is_empty() {
            String::from_str(user_message)
        } else {
            let mut p = history;
            p.append("\n\nUser: ");
            p.append(user_message);
            p
        };
        LlmRequest {
            prompt,
            system_prompt: Some(self.system_prompt.clone()),
            max_new_tokens,
            temperature_milli: DEFAULT_TEMPERATURE_MILLI,
            top_p_milli: DEFAULT_TOP_P_MILLI,
            top_k: DEFAULT_TOP_K,
            repetition_penalty_milli: DEFAULT_REPETITION_PENALTY_MILLI,
            stream: false,
        }
    }

    /// The same request as `build_llm_request`, marked for streaming.
    pub fn build_streaming_request(
        &self,
        user_message: &str,
        session: &ChatSession,
        max_new_tokens: u32,
    ) -> (r: LlmRequest)
        ensures
            r.prompt@ == prompt_for(render_history(session.messages@, self.name()), user_message@),
            r.system_prompt matches Some(sp) && sp@ == self.system(),
            r.max_new_tokens == max_new_tokens,
            r.has_default_sampling(),
            r.stream,
    {
        let mut req = self.build_llm_request(user_message, session, max_new_tokens);
        req.stream = true;
        req
    }

    /// Trims a raw reply and removes the first speaker prefix it opens with:
    /// the bot's own name followed by `:`, then `Assistant:`, then `### Response:`.
    pub fn postprocess_response(&self, raw: &str) -> (r: String)
        ensures
            r@ == finalize(raw@, self.name()),
    {
        let t = trim(raw);
        let mut own = String::from_str(self.bot_name.as_str());
        own.append(":");
        let ghost prefixes = reply_prefixes(self.bot_name@);
        proof {
            assert(prefixes[0] == own@);
            assert(prefixes.drop_first()[0] == "Assistant:"@);
            assert(prefixes.drop_first().drop_first()[0] == "### Response:"@);
            assert(prefixes.drop_first().drop_first().drop_first().len() == 0);
        }
        if let Some(rest) = strip_prefix(t.as_str(), own.as_str()) {
            return trim(rest);
        }
        let ghost tail = prefixes.drop_first();
        assert(strip_first_prefix(t@, prefixes) == strip_first_prefix(t@, tail));
        if let Some(rest) = strip_prefix(t.as_str(), "Assistant:") {
            return trim(rest);
        }
        assert(strip_first_prefix(t@, tail) == strip_first_prefix(t@, tail.drop_first()));
        if let Some(rest) = strip_prefix(t.as_str(), "### Response:") {
            return trim(rest);
        }
        assert(strip_first_prefix(t@, tail.drop_first()) == strip_first_prefix(
            t@,
            tail.drop_first().drop_first(),
        ));
        t
    }
}

} // verus!
