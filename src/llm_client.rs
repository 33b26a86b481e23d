//! Requests to and replies from the generation backend.
//!
//! Sampling parameters are held in thousandths (`700` stands for `0.7`), so
//! that the values stay exact integers.

use vstd::prelude::*;
use vstd::string::*;

use crate::text::{contains_seq, contains_text, same_text, strip_prefix};

verus! {

/// One generation attempt handed to the backend.
#[derive(Debug, Clone)]
pub struct LlmRequest {
    pub prompt: String,
    pub max_new_tokens: u32,
    pub temperature_milli: u32,
    pub top_p_milli: u32,
    pub top_k: u32,
    pub repetition_penalty_milli: u32,
    pub stream: bool,
    pub system_prompt: Option<String>,
}

pub const DEFAULT_TEMPERATURE_MILLI: u32 = 700;

pub const DEFAULT_TOP_P_MILLI: u32 = 950;

pub const DEFAULT_TOP_K: u32 = 50;

pub const DEFAULT_REPETITION_PENALTY_MILLI: u32 = 1100;

pub const DEFAULT_MAX_NEW_TOKENS: u32 = 512;

impl LlmRequest {
    /// The fixed sampling parameters that every request of this gateway uses.
    pub open spec fn has_default_sampling(&self) -> bool {
        &&& self.temperature_milli == DEFAULT_TEMPERATURE_MILLI
        &&& self.top_p_milli == DEFAULT_TOP_P_MILLI
        &&& self.top_k == DEFAULT_TOP_K
        &&& self.repetition_penalty_milli == DEFAULT_REPETITION_PENALTY_MILLI
    }
}

impl LlmRequest {
    /// An exact copy of this request.
    pub fn duplicate(&self) -> (r: LlmRequest)
        ensures
            r == *self,
    {
        let system_prompt = match &self.system_prompt {
            Some(s) => Some(s.clone()),
            None => None,
        };
        LlmRequest {
            prompt: self.prompt.clone(),
            max_new_tokens: self.max_new_tokens,
            temperature_milli: self.temperature_milli,
            top_p_milli: self.top_p_milli,
            top_k: self.top_k,
            repetition_penalty_milli: self.repetition_penalty_milli,
            stream: self.stream,
            system_prompt,
        }
    }
}

impl Default for LlmRequest {
    fn default() -> (r: LlmRequest)
        ensures
            r.prompt@.len() == 0,
            r.max_new_tokens == DEFAULT_MAX_NEW_TOKENS,
            r.has_default_sampling(),
            !r.stream,
            r.system_prompt is None,
    {
        LlmRequest {
            prompt: String::new(),
            max_new_tokens: DEFAULT_MAX_NEW_TOKENS,
            temperature_milli: DEFAULT_TEMPERATURE_MILLI,
            top_p_milli: DEFAULT_TOP_P_MILLI,
            top_k: DEFAULT_TOP_K,
            repetition_penalty_milli: DEFAULT_REPETITION_PENALTY_MILLI,
            stream: false,
            system_prompt: None,
        }
    }
}

/// A completed blocking generation. The elapsed time is in microseconds.
pub struct LlmResponse {
    pub text: String,
    pub tokens_generated: u32,
    pub elapsed_micros: u64,
    pub model: String,
}

/// The backend's report on itself.
pub struct HealthResponse {
    pub status: String,
    pub model: String,
    pub model_loaded: bool,
}

/// Whether a response's content type announces an event stream.
pub fn is_event_stream(content_type: &str) -> (r: bool)
    ensures
        r == contains_seq(content_type@, "text/event-stream"@),
{
    contains_text(content_type, "text/event-stream")
}

/// A line without its trailing carriage returns.
pub open spec fn strip_cr(line: Seq<char>) -> Seq<char>
    decreases line.len(),
{
    if line.len() > 0 && line.last() == '\r' {
        strip_cr(line.drop_last())
    } else {
        line
    }
}

/// The payload of an event-stream line: what follows `data: `.
pub open spec fn data_of(line: Seq<char>) -> Option<Seq<char>> {
    if "data: "@.is_prefix_of(line) {
        Some(line.subrange(6, line.len() as int))
    } else {
        None
    }
}

/// Decoding of event-stream text: `line` is the unfinished line so far and
/// `input` the text after it. Gives the tokens of the complete lines, whether
/// the end marker `[DONE]` was met, and the unfinished line left over.
pub open spec fn scan(line: Seq<char>, input: Seq<char>) -> (Seq<Seq<char>>, bool, Seq<char>)
    decreases input.len(),
{
    if input.len() == 0 {
        (Seq::empty(), false, line)
    } else if input[0] == '\n' {
        match data_of(strip_cr(line)) {
            Some(d) => if d == "[DONE]"@ {
                (Seq::empty(), true, Seq::empty())
            } else {
                let (ts, done, rest) = scan(Seq::empty(), input.drop_first());
                (seq![d] + ts, done, rest)
            },
            None => scan(Seq::empty(), input.drop_first()),
        }
    } else {
        scan(line.push(input[0]), input.drop_first())
    }
}

/// The texts of a list of strings.
pub open spec fn texts(v: Seq<String>) -> Seq<Seq<char>> {
    v.map_values(|s: String| s@)
}

/// Splits a backend event stream into tokens, one per `data: ` line, until
/// the `[DONE]` marker.
pub struct SseDecoder {
    pending: String,
    finished: bool,
}

impl SseDecoder {
    /// Text received after the last complete line.
    pub closed spec fn spec_pending(&self) -> Seq<char> {
        self.pending@
    }

    /// Whether the end marker was met.
    pub closed spec fn spec_finished(&self) -> bool {
        self.finished
    }

    pub fn new() -> (r: SseDecoder)
        ensures
            r.spec_pending().len() == 0,
            !r.spec_finished(),
    {
        SseDecoder { pending: String::new(), finished: false }
    }

    pub fn is_finished(&self) -> (r: bool)
        ensures
            r == self.spec_finished(),
    {
        self.finished
    }

    /// Takes the next piece of the stream and returns the tokens of the lines
    /// it completes. Nothing is returned once the end marker was met.
    pub fn feed(&mut self, chunk: &str) -> (r: Vec<String>)
        ensures
            old(self).spec_finished() ==> r@.len() == 0 && *final(self) == *old(self),
            !old(self).spec_finished() ==> {
                let (ts, done, rest) = scan(Seq::empty(), old(self).spec_pending() + chunk@);
                &&& texts(r@) == ts
                &&& final(self).spec_finished() == done
                &&& final(self).spec_pending() == rest
            },
    {
        let mut out: Vec<String> = Vec::new();
        if self.finished {
            return out;
        }
        let mut buf = String::new();
        std::mem::swap(&mut buf, &mut self.pending);
        buf.append(chunk);
        let ghost whole = buf@;
        let n = buf.as_str().unicode_len();
        let mut start: usize = 0;
        let mut k: usize = 0;
        assert(whole.subrange(0, 0) =~= Seq::<char>::empty());
        assert(whole.subrange(0, n as int) =~= whole);
        assert(texts(out@) =~= Seq::<Seq<char>>::empty());
        while k < n
            invariant
                whole == buf@,
                n == whole.len(),
                start <= k <= n,
                !self.finished,
                !old(self).finished,
                self.pending@ == Seq::<char>::empty(),
                whole == old(self).pending@ + chunk@,
                scan(Seq::empty(), whole) == ({
                    let (ts, done, rest) = scan(
                        whole.subrange(start as int, k as int),
                        whole.subrange(k as int, n as int),
                    );
                    (texts(out@) + ts, done, rest)
                }),
            decreases n - k,
        {
            let c = buf.as_str().get_char(k);
            let ghost input = whole.subrange(k as int, n as int);
            assert(input[0] == c);
            assert(input.drop_first() =~= whole.subrange(k + 1, n as int));
            if c == '\n' {
                let line = buf.as_str().substring_char(start, k);
                let mut end = line.unicode_len();
                let ghost full = line@;
                assert(full.subrange(0, end as int) =~= full);
                while end > 0 && line.get_char(end - 1) == '\r'
                    invariant
                        end <= full.len(),
                        !old(self).finished,
                        full == line@,
                        strip_cr(full) == strip_cr(full.subrange(0, end as int)),
                    decreases end,
                {
                    assert(full.subrange(0, end as int).drop_last() =~= full.subrange(0, end - 1));
                    end = end - 1;
                }
                let content = line.substring_char(0, end);
                assert(strip_cr(full) == content@);
                match strip_prefix(content, "data: ") {
                    Some(data) => {
                        proof {
                            reveal_strlit("data: ");
                        }
                        if same_text(data, "[DONE]") {
                            self.finished = true;
                            assert(texts(out@) + Seq::<Seq<char>>::empty() =~= texts(out@));
                            return out;
                        }
                        let ghost before = texts(out@);
                        out.push(String::from_str(data));
                        proof {
                            let (ts, done, rest) = scan(
                                Seq::empty(),
                                whole.subrange(k + 1, n as int),
                            );
                            assert(texts(out@) =~= before.push(data@));
                            assert(before + (seq![data@] + ts) =~= texts(out@) + ts);
                        }
                    },
                    None => {},
                }
                start = k + 1;
                assert(whole.subrange(start as int, k + 1) =~= Seq::<char>::empty());
            } else {
                assert(whole.subrange(start as int, k as int).push(c) =~= whole.subrange(
                    start as int,
                    k + 1,
                ));
            }
            k = k + 1;
        }
        assert(whole.subrange(k as int, n as int) =~= Seq::<char>::empty());
        self.pending = String::from_str(buf.as_str().substring_char(start, n));
        out
    }
}

/// The base URL of the backend without trailing slashes.
pub open spec fn strip_slashes(url: Seq<char>) -> Seq<char>
    decreases url.len(),
{
    if url.len() > 0 && url.last() == '/' {
        strip_slashes(url.drop_last())
    } else {
        url
    }
}

/// The base URL without its trailing slashes.
pub fn normalize_base_url(url: &str) -> (r: String)
    ensures
        r@ == strip_slashes(url@),
{
    let mut end = url.unicode_len();
    assert(url@.subrange(0, end as int) =~= url@);
    while end > 0 && url.get_char(end - 1) == '/'
        invariant
            end <= url@.len(),
            strip_slashes(url@) == strip_slashes(url@.subrange(0, end as int)),
        decreases end,
    {
        assert(url@.subrange(0, end as int).drop_last() =~= url@.subrange(0, end - 1));
        end = end - 1;
    }
    String::from_str(url.substring_char(0, end))
}

/// The generation endpoint under a normalised base URL.
pub fn generate_url(base: &str) -> (r: String)
    ensures
        r@ == base@ + "/generate"@,
{
    let mut out = String::from_str(base);
    out.append("/generate");
    out
}

/// The health endpoint under a normalised base URL.
pub fn health_url(base: &str) -> (r: String)
    ensures
        r@ == base@ + "/health"@,
{
    let mut out = String::from_str(base);
    out.append("/health");
    out
}

} // verus!
