//! Gateway settings and their defaults.

use vstd::prelude::*;
use vstd::string::*;

use crate::llm_client::texts;
use crate::text::{trim, trimmed};

verus! {

/// The settings of the gateway process.
pub struct AppConfig {
    /// Address the server listens on.
    pub host: String,
    /// Port the server listens on.
    pub port: u16,
    /// Base URL of the generation backend.
    pub llm_url: String,
    /// Token budget of a request that names none.
    pub default_max_tokens: u32,
    /// Name the bot speaks under.
    pub bot_name: String,
    /// Allowed cross-origin callers, comma separated, or `*`.
    pub cors_origins: String,
    /// Requests per second granted to each client address.
    pub rate_limit_per_second: u32,
}

pub fn default_host() -> (r: String)
    ensures
        r@ == "0.0.0.0"@,
{
    String::from_str("0.0.0.0")
}

pub fn default_port() -> (r: u16)
    ensures
        r == 3000,
{
    3000
}

pub fn default_llm_url() -> (r: String)
    ensures
        r@ == "http://127.0.0.1:8000"@,
{
    String::from_str("http://127.0.0.1:8000")
}

pub fn default_max_tokens() -> (r: u32)
    ensures
        r == 512,
{
    512
}

pub fn default_bot_name() -> (r: String)
    ensures
        r@ == "ClawDBot"@,
{
    String::from_str("ClawDBot")
}

pub fn default_cors_origins() -> (r: String)
    ensures
        r@ == "*"@,
{
    String::from_str("*")
}

pub fn default_rate_limit() -> (r: u32)
    ensures
        r == 5,
{
    5
}

impl AppConfig {
    /// The settings used where nothing overrides them.
    pub fn with_defaults() -> (r: AppConfig)
        ensures
            r.host@ == "0.0.0.0"@,
            r.port == 3000,
            r.llm_url@ == "http://127.0.0.1:8000"@,
            r.default_max_tokens == 512,
            r.bot_name@ == "ClawDBot"@,
            r.cors_origins@ == "*"@,
            r.rate_limit_per_second == 5,
    {
        AppConfig {
            host: default_host(),
            port: default_port(),
            llm_url: default_llm_url(),
            default_max_tokens: default_max_tokens(),
            bot_name: default_bot_name(),
            cors_origins: default_cors_origins(),
            rate_limit_per_second: default_rate_limit(),
        }
    }
}

/// Which cross-origin callers are allowed.
pub enum OriginPolicy {
    /// Any origin.
    Any,
    /// The listed origins.
    List(Vec<String>),
}

/// The pieces of `line` followed by those of `input`, split at each comma.
pub open spec fn split_commas(line: Seq<char>, input: Seq<char>) -> Seq<Seq<char>>
    decreases input.len(),
{
    if input.len() == 0 {
        seq![line]
    } else if input[0] == ',' {
        seq![line] + split_commas(Seq::empty(), input.drop_first())
    } else {
        split_commas(line.push(input[0]), input.drop_first())
    }
}

/// Each piece trimmed.
pub open spec fn trim_each(pieces: Seq<Seq<char>>) -> Seq<Seq<char>> {
    pieces.map_values(|p: Seq<char>| trimmed(p))
}

/// Reads an origin setting: `*` allows any origin; otherwise the setting is
/// split at commas and each piece is trimmed.
pub fn origin_policy(allowed: &str) -> (r: OriginPolicy)
    ensures
        allowed@ == "*"@ ==> r is Any,
        allowed@ != "*"@ ==> (r matches OriginPolicy::List(v) && texts(v@) == trim_each(
            split_commas(Seq::empty(), allowed@),
        )),
{
    if crate::text::same_text(allowed, "*") {
        return OriginPolicy::Any;
    }
    let ghost whole = allowed@;
    let n = allowed.unicode_len();
    let mut out: Vec<String> = Vec::new();
    let mut start: usize = 0;
    let mut k: usize = 0;
    assert(whole.subrange(0, 0) =~= Seq::<char>::empty());
    assert(whole.subrange(0, n as int) =~= whole);
    assert(texts(out@) =~= Seq::<Seq<char>>::empty());
    assert(trim_each(split_commas(Seq::empty(), whole)) =~= texts(out@) + trim_each(
        split_commas(whole.subrange(0, 0), whole.subrange(0, n as int)),
    ));
    while k < n
        invariant
            whole == allowed@,
            n == whole.len(),
            start <= k <= n,
            trim_each(split_commas(Seq::empty(), whole)) == texts(out@) + trim_each(
                split_commas(whole.subrange(start as int, k as int), whole.subrange(k as int, n as int)),
            ),
        decreases n - k,
    {
        let c = allowed.get_char(k);
        let ghost input = whole.subrange(k as int, n as int);
        let ghost line = whole.subrange(start as int, k as int);
        assert(input[0] == c);
        assert(input.drop_first() =~= whole.subrange(k + 1, n as int));
        if c == ',' {
            let piece = trim(allowed.substring_char(start, k));
            let ghost before = out@;
            out.push(piece);
            proof {
                let rest = split_commas(Seq::<char>::empty(), whole.subrange(k + 1, n as int));
                assert(split_commas(line, input) == seq![line] + rest);
                assert(trim_each(seq![line] + rest) =~= seq![trimmed(line)] + trim_each(rest));
                assert(texts(out@) =~= texts(before).push(trimmed(line)));
                assert(texts(before) + (seq![trimmed(line)] + trim_each(rest)) =~= texts(out@) + trim_each(
                    rest,
                ));
                assert(whole.subrange(k + 1, k + 1) =~= Seq::<char>::empty());
            }
            start = k + 1;
        } else {
            assert(line.push(c) =~= whole.subrange(start as int, k + 1));
        }
        k = k + 1;
    }
    let last = trim(allowed.substring_char(start, n));
    let ghost before = out@;
    out.push(last);
    proof {
        let line = whole.subrange(start as int, n as int);
        assert(whole.subrange(n as int, n as int) =~= Seq::<char>::empty());
        assert(split_commas(line, Seq::empty()) == seq![line]);
        assert(trim_each(seq![line]) =~= seq![trimmed(line)]);
        assert(texts(out@) =~= texts(before).push(trimmed(line)));
        assert(texts(before) + seq![trimmed(line)] =~= texts(out@));
    }
    OriginPolicy::List(out)
}

} // verus!
