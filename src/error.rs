//! The gateway's error taxonomy and how each error is reported to a caller.

use vstd::prelude::*;
use vstd::string::*;

verus! {

/// An error surfaced to a caller.
#[derive(Debug, Clone)]
pub enum AppError {
    /// The backend could not be reached.
    LlmUnavailable(String),
    /// The backend was reached but failed or answered malformed output.
    LlmGeneration(String),
    /// The caller's input was empty or invalid.
    BadRequest(String),
    /// The caller's admission quota is exhausted.
    RateLimited,
    /// An unexpected failure inside the gateway.
    Internal(String),
}

pub const RATE_LIMITED_MESSAGE: &'static str = "Túl sok kérés, próbálj újra később.";

impl AppError {
    /// The HTTP status that reports this error.
    pub open spec fn spec_status(&self) -> u16 {
        match self {
            AppError::LlmUnavailable(_) => 503,
            AppError::LlmGeneration(_) => 500,
            AppError::BadRequest(_) => 400,
            AppError::RateLimited => 429,
            AppError::Internal(_) => 500,
        }
    }

    /// The machine-readable code that reports this error.
    pub open spec fn spec_code(&self) -> Seq<char> {
        match self {
            AppError::LlmUnavailable(_) => "llm_unavailable"@,
            AppError::LlmGeneration(_) => "llm_error"@,
            AppError::BadRequest(_) => "bad_request"@,
            AppError::RateLimited => "rate_limited"@,
            AppError::Internal(_) => "internal_error"@,
        }
    }

    /// The human-readable message that reports this error.
    pub open spec fn spec_message(&self) -> Seq<char> {
        match self {
            AppError::LlmUnavailable(m) => m@,
            AppError::LlmGeneration(m) => m@,
            AppError::BadRequest(m) => m@,
            AppError::RateLimited => RATE_LIMITED_MESSAGE@,
            AppError::Internal(m) => m@,
        }
    }

    /// The one-line description of this error.
    pub open spec fn spec_describe(&self) -> Seq<char> {
        match self {
            AppError::LlmUnavailable(m) => "Python LLM szerver nem elérhető: "@ + m@,
            AppError::LlmGeneration(m) => "LLM generálási hiba: "@ + m@,
            AppError::BadRequest(m) => "Érvénytelen kérés: "@ + m@,
            AppError::RateLimited => "Rate limit túllépve"@,
            AppError::Internal(m) => "Belső szerver hiba: "@ + m@,
        }
    }

    pub fn status_code(&self) -> (r: u16)
        ensures
            r == self.spec_status(),
    {
        match self {
            AppError::LlmUnavailable(_) => 503,
            AppError::LlmGeneration(_) => 500,
            AppError::BadRequest(_) => 400,
            AppError::RateLimited => 429,
            AppError::Internal(_) => 500,
        }
    }

    pub fn code(&self) -> (r: &'static str)
        ensures
            r@ == self.spec_code(),
    {
        match self {
            AppError::LlmUnavailable(_) => "llm_unavailable",
            AppError::LlmGeneration(_) => "llm_error",
            AppError::BadRequest(_) => "bad_request",
            AppError::RateLimited => "rate_limited",
            AppError::Internal(_) => "internal_error",
        }
    }

    pub fn message(&self) -> (r: String)
        ensures
            r@ == self.spec_message(),
    {
        match self {
            AppError::LlmUnavailable(m) => m.clone(),
            AppError::LlmGeneration(m) => m.clone(),
            AppError::BadRequest(m) => m.clone(),
            AppError::RateLimited => String::from_str(RATE_LIMITED_MESSAGE),
            AppError::Internal(m) => m.clone(),
        }
    }

    /// The description of this error, as shown in logs and stream error events.
    pub fn describe(&self) -> (r: String)
        ensures
            r@ == self.spec_describe(),
    {
        let (head, tail): (&str, &str) = match self {
            AppError::LlmUnavailable(m) => ("Python LLM szerver nem elérhető: ", m.as_str()),
            AppError::LlmGeneration(m) => ("LLM generálási hiba: ", m.as_str()),
            AppError::BadRequest(m) => ("Érvénytelen kérés: ", m.as_str()),
            AppError::RateLimited => ("Rate limit túllépve", ""),
            AppError::Internal(m) => ("Belső szerver hiba: ", m.as_str()),
        };
        let mut out = String::from_str(head);
        out.append(tail);
        proof {
            if self is RateLimited {
                reveal_strlit("");
                assert(out@ =~= "Rate limit túllépve"@);
            }
        }
        out
    }
}

} // verus!
