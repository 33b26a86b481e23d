//! Session-and-streaming core of a chat gateway: session history, prompt
//! assembly, reply finalisation, streaming with fallback and admission.

pub mod admission;
pub mod bot_logic;
pub mod clock;
pub mod config;
pub mod error;
pub mod llm_client;
pub mod openai_compat;
pub mod routes;
pub mod session_store;
pub mod streaming;
pub mod text;
