//! Translation of natural-language questions into graph queries:
//! query validation, result formatting, prompt templating, schema
//! modelling and discovery planning, a bounded schema cache, and the
//! pipeline state machine that sequences the whole conversion.

pub mod cache;
pub mod chat;
pub mod client;
pub mod discovery;
pub mod errors;
pub mod formatter;
pub mod json;
pub mod pipeline;
pub mod processor;
pub mod progress;
pub mod sanitize;
pub mod schema;
pub mod synth;
pub mod template;
pub mod text;
pub mod validator;
pub mod vercel;

pub use chat::{ChatMessage, ChatRequest, ChatRole};
pub use client::TextToCypherClient;
pub use errors::ErrorResponse;
pub use processor::{TextToCypherRequest, TextToCypherResponse};
