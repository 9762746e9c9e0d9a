//! Relay of one chat turn between a streaming completion provider and a
//! document store: decoding of provider frames, the relay state machine, the
//! wire encoding of client events, cancellation bookkeeping, title synthesis
//! and the value codec of the store.

pub mod config;
pub mod convex;
pub mod convex_serde;
pub mod error;
pub mod json;
pub mod logger;
pub mod openai;
pub mod openrouter;
pub mod routes;
pub mod state;
pub mod text;
pub mod types;
