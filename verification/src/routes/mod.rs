//! Request handling: what each route decides.

pub mod chat;
pub mod chat_handlers;
pub mod message;
pub mod models;
pub mod router;
