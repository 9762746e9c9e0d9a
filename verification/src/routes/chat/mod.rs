//! The route that streams a canned reply.

pub mod create;
