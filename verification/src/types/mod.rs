//! Export of the types and routes of the service for its clients.

pub mod export;
