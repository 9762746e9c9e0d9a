//! The route that lists the models.

pub mod get;
